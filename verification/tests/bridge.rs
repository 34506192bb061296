use py_node_bridge::channel::{DataReceiver, DataSender, PortHandle};
use py_node_bridge::config::{ConfigValue, Number};
use py_node_bridge::error::{from_pyerr_to_zferr, BridgeError, ScriptException};
use py_node_bridge::gil::{all_disjoint, GilSection};
use py_node_bridge::lifecycle::{
    extract_init_plan, interpret_run_result, NodeBridge, PythonState, ScriptHandle,
};
use py_node_bridge::loader::library_filename;
use py_node_bridge::message::{from_pyany_to_data, DataMessage, Message};
use py_node_bridge::script::{ScriptInt, ScriptValue};

fn obj(entries: Vec<(&str, ConfigValue)>) -> ConfigValue {
    ConfigValue::Object(entries.into_iter().map(|(k, v)| (k.to_string(), v)).collect())
}

#[test]
fn data_message_keeps_payload_and_timestamp() {
    let m = Message::Data { payload: vec![1, 2, 3], timestamp: 42 };
    let d = DataMessage::try_from(m).expect("data converts");
    assert_eq!(d.get_data(), &vec![1, 2, 3]);
    assert_eq!(d.get_ts(), 42);
    assert!(!d.is_watermark());
}

#[test]
fn watermark_gets_placeholder_payload() {
    let m = Message::Watermark { timestamp: 7 };
    let d = DataMessage::try_from(m).expect("watermark converts");
    assert_eq!(d.get_data(), &vec![0u8]);
    assert_eq!(d.get_ts(), 7);
    assert!(d.is_watermark());
}

#[test]
fn control_message_is_a_conversion_error() {
    match DataMessage::try_from(Message::Control) {
        Err(BridgeError::ConversionError { detail }) => {
            assert_eq!(detail, "Cannot convert ControlMessage to DataMessage");
        },
        _ => panic!("expected a conversion error"),
    }
}

#[test]
fn data_message_new_and_getters() {
    let d = DataMessage::new(vec![9], 1, true);
    assert_eq!(d.get_data(), &vec![9]);
    assert_eq!(d.get_ts(), 1);
    assert!(d.is_watermark());
}

#[test]
fn bytes_return_value_becomes_data() {
    let r = from_pyany_to_data(ScriptValue::PyBytes(vec![b'o', b'k']));
    assert_eq!(r.expect("bytes convert"), vec![b'o', b'k']);
}

#[test]
fn non_bytes_return_value_names_its_type() {
    match from_pyany_to_data(ScriptValue::PyInt(ScriptInt::Signed(1))) {
        Err(BridgeError::ConversionError { detail }) => {
            assert_eq!(detail, "Cannot convert int to data");
        },
        _ => panic!("expected a conversion error"),
    }
    match from_pyany_to_data(ScriptValue::PyNone) {
        Err(BridgeError::ConversionError { detail }) => {
            assert_eq!(detail, "Cannot convert NoneType to data");
        },
        _ => panic!("expected a conversion error"),
    }
}

#[test]
fn exception_translation_keeps_message_and_traceback() {
    let err = ScriptException {
        message: "ValueError: bad".to_string(),
        traceback: Some("Traceback (most recent call last): ...".to_string()),
    };
    match from_pyerr_to_zferr(err) {
        BridgeError::ScriptExecutionError { message, traceback } => {
            assert_eq!(message, "ValueError: bad");
            assert_eq!(traceback, "Traceback (most recent call last): ...");
        },
        _ => panic!("expected a script-execution error"),
    }
}

#[test]
fn exception_without_traceback_gets_empty_text() {
    let err = ScriptException { message: "boom".to_string(), traceback: None };
    match from_pyerr_to_zferr(err) {
        BridgeError::ScriptExecutionError { message, traceback } => {
            assert_eq!(message, "boom");
            assert_eq!(traceback, "");
        },
        _ => panic!("expected a script-execution error"),
    }
}

#[test]
fn missing_configuration_is_a_configuration_error() {
    match extract_init_plan(&None) {
        Err(BridgeError::ConfigurationError { detail }) => {
            assert_eq!(detail, "Missing configuration");
        },
        _ => panic!("expected a configuration error"),
    }
}

#[test]
fn missing_script_field_is_a_configuration_error() {
    let cfg = obj(vec![("configuration", ConfigValue::Null)]);
    match extract_init_plan(&Some(cfg)) {
        Err(BridgeError::ConfigurationError { detail }) => {
            assert_eq!(detail, "Missing or malformed python-script entry");
        },
        _ => panic!("expected a configuration error"),
    }
}

#[test]
fn non_object_configuration_is_a_configuration_error() {
    let cfg = ConfigValue::Text("just a string".to_string());
    assert!(matches!(
        extract_init_plan(&Some(cfg)),
        Err(BridgeError::ConfigurationError { .. })
    ));
}

#[test]
fn absent_configuration_subtree_defaults_to_null() {
    let cfg = obj(vec![("python-script", ConfigValue::Text("node.py".to_string()))]);
    let plan = extract_init_plan(&Some(cfg)).expect("plan extracts");
    assert_eq!(plan.script_path, "node.py");
    assert!(matches!(plan.script_config, ConfigValue::Null));
}

#[test]
fn non_string_script_field_is_a_configuration_error() {
    let cfg = obj(vec![("python-script", ConfigValue::Number(Number::PosInt(1)))]);
    assert!(matches!(
        extract_init_plan(&Some(cfg)),
        Err(BridgeError::ConfigurationError { .. })
    ));
}

#[test]
fn initialize_and_run_scenario() {
    // Configuration {"python-script": "node.py", "configuration":
    // {"threshold": 5}}: initialize extracts node.py and the subtree the
    // script's own initialize receives; a later run returning bytes b"ok"
    // hands the host exactly those bytes.
    let cfg = obj(vec![
        ("python-script", ConfigValue::Text("node.py".to_string())),
        ("configuration", obj(vec![("threshold", ConfigValue::Number(Number::PosInt(5)))])),
    ]);
    let plan = extract_init_plan(&Some(cfg)).expect("plan extracts");
    assert_eq!(plan.script_path, "node.py");
    match &plan.script_config {
        ConfigValue::Object(entries) => {
            assert_eq!(entries.len(), 1);
            assert_eq!(entries[0].0, "threshold");
            match entries[0].1 {
                ConfigValue::Number(n) => assert!(n == Number::PosInt(5)),
                _ => panic!("expected a number"),
            }
        },
        _ => panic!("expected an object"),
    }
    // The script configuration crosses the boundary as a dict.
    match plan.script_config.configuration_into_py() {
        ScriptValue::PyDict(entries) => {
            assert_eq!(entries.len(), 1);
            assert_eq!(entries[0].0, "threshold");
            assert!(matches!(entries[0].1, ScriptValue::PyInt(ScriptInt::Signed(5))));
        },
        _ => panic!("expected a dict"),
    }
    let run = interpret_run_result(Ok(ScriptValue::PyBytes(b"ok".to_vec())));
    assert_eq!(run.expect("bytes cross back"), b"ok".to_vec());
}

#[test]
fn run_exception_scenario() {
    // A script whose run raises: the host sees a script-execution error
    // carrying the exception text and a non-empty traceback.
    let raised = ScriptException {
        message: "ZeroDivisionError: division by zero".to_string(),
        traceback: Some(
            "Traceback (most recent call last):\n  File \"node.py\", line 12, in run\n"
                .to_string(),
        ),
    };
    match interpret_run_result(Err(raised)) {
        Err(BridgeError::ScriptExecutionError { message, traceback }) => {
            assert_eq!(message, "ZeroDivisionError: division by zero");
            assert!(!traceback.is_empty());
            assert!(traceback.starts_with("Traceback"));
        },
        _ => panic!("expected a script-execution error"),
    }
}

#[test]
fn teardown_runs_exactly_once() {
    let mut st = PythonState::new(
        ScriptHandle { id: 1 },
        ScriptHandle { id: 2 },
        ScriptHandle { id: 3 },
    );
    assert!(st.begin_finalize());
    assert!(!st.begin_finalize());
    assert!(!st.begin_finalize());
}

#[test]
fn node_lifecycle_scenario() {
    let mut node = NodeBridge::new();
    assert!(!node.can_run());
    assert!(node.run_call_target().is_none());
    let st = PythonState::new(
        ScriptHandle { id: 10 },
        ScriptHandle { id: 20 },
        ScriptHandle { id: 30 },
    );
    node.complete_initialize(st);
    assert!(node.can_run());
    let target = node.run_call_target().expect("ready node has a target");
    assert_eq!(target.0, ScriptHandle { id: 10 });
    assert_eq!(target.1, ScriptHandle { id: 20 });
    assert_eq!(target.2, ScriptHandle { id: 30 });
    // Explicit finalize gets the handles; the release at drop gets nothing.
    let first = node.begin_finalize().expect("first teardown gets the handles");
    assert_eq!(first.0, ScriptHandle { id: 10 });
    assert_eq!(first.1, ScriptHandle { id: 20 });
    assert!(node.begin_finalize().is_none());
    assert!(!node.can_run());
}

#[test]
fn failed_initialize_leaves_the_node_unusable() {
    let mut node = NodeBridge::new();
    node.fail_initialize();
    assert!(!node.can_run());
    assert!(node.run_call_target().is_none());
    assert!(node.begin_finalize().is_none());
}

#[test]
fn serialized_sections_do_not_overlap() {
    // Two nodes' recorded lock sections, granted one after the other.
    let trace = vec![
        GilSection { node: 1, enter: 0, exit: 5 },
        GilSection { node: 2, enter: 5, exit: 9 },
        GilSection { node: 1, enter: 9, exit: 12 },
    ];
    assert!(all_disjoint(&trace));
    let overlapping = vec![
        GilSection { node: 1, enter: 0, exit: 6 },
        GilSection { node: 2, enter: 5, exit: 9 },
    ];
    assert!(!all_disjoint(&overlapping));
}

#[test]
fn send_outcome_maps_to_channel_error() {
    let s = DataSender::from_output(PortHandle { id: 4 });
    assert!(s.interpret_send(true).is_ok());
    match s.interpret_send(false) {
        Err(BridgeError::ChannelError { detail }) => {
            assert_eq!(detail, "Unable to send data");
        },
        _ => panic!("expected a channel error"),
    }
}

#[test]
fn recv_outcome_maps_failures_and_converts_messages() {
    let r = DataReceiver::from_input(PortHandle { id: 5 });
    match r.interpret_recv(None) {
        Err(BridgeError::ChannelError { detail }) => {
            assert_eq!(detail, "Unable to receive data");
        },
        _ => panic!("expected a channel error"),
    }
    let d = r
        .interpret_recv(Some(Message::Data { payload: vec![8], timestamp: 3 }))
        .expect("data converts");
    assert_eq!(d.get_data(), &vec![8]);
    assert_eq!(d.get_ts(), 3);
    assert!(!d.is_watermark());
    assert!(matches!(
        r.interpret_recv(Some(Message::Control)),
        Err(BridgeError::ConversionError { .. })
    ));
}

#[test]
fn reclaiming_a_port_needs_sole_ownership() {
    let r = DataReceiver::from_input(PortHandle { id: 6 });
    let port = r.try_into_input().expect("sole owner reclaims");
    assert_eq!(port, PortHandle { id: 6 });
    let mut shared = DataReceiver::from_input(PortHandle { id: 7 });
    shared.share();
    match shared.try_into_input() {
        Err(BridgeError::ChannelError { detail }) => {
            assert_eq!(
                detail,
                "Cannot get Input from Python, maybe using a callback in the iteration function?"
            );
        },
        _ => panic!("expected a channel error"),
    }
}

#[test]
fn library_filename_follows_the_platform_convention() {
    assert_eq!(library_filename("python3.10"), "libpython3.10.so");
}
