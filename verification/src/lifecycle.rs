//! The node lifecycle bridge: the decisions behind initialize, run and
//! finalize. The interpreter calls themselves happen outside the library;
//! this module fixes, with contracts, what is extracted from the
//! configuration, what is handed to the script, what its results mean, and
//! that script-side teardown runs exactly once.
use vstd::prelude::*;

use crate::config::{obj_index, ConfigData, ConfigValue};
use crate::error::{from_pyerr_to_zferr, BridgeError, ScriptException};
use crate::message::from_pyany_to_data;
use crate::script::{spec_py_type_name, ScriptValue};

verus! {

/// An opaque reference to an object living inside the interpreter. The
/// bridge holds interpreter objects only by handle; what a handle denotes
/// is known to the runtime that issued it.
#[derive(Clone, Copy, PartialEq, Eq, Structural, Debug)]
pub struct ScriptHandle {
    pub id: u64,
}

/// What `initialize` decided from the node's configuration: which script
/// file to load, and the configuration subtree the script's own
/// `initialize` receives.
pub struct InitPlan {
    pub script_path: String,
    pub script_config: ConfigValue,
}

/// Extracts the initialization plan from the node's configuration.
///
/// The configuration must be present and must carry a string under the
/// script-file key; anything else is a configuration error, never a panic.
/// The script's own settings are whatever sits under the nested
/// configuration key, null when that key is absent.
pub fn extract_init_plan(configuration: &Option<ConfigValue>) -> (r: Result<
    InitPlan,
    BridgeError,
>)
    ensures
        configuration is None ==> (r matches Err(e)
            && e matches BridgeError::ConfigurationError { detail }
            && detail@ == "Missing configuration"@),
        configuration matches Some(c) ==> {
            let path = obj_index(c@, "python-script"@);
            &&& (path matches ConfigData::Str(p) ==> r matches Ok(plan)
                && plan.script_path@ == p
                && plan.script_config@ == obj_index(c@, "configuration"@))
            &&& (!(path is Str) ==> (r matches Err(e)
                && e matches BridgeError::ConfigurationError { detail }
                && detail@ == "Missing or malformed python-script entry"@))
        },
{
    match configuration {
        None => Err(BridgeError::ConfigurationError {
            detail: String::from_str("Missing configuration"),
        }),
        Some(c) => {
            let script_key = String::from_str("python-script");
            match c.get(&script_key) {
                Some(v) => match v {
                    ConfigValue::Text(s) => {
                        let config_key = String::from_str("configuration");
                        let script_config = match c.get(&config_key) {
                            Some(sub) => sub.deep_clone(),
                            None => ConfigValue::Null,
                        };
                        Ok(InitPlan { script_path: s.clone(), script_config })
                    },
                    _ => Err(BridgeError::ConfigurationError {
                        detail: String::from_str("Missing or malformed python-script entry"),
                    }),
                },
                None => Err(BridgeError::ConfigurationError {
                    detail: String::from_str("Missing or malformed python-script entry"),
                }),
            }
        },
    }
}

/// The long-lived interpreter references a node owns: the script's
/// registered class object, the state object its `initialize` returned, and
/// the host's type-bridge module. The flag records whether script-side
/// teardown has already run, so that an explicit finalize and the
/// release-triggered one are idempotent together.
pub struct PythonState {
    pub module: ScriptHandle,
    pub py_state: ScriptHandle,
    pub py_zf_types: ScriptHandle,
    pub finalized: bool,
}

impl PythonState {
    /// Fresh state, as `initialize` stores it: teardown still owed.
    pub fn new(module: ScriptHandle, py_state: ScriptHandle, py_zf_types: ScriptHandle) -> (r:
        PythonState)
        ensures
            r.module == module,
            r.py_state == py_state,
            r.py_zf_types == py_zf_types,
            !r.finalized,
    {
        PythonState { module, py_state, py_zf_types, finalized: false }
    }

    /// One teardown opportunity: the state after it, and whether the
    /// script's finalize must actually be called.
    pub open spec fn spec_release(self) -> (PythonState, bool) {
        (PythonState { finalized: true, ..self }, !self.finalized)
    }

    /// Decides whether the script's `finalize` must run now, and remembers
    /// that the decision was taken. The first caller gets `true`; every
    /// later caller gets `false`, whether it is the explicit finalize or
    /// the release-triggered one.
    pub fn begin_finalize(&mut self) -> (must_call: bool)
        ensures
            (*final(self), must_call) == old(self).spec_release(),
            must_call == !old(self).finalized,
            final(self).finalized,
            final(self).module == old(self).module,
            final(self).py_state == old(self).py_state,
            final(self).py_zf_types == old(self).py_zf_types,
    {
        let was = self.finalized;
        self.finalized = true;
        !was
    }
}

/// How many times the script's finalize is invoked across `n` teardown
/// opportunities (explicit finalize calls or releases), starting from `s`.
pub open spec fn teardown_count(s: PythonState, n: nat) -> nat
    decreases n,
{
    if n == 0 {
        0
    } else {
        (if s.spec_release().1 {
            1nat
        } else {
            0nat
        }) + teardown_count(s.spec_release().0, (n - 1) as nat)
    }
}

proof fn lemma_no_teardown_after(s: PythonState, n: nat)
    requires
        s.finalized,
    ensures
        teardown_count(s, n) == 0,
    decreases n,
{
    if n > 0 {
        lemma_no_teardown_after(s.spec_release().0, (n - 1) as nat);
    }
}

/// Script-side teardown runs exactly once per node lifetime: across any
/// positive number of teardown opportunities on a state that still owes
/// teardown — an explicit finalize, a release at drop, or both — the
/// script's finalize is invoked exactly one time.
pub proof fn lemma_teardown_exactly_once(s: PythonState, n: nat)
    requires
        !s.finalized,
        n >= 1,
    ensures
        teardown_count(s, n) == 1,
{
    lemma_no_teardown_after(s.spec_release().0, (n - 1) as nat);
}

/// The lifecycle phase of one node instance.
#[derive(Clone, Copy, PartialEq, Eq, Structural)]
pub enum Phase {
    Unconfigured,
    Ready,
    Failed,
    Finalized,
}

/// One node instance's lifecycle, as the bridge drives it: unconfigured
/// until `initialize` succeeds, then ready for any number of runs, until
/// finalize or release retires it. A failed `initialize` leaves the node
/// unusable, fatal for this instance only.
pub struct NodeBridge {
    pub phase: Phase,
    pub state: Option<PythonState>,
}

impl NodeBridge {
    /// Phase and stored interpreter state agree.
    pub open spec fn wf(self) -> bool {
        match self.phase {
            Phase::Ready => self.state matches Some(s) && !s.finalized,
            Phase::Finalized => self.state matches Some(s) && s.finalized,
            _ => self.state is None,
        }
    }

    /// A freshly constructed node: no configuration seen yet.
    pub fn new() -> (r: NodeBridge)
        ensures
            r.wf(),
            r.phase is Unconfigured,
    {
        NodeBridge { phase: Phase::Unconfigured, state: None }
    }

    /// Records a successful `initialize`: the interpreter references are
    /// stored and the node becomes ready to run.
    pub fn complete_initialize(&mut self, st: PythonState)
        requires
            old(self).wf(),
            old(self).phase is Unconfigured,
            !st.finalized,
        ensures
            final(self).wf(),
            final(self).phase is Ready,
            final(self).state == Some(st),
    {
        self.state = Some(st);
        self.phase = Phase::Ready;
    }

    /// Records a failed `initialize`: the node is unusable from now on.
    pub fn fail_initialize(&mut self)
        requires
            old(self).wf(),
            old(self).phase is Unconfigured,
        ensures
            final(self).wf(),
            final(self).phase is Failed,
            final(self).state is None,
    {
        self.state = None;
        self.phase = Phase::Failed;
    }

    /// Whether a `run` call may proceed.
    pub fn can_run(&self) -> (r: bool)
        ensures
            r == (self.phase is Ready),
    {
        match self.phase {
            Phase::Ready => true,
            _ => false,
        }
    }

    /// The interpreter objects a `run` call needs: the script's class
    /// object, the stored per-instance state, and the type-bridge module —
    /// available exactly while the node is ready.
    pub fn run_call_target(&self) -> (r: Option<(ScriptHandle, ScriptHandle, ScriptHandle)>)
        requires
            self.wf(),
        ensures
            (r is Some) == (self.phase is Ready),
            r matches Some(t) ==> self.state matches Some(s) && t.0 == s.module && t.1
                == s.py_state && t.2 == s.py_zf_types,
    {
        match self.phase {
            Phase::Ready => match &self.state {
                Some(s) => Some((s.module, s.py_state, s.py_zf_types)),
                None => None,
            },
            _ => None,
        }
    }

    /// One teardown opportunity at the node level: the node afterwards, and
    /// the (class object, state object) pair to call the script's finalize
    /// with, if it must run now.
    pub open spec fn spec_begin_finalize(self) -> (NodeBridge, Option<(
        ScriptHandle,
        ScriptHandle,
    )>) {
        match self.state {
            Some(s) if self.phase is Ready => (
                NodeBridge { phase: Phase::Finalized, state: Some(s.spec_release().0) },
                Some((s.module, s.py_state)),
            ),
            _ => (self, None),
        }
    }

    /// Decides whether the script's `finalize` must run now, and against
    /// which interpreter objects. Both the host's explicit finalize and the
    /// release at drop route through here; whichever comes first gets the
    /// handles, every later opportunity gets none.
    pub fn begin_finalize(&mut self) -> (r: Option<(ScriptHandle, ScriptHandle)>)
        requires
            old(self).wf(),
        ensures
            final(self).wf(),
            (*final(self), r) == old(self).spec_begin_finalize(),
            (r is Some) == (old(self).phase is Ready),
    {
        match self.phase {
            Phase::Ready => {
                let st = match &mut self.state {
                    Some(s) => {
                        let module = s.module;
                        let py_state = s.py_state;
                        s.begin_finalize();
                        Some((module, py_state))
                    },
                    None => None,
                };
                self.phase = Phase::Finalized;
                st
            },
            _ => None,
        }
    }
}

/// A second teardown opportunity never reaches the script: whatever the
/// first one did, the one after it has nothing left to call.
pub proof fn lemma_node_finalize_once(b: NodeBridge)
    requires
        b.wf(),
    ensures
        b.spec_begin_finalize().0.spec_begin_finalize().1 is None,
{
}

/// Interprets what the script's `run` returned. An exception becomes a
/// script-execution error carrying the exception text and its traceback; a
/// successful return must be a byte string, which becomes the host data
/// payload, and anything else is a conversion error naming the type.
pub fn interpret_run_result(res: Result<ScriptValue, ScriptException>) -> (r: Result<
    Vec<u8>,
    BridgeError,
>)
    ensures
        res matches Ok(v) ==> {
            &&& (v matches ScriptValue::PyBytes(b) ==> r matches Ok(p) && p@ == b@)
            &&& (!(v is PyBytes) ==> (r matches Err(e)
                && e matches BridgeError::ConversionError { detail }
                && detail@ == "Cannot convert "@ + spec_py_type_name(v@) + " to data"@))
        },
        res matches Err(ex) ==> (r matches Err(e)
            && e matches BridgeError::ScriptExecutionError { message, traceback }
            && message@ == ex.message@
            && (ex.traceback matches Some(tb) ==> traceback@ == tb@)
            && (ex.traceback is None ==> traceback@.len() == 0)),
{
    match res {
        Ok(v) => from_pyany_to_data(v),
        Err(ex) => Err(from_pyerr_to_zferr(ex)),
    }
}

} // verus!
