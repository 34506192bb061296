//! The host's typed message model and its conversion into the
//! script-facing message type.
use vstd::prelude::*;

use crate::error::BridgeError;
use crate::script::{spec_py_type_name, ScriptValue};

verus! {

/// Converts a script return value into a host data payload. Only a byte
/// string can cross back; anything else is refused with an error naming the
/// received type.
pub fn from_pyany_to_data(value: ScriptValue) -> (r: Result<Vec<u8>, BridgeError>)
    ensures
        value matches ScriptValue::PyBytes(b) ==> (r matches Ok(p) && p@ == b@),
        !(value is PyBytes) ==> (r matches Err(e)
            && e matches BridgeError::ConversionError { detail }
            && detail@ == "Cannot convert "@ + spec_py_type_name(value@) + " to data"@),
{
    match value {
        ScriptValue::PyBytes(b) => Ok(b),
        other => {
            let mut detail = String::from_str("Cannot convert ");
            let name = other.py_type_name();
            detail.append(name.as_str());
            detail.append(" to data");
            Err(BridgeError::ConversionError { detail })
        },
    }
}

/// A message flowing through a host port: a data payload with its logical
/// timestamp, a watermark carrying only a timestamp, or an opaque control
/// message that never crosses into script code.
pub enum Message {
    Data { payload: Vec<u8>, timestamp: u64 },
    Watermark { timestamp: u64 },
    Control,
}

/// The script-facing message object: a byte payload, the timestamp as an
/// integer, and a flag telling data apart from watermarks. For a watermark
/// the payload is a single placeholder byte so the object stays well formed.
pub struct DataMessage {
    pub data: Vec<u8>,
    pub ts: u64,
    pub is_watermark: bool,
}

impl DataMessage {
    /// Builds a script-facing message from its three parts.
    pub fn new(data: Vec<u8>, ts: u64, is_watermark: bool) -> (r: DataMessage)
        ensures
            r.data@ == data@,
            r.ts == ts,
            r.is_watermark == is_watermark,
    {
        DataMessage { data, ts, is_watermark }
    }

    /// The byte payload the script will read.
    pub fn get_data(&self) -> (r: &Vec<u8>)
        ensures
            r@ == self.data@,
    {
        &self.data
    }

    /// The message's timestamp.
    pub fn get_ts(&self) -> (r: u64)
        ensures
            r == self.ts,
    {
        self.ts
    }

    /// Whether the message is a watermark rather than data.
    pub fn is_watermark(&self) -> (r: bool)
        ensures
            r == self.is_watermark,
    {
        self.is_watermark
    }

    /// Converts a host message into the script-facing form.
    ///
    /// Data keeps its payload and timestamp; a watermark gets a single
    /// placeholder byte; a control message is refused with a conversion
    /// error, never a panic.
    pub fn try_from(m: Message) -> (r: Result<DataMessage, BridgeError>)
        ensures
            m matches Message::Data { payload, timestamp } ==> (r matches Ok(d)
                && d.data@ == payload@
                && d.ts == timestamp
                && !d.is_watermark),
            m matches Message::Watermark { timestamp } ==> (r matches Ok(d)
                && d.data@ == seq![0u8]
                && d.ts == timestamp
                && d.is_watermark),
            m is Control ==> (r matches Err(e)
                && e matches BridgeError::ConversionError { detail }
                && detail@ == "Cannot convert ControlMessage to DataMessage"@),
    {
        match m {
            Message::Data { payload, timestamp } => Ok(DataMessage {
                data: payload,
                ts: timestamp,
                is_watermark: false,
            }),
            Message::Watermark { timestamp } => {
                let mut placeholder: Vec<u8> = Vec::new();
                placeholder.push(0u8);
                proof {
                    assert(placeholder@ =~= seq![0u8]);
                }
                Ok(DataMessage { data: placeholder, ts: timestamp, is_watermark: true })
            },
            Message::Control => Err(BridgeError::ConversionError {
                detail: String::from_str("Cannot convert ControlMessage to DataMessage"),
            }),
        }
    }
}

} // verus!
