//! The channel adapters: what the script-facing send and receive wrappers
//! decide around the host's asynchronous port operations, and the
//! reclamation of a wrapped port.
use vstd::prelude::*;

use crate::error::BridgeError;
use crate::message::{DataMessage, Message};

verus! {

/// An opaque handle to one host port.
#[derive(Clone, Copy, PartialEq, Eq, Structural, Debug)]
pub struct PortHandle {
    pub id: u64,
}

/// The script-facing wrapper around one host output port. `extra_refs`
/// counts the additional script-visible references to the underlying port
/// (a pending callback registration, for instance); standard use keeps it
/// at zero.
pub struct DataSender {
    pub sender: PortHandle,
    pub extra_refs: u64,
}

impl DataSender {
    /// Wraps an output port; the wrapper starts as the sole owner.
    pub fn from_output(port: PortHandle) -> (r: DataSender)
        ensures
            r.sender == port,
            r.extra_refs == 0,
    {
        DataSender { sender: port, extra_refs: 0 }
    }

    /// Records one more script-visible reference to the port.
    pub fn share(&mut self)
        requires
            old(self).extra_refs < u64::MAX,
        ensures
            final(self).sender == old(self).sender,
            final(self).extra_refs == old(self).extra_refs + 1,
    {
        self.extra_refs = self.extra_refs + 1;
    }

    /// What the script sees of a host send: success stays success, and any
    /// host-side failure collapses into one generic channel error, on
    /// purpose hiding the host's cause from script code.
    pub fn interpret_send(&self, delivered: bool) -> (r: Result<(), BridgeError>)
        ensures
            delivered ==> r is Ok,
            !delivered ==> (r matches Err(e)
                && e matches BridgeError::ChannelError { detail }
                && detail@ == "Unable to send data"@),
    {
        if delivered {
            Ok(())
        } else {
            Err(BridgeError::ChannelError { detail: String::from_str("Unable to send data") })
        }
    }
}

/// The script-facing wrapper around one host input port, with the same
/// reference accounting as `DataSender`.
pub struct DataReceiver {
    pub receiver: PortHandle,
    pub extra_refs: u64,
}

impl DataReceiver {
    /// Wraps an input port; the wrapper starts as the sole owner.
    pub fn from_input(port: PortHandle) -> (r: DataReceiver)
        ensures
            r.receiver == port,
            r.extra_refs == 0,
    {
        DataReceiver { receiver: port, extra_refs: 0 }
    }

    /// Records one more script-visible reference to the port.
    pub fn share(&mut self)
        requires
            old(self).extra_refs < u64::MAX,
        ensures
            final(self).receiver == old(self).receiver,
            final(self).extra_refs == old(self).extra_refs + 1,
    {
        self.extra_refs = self.extra_refs + 1;
    }

    /// What the script sees of a host receive: a failed receive is one
    /// generic channel error; a received message is converted to the
    /// script-facing form, so a control message still ends in a conversion
    /// error rather than a crash.
    pub fn interpret_recv(&self, received: Option<Message>) -> (r: Result<
        DataMessage,
        BridgeError,
    >)
        ensures
            received is None ==> (r matches Err(e)
                && e matches BridgeError::ChannelError { detail }
                && detail@ == "Unable to receive data"@),
            received matches Some(m) ==> {
                &&& (m matches Message::Data { payload, timestamp } ==> (r matches Ok(d)
                    && d.data@ == payload@
                    && d.ts == timestamp
                    && !d.is_watermark))
                &&& (m matches Message::Watermark { timestamp } ==> (r matches Ok(d)
                    && d.data@ == seq![0u8]
                    && d.ts == timestamp
                    && d.is_watermark))
                &&& (m is Control ==> (r matches Err(e)
                    && e matches BridgeError::ConversionError { detail }
                    && detail@ == "Cannot convert ControlMessage to DataMessage"@))
            },
    {
        match received {
            None => Err(BridgeError::ChannelError {
                detail: String::from_str("Unable to receive data"),
            }),
            Some(m) => DataMessage::try_from(m),
        }
    }

    /// Reclaims the bare input port from the wrapper, to hand the port to an
    /// alternate consumption mode. That needs sole ownership: with any other
    /// script-visible reference alive the reclamation is refused with a
    /// descriptive error instead of silently aliasing the port.
    pub fn try_into_input(self) -> (r: Result<PortHandle, BridgeError>)
        ensures
            self.extra_refs == 0 ==> (r matches Ok(p) && p == self.receiver),
            self.extra_refs != 0 ==> (r matches Err(e)
                && e matches BridgeError::ChannelError { detail }
                && detail@
                == "Cannot get Input from Python, maybe using a callback in the iteration function?"@),
    {
        if self.extra_refs == 0 {
            Ok(self.receiver)
        } else {
            Err(BridgeError::ChannelError {
                detail: String::from_str(
                    "Cannot get Input from Python, maybe using a callback in the iteration function?",
                ),
            })
        }
    }
}

} // verus!
