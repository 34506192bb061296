//! The bridge's error taxonomy, and the translation of interpreter
//! exceptions into it.
use vstd::prelude::*;

verus! {

/// Every way the bridge can fail, as the host sees it.
///
/// `LoadError`: the interpreter's shared library could not be opened (fatal
/// at node construction). `ConfigurationError`: a required configuration
/// field is missing or malformed (fatal at `initialize`). `ConversionError`:
/// a value could not cross the language boundary. `ScriptExecutionError`: an
/// interpreter exception, with its formatted traceback. `ChannelError`: a
/// send or receive on a host port failed.
#[derive(Debug)]
pub enum BridgeError {
    LoadError { detail: String },
    ConfigurationError { detail: String },
    ConversionError { detail: String },
    ScriptExecutionError { message: String, traceback: String },
    ChannelError { detail: String },
}

/// An interpreter exception, carried as plain values: the exception's
/// string form, and its formatted traceback where one could be obtained.
/// Traceback formatting itself may fail inside the interpreter; that case
/// arrives here as an absent traceback, never as a crash.
pub struct ScriptException {
    pub message: String,
    pub traceback: Option<String>,
}

/// Translates an interpreter exception into the host's error taxonomy.
///
/// The exception's string form and its traceback are wrapped into a single
/// script-execution error; an absent traceback becomes the empty string
/// rather than a failure, so translation itself never fails.
pub fn from_pyerr_to_zferr(err: ScriptException) -> (r: BridgeError)
    ensures
        r matches BridgeError::ScriptExecutionError { message: m, traceback: t }
            && m@ == err.message@
            && (err.traceback matches Some(tb) ==> t@ == tb@)
            && (err.traceback is None ==> t@.len() == 0),
{
    let tb = match err.traceback {
        Some(tb) => tb,
        None => String::new(),
    };
    BridgeError::ScriptExecutionError { message: err.message, traceback: tb }
}

} // verus!
