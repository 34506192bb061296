//! A verified model of an embedded-interpreter node bridge: the logic that
//! lets a dataflow host run a node whose behaviour lives in a scripting
//! runtime. The marshalling of configuration trees and messages, the
//! translation of interpreter errors, and the node lifecycle decisions are
//! verified here; the host engine and the interpreter calls themselves live
//! outside the library.
pub mod channel;
pub mod config;
pub mod error;
pub mod gil;
pub mod lifecycle;
pub mod loader;
pub mod marshal;
pub mod message;
pub mod script;
