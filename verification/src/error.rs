//! The failures of this layer.

use vstd::prelude::*;

verus! {

/// Failures this layer hands back to its caller. Nothing here is fatal: every
/// failed native call or rejected input becomes one of these values.
#[derive(Debug, Clone, PartialEq, Eq)]
pub enum Error {
    /// A string that came from the native side is not valid UTF-8.
    String,
    /// A host string bound for the native side holds a NUL byte; the payload
    /// is the offset of the first one in the string's UTF-8 encoding.
    CString(usize),
    /// A structured value has a shape the native data object cannot take.
    Json,
    /// The native engine answered with this status code.
    Code(i32),
    /// A native call that should yield an object yielded none; the payload
    /// names the operation.
    NulPointer(&'static str),
    /// No module of this name was present once loading had finished.
    ModuleNotFound(String),
    /// The operation is not legal in the state the engine is in.
    WrongState,
}

} // verus!
