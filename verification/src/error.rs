//! Exceptions that host code raises into a running script, and failures of
//! environment setup.

use vstd::prelude::*;

verus! {

/// The kind of exception a script sees.
#[derive(Clone, Copy, Debug, PartialEq, Eq, Structural)]
pub enum ExceptionKind {
    /// A value of the wrong kind: a failed downcast, a non-array where an
    /// array is expected.
    TypeError,
    /// A number outside the accepted domain.
    RangeError,
}

/// An exception on its way to the script: its kind and its message.
#[derive(Debug, PartialEq, Eq)]
pub struct ScriptException {
    pub kind: ExceptionKind,
    pub message: String,
}

/// The mathematical content of a [`ScriptException`].
pub ghost struct ExceptionView {
    pub kind: ExceptionKind,
    pub message: Seq<char>,
}

impl View for ScriptException {
    type V = ExceptionView;

    open spec fn view(&self) -> ExceptionView {
        ExceptionView { kind: self.kind, message: self.message@ }
    }
}

impl Clone for ScriptException {
    fn clone(&self) -> (copy: ScriptException)
        ensures
            copy@ == self@,
    {
        ScriptException { kind: self.kind, message: self.message.clone() }
    }
}

impl ScriptException {
    /// A `TypeError` with the given message.
    pub fn type_error(message: String) -> (e: ScriptException)
        ensures
            e@ == (ExceptionView { kind: ExceptionKind::TypeError, message: message@ }),
    {
        ScriptException { kind: ExceptionKind::TypeError, message }
    }

    /// A `RangeError` with the given message.
    pub fn range_error(message: String) -> (e: ScriptException)
        ensures
            e@ == (ExceptionView { kind: ExceptionKind::RangeError, message: message@ }),
    {
        ScriptException { kind: ExceptionKind::RangeError, message }
    }
}

} // verus!
