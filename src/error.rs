use vstd::prelude::*;

verus! {

/// The kinds of failure a lifecycle operation can surface.
#[derive(Debug, Clone, Copy, PartialEq, Eq, Structural)]
pub enum ErrorKind {
    NotFound,
    FailedPrecondition,
    Unimplemented,
    Runtime,
    Io,
    Protocol,
    SpawnFailed,
    AlreadyExists,
    InvalidArgument,
    Other,
}

/// An error with its kind and a human readable message.
#[derive(Debug, Clone)]
pub struct ShimError {
    pub kind: ErrorKind,
    pub message: String,
}

impl ShimError {
    pub fn new(kind: ErrorKind, message: &str) -> (r: ShimError)
        ensures
            r.kind == kind,
            r.message@ == message@,
    {
        ShimError { kind, message: message.to_owned() }
    }

    /// A copy with the same kind and message.
    pub fn clone_error(&self) -> (r: ShimError)
        ensures
            r.kind == self.kind,
            r.message@ == self.message@,
    {
        ShimError { kind: self.kind, message: self.message.clone() }
    }

    /// The message, for display.
    pub fn to_string(&self) -> (r: String)
        ensures
            r@ == self.message@,
    {
        self.message.clone()
    }
}

} // verus!
