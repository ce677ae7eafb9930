//! How an attempt to open a browser fails.

use vstd::prelude::*;
use vstd::string::StringExecFns;

verus! {

/// The class of a failure.
#[derive(Clone, Copy, Debug, PartialEq, Eq, Hash, Structural)]
pub enum ErrorKind {
    /// Nothing usable could be located or started.
    NotFound,
    /// The target is malformed, or of a scheme that is not allowed.
    InvalidInput,
    /// The platform refused to start the browser.
    PermissionDenied,
    /// The browser was started and failed, or the platform gave no clear reason.
    Other,
}

/// A failure: its class and a short description.
#[derive(Clone, Copy, Debug)]
pub struct Error {
    pub kind: ErrorKind,
    pub message: &'static str,
}

impl Error {
    pub fn new(kind: ErrorKind, message: &'static str) -> (r: Error)
        ensures
            r == (Error { kind, message }),
    {
        Error { kind, message }
    }

    /// The class of this failure.
    pub fn kind(&self) -> (r: ErrorKind)
        ensures
            r == self.kind,
    {
        self.kind
    }

    /// The description of this failure.
    pub fn to_string(&self) -> (r: String)
        ensures
            r@ == self.message@,
    {
        String::from_str(self.message)
    }
}

/// A failure of class `NotFound`.
pub open spec fn not_found(message: &'static str) -> Error {
    Error { kind: ErrorKind::NotFound, message }
}

/// A failure of class `Other`.
pub open spec fn other(message: &'static str) -> Error {
    Error { kind: ErrorKind::Other, message }
}

/// A failure of class `InvalidInput`.
pub open spec fn invalid_input(message: &'static str) -> Error {
    Error { kind: ErrorKind::InvalidInput, message }
}

} // verus!
