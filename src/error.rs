use vstd::prelude::*;

verus! {

/// What went wrong, as a caller needs to tell it apart.
#[derive(Debug, Clone, Copy, PartialEq, Eq, Structural)]
#[non_exhaustive]
pub enum ErrorKind {
    /// The peer hung up, or the channel cannot be read any more.
    IpcConnectionError,
    /// A frame, or a received length prefix, breaks the size guard.
    ExceededIpcMaxSize,
    /// Bad input at construction or configuration.
    InvalidArgument,
    /// An internal invariant broke, or the OS failed unexpectedly.
    Bug,
}

/// The name of an error kind, as it crosses the C boundary.
pub open spec fn kind_name(kind: ErrorKind) -> Seq<char> {
    match kind {
        ErrorKind::IpcConnectionError => "IpcConnectionError"@,
        ErrorKind::ExceededIpcMaxSize => "ExceededIpcMaxSize"@,
        ErrorKind::InvalidArgument => "InvalidArgument"@,
        ErrorKind::Bug => "Bug"@,
    }
}

impl ErrorKind {
    /// The name of this kind (`"Bug"`, `"IpcConnectionError"`, ...).
    pub fn name(&self) -> (r: String)
        ensures
            r@ == kind_name(*self),
    {
        match self {
            ErrorKind::IpcConnectionError => String::from_str("IpcConnectionError"),
            ErrorKind::ExceededIpcMaxSize => String::from_str("ExceededIpcMaxSize"),
            ErrorKind::InvalidArgument => String::from_str("InvalidArgument"),
            ErrorKind::Bug => String::from_str("Bug"),
        }
    }
}

/// An error: a machine-readable kind and a human-readable message.
#[derive(Debug, PartialEq, Eq)]
#[non_exhaustive]
pub struct RabcError {
    kind: ErrorKind,
    msg: String,
}

impl View for RabcError {
    type V = (ErrorKind, Seq<char>);

    closed spec fn view(&self) -> (ErrorKind, Seq<char>) {
        (self.kind, self.msg@)
    }
}

impl RabcError {
    pub fn new(kind: ErrorKind, msg: String) -> (r: Self)
        ensures
            r@ == (kind, msg@),
    {
        Self { kind, msg }
    }

    pub fn kind(&self) -> (r: ErrorKind)
        ensures
            r == self@.0,
    {
        self.kind
    }

    pub fn msg(&self) -> (r: &str)
        ensures
            r@ == self@.1,
    {
        self.msg.as_str()
    }

    /// `"<kind>: <message>"`, the text form of the error.
    pub fn to_text(&self) -> (r: String)
        ensures
            r@ == kind_name(self@.0) + ": "@ + self@.1,
    {
        let head = self.kind.name().concat(": ");
        head.concat(self.msg.as_str())
    }
}

} // verus!
