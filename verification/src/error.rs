//! The failures of a hash request.

use vstd::prelude::*;
use vstd::string::*;

verus! {

/// What the operating system reported when opening, measuring or reading a
/// file failed, reduced to the distinctions that a hash request draws.
#[derive(Clone, Copy, Debug, PartialEq, Eq, Structural)]
pub enum IoFault {
    /// The path does not lead to a file that can be opened.
    NotFound,
    /// The file exists but may not be read.
    PermissionDenied,
    /// The file ended before the declared number of bytes was read.
    UnexpectedEof,
    /// Anything else.
    Other,
}

/// Why a hash request failed.
#[derive(Clone, Copy, Debug, PartialEq, Eq, Structural)]
pub enum ErrorKind {
    /// The path does not resolve to an openable file.
    NotFound,
    /// The file exists but cannot be read.
    PermissionDenied,
    /// The bytes read are not as many as the file system declared.
    Truncated,
    /// Any other I/O failure.
    Other,
}

/// A failed hash request: its kind and the underlying message.
#[derive(Clone, Debug, PartialEq, Eq)]
pub struct HashError {
    pub kind: ErrorKind,
    pub message: String,
}

/// The kind of hash failure that an I/O fault amounts to.
pub open spec fn kind_of_fault(fault: IoFault) -> ErrorKind {
    match fault {
        IoFault::NotFound => ErrorKind::NotFound,
        IoFault::PermissionDenied => ErrorKind::PermissionDenied,
        IoFault::UnexpectedEof => ErrorKind::Truncated,
        IoFault::Other => ErrorKind::Other,
    }
}

/// The words that open a diagnostic of the given kind.
pub open spec fn kind_label(kind: ErrorKind) -> Seq<char> {
    match kind {
        ErrorKind::NotFound => "file not found"@,
        ErrorKind::PermissionDenied => "permission denied"@,
        ErrorKind::Truncated => "file shorter than declared"@,
        ErrorKind::Other => "I/O error"@,
    }
}

/// The message of a failure that the library itself detects: fewer or more
/// bytes at hand than the file system declared.
pub open spec fn length_mismatch_message() -> Seq<char> {
    "failed to fill whole buffer"@
}

impl ErrorKind {
    /// The words that open a diagnostic of this kind.
    pub fn label(&self) -> (s: &'static str)
        ensures
            s@ == kind_label(*self),
    {
        match self {
            ErrorKind::NotFound => "file not found",
            ErrorKind::PermissionDenied => "permission denied",
            ErrorKind::Truncated => "file shorter than declared",
            ErrorKind::Other => "I/O error",
        }
    }
}

impl HashError {
    /// The one-line diagnostic: the kind's label, a colon and a space, then
    /// the underlying message.
    pub open spec fn diagnostic(&self) -> Seq<char> {
        kind_label(self.kind) + ": "@ + self.message@
    }

    /// The failure that an I/O fault amounts to, with the fault's own
    /// message kept as it is.
    pub fn from_io(fault: IoFault, message: String) -> (e: HashError)
        ensures
            e.kind == kind_of_fault(fault),
            e.message == message,
    {
        let kind = match fault {
            IoFault::NotFound => ErrorKind::NotFound,
            IoFault::PermissionDenied => ErrorKind::PermissionDenied,
            IoFault::UnexpectedEof => ErrorKind::Truncated,
            IoFault::Other => ErrorKind::Other,
        };
        HashError { kind, message }
    }

    /// The failure of a read that did not deliver the declared length.
    pub fn length_mismatch() -> (e: HashError)
        ensures
            e.kind == ErrorKind::Truncated,
            e.message@ == length_mismatch_message(),
    {
        HashError {
            kind: ErrorKind::Truncated,
            message: String::from_str("failed to fill whole buffer"),
        }
    }

    /// Renders the one-line diagnostic.
    pub fn describe(&self) -> (s: String)
        ensures
            s@ == self.diagnostic(),
    {
        let mut s = String::from_str(self.kind.label());
        s.append(": ");
        s.append(self.message.as_str());
        s
    }
}

} // verus!
