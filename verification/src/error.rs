//! Error taxonomy of the filesystem primitives.
//!
//! The read and write primitives surface failures to scripts as thrown
//! exceptions whose message carries a category and the operating system's own
//! text. The categories are the closed set below; the remaining primitives
//! swallow their errors and report nothing.

use vstd::prelude::*;
use vstd::string::StringExecFns;

verus! {

/// Category of a failure surfaced by a read or write primitive.
#[derive(Clone, Copy, Debug, PartialEq, Eq, Structural)]
pub enum ErrKind {
    /// The path does not exist.
    NotFound,
    /// The caller may not access the path.
    PermissionDenied,
    /// The bytes read are not valid UTF-8 text.
    InvalidUtf8,
    /// The file ended before the requested number of bytes was read.
    UnexpectedEof,
    /// Any other operating-system failure.
    Other,
}

/// The label under which a category appears in a thrown message.
pub open spec fn spec_err_label(kind: ErrKind) -> Seq<char> {
    match kind {
        ErrKind::NotFound => "NotFound"@,
        ErrKind::PermissionDenied => "PermissionDenied"@,
        ErrKind::InvalidUtf8 => "InvalidUtf8"@,
        ErrKind::UnexpectedEof => "UnexpectedEof"@,
        ErrKind::Other => "Other"@,
    }
}

/// Map an error category to its label.
pub fn err_label(kind: ErrKind) -> (label: String)
    ensures
        label@ == spec_err_label(kind),
{
    match kind {
        ErrKind::NotFound => String::from_str("NotFound"),
        ErrKind::PermissionDenied => String::from_str("PermissionDenied"),
        ErrKind::InvalidUtf8 => String::from_str("InvalidUtf8"),
        ErrKind::UnexpectedEof => String::from_str("UnexpectedEof"),
        ErrKind::Other => String::from_str("Other"),
    }
}

/// A failure of a read or write primitive: a category plus the operating
/// system's message text.
pub struct IonError {
    /// The category of the failure.
    pub kind: ErrKind,
    /// The operating system's own description of the failure.
    pub os_text: String,
}

/// The message of the exception thrown for an error: the category's label,
/// a separating `": "`, and the operating system's text.
pub open spec fn spec_thrown_message(err: IonError) -> Seq<char> {
    spec_err_label(err.kind) + ": "@ + err.os_text@
}

impl IonError {
    /// Build an error from its category and the operating system's text.
    pub fn new(kind: ErrKind, os_text: String) -> (err: IonError)
        ensures
            err.kind == kind,
            err.os_text@ == os_text@,
    {
        IonError { kind, os_text }
    }

    /// The message carried by the exception thrown to the script.
    pub fn thrown_message(&self) -> (msg: String)
        ensures
            msg@ == spec_thrown_message(*self),
    {
        let mut msg = err_label(self.kind);
        msg.append(": ");
        msg.append(self.os_text.as_str());
        msg
    }
}

} // verus!
