use vstd::prelude::*;

verus! {

/// What went wrong in a command. Every failure ends the current command.
#[derive(Debug, Clone, PartialEq, Eq)]
pub enum ErrorKind {
    /// The persistent store could not be opened or written.
    StoreAccess { message: String },
    /// The stored API key is not a string.
    TypeMismatch,
    /// A stored record does not have the expected shape.
    ParseError,
    /// No sender identity carries the given id.
    NotFound { id: String },
    /// No API key is configured.
    Unconfigured,
    /// The content of the named attachment is not valid base64.
    AttachmentDecode { filename: String },
    /// The provider refused or failed to deliver the message.
    Delivery { message: String },
}

} // verus!
