//! Why a document was turned down, and why a catalog operation failed.

use vstd::prelude::*;

verus! {

/// Why a JSON document does not have the shape that was asked of it.
#[derive(Clone, Copy, Debug, PartialEq, Eq, Structural)]
pub enum DecodeError {
    /// The bytes that arrived were no JSON document at all.
    Syntax,
    /// A document or member has another JSON type than the shape names.
    WrongType,
    /// An object lacks a member that the shape requires.
    MissingField,
    /// A text that should denote an identifier denotes none.
    InvalidUuid,
    /// An integer lies outside the range of its field.
    OutOfRange,
    /// The tag of a message names no known kind of message.
    UnknownVariant,
}

/// Why an operation on the remote catalog failed.
#[derive(Clone, Copy, Debug, PartialEq, Eq, Structural)]
pub enum FetchError {
    /// The exchange itself failed: no connection, no answer.
    Transport,
    /// An answer came, and its body has not the expected shape.
    Decode(DecodeError),
}

} // verus!
