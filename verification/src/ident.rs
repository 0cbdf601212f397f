//! Identifiers of items and sounds. An identifier is a UUID, held as the
//! number of 128 bits that it is; in a document it stands as text.

use vstd::prelude::*;
use uuid::Uuid;
use crate::error::DecodeError;
use crate::json::{Json, JsonView};

verus! {

/// The identifier of an item or of a sound: the 128 bits of its UUID, the
/// first byte of the UUID being the highest.
pub type Id = u128;

/// The identifier that `Uuid::parse_str` reads from a text, if it reads one.
pub uninterp spec fn parsed_uuid(text: Seq<char>) -> Option<Id>;

/// The hyphenated lower-case text that the `uuid` crate renders an
/// identifier as.
pub uninterp spec fn uuid_text(id: Id) -> Seq<char>;

/// Reads an identifier with `Uuid::parse_str`, which accepts the simple, the
/// hyphenated, the URN and the braced form, and hands back its 128 bits
/// (`Uuid::as_u128`). The result is a function of the text alone; which
/// texts are accepted is left to the `uuid` crate.
#[verifier::external_body]
pub(crate) fn parse_uuid(text: &str) -> (r: Option<Id>)
    ensures
        r == parsed_uuid(text@),
{
    match Uuid::parse_str(text) {
        Ok(id) => Some(id.as_u128()),
        Err(_) => None,
    }
}

/// Renders an identifier through `Uuid::from_u128`, `Uuid::hyphenated` and
/// the `Display` of the latter. The result is a function of the identifier
/// alone, and `Uuid::parse_str` reads the same identifier back from it, as the
/// crate documents of every form that it writes.
#[verifier::external_body]
pub(crate) fn format_uuid(id: Id) -> (r: String)
    ensures
        r@ == uuid_text(id),
        parsed_uuid(r@) == Some(id),
{
    Uuid::from_u128(id).hyphenated().to_string()
}

/// The identifier that a document denotes: a text that reads as one.
pub open spec fn decoded_id(doc: JsonView) -> Result<Id, DecodeError> {
    match doc {
        JsonView::Text(text) => match parsed_uuid(text) {
            Some(id) => Ok(id),
            None => Err(DecodeError::InvalidUuid),
        },
        _ => Err(DecodeError::WrongType),
    }
}

/// The document that stands for an identifier.
pub open spec fn id_document(id: Id) -> JsonView {
    JsonView::Text(uuid_text(id))
}

/// What the reading of a text comes to in a decode: the identifier that was
/// read, or the fault that the text denotes none.
pub fn id_of_parsed(parsed: Option<Id>) -> (r: Result<Id, DecodeError>)
    ensures
        r == (match parsed {
            Some(id) => Ok::<Id, DecodeError>(id),
            None => Err(DecodeError::InvalidUuid),
        }),
{
    match parsed {
        Some(id) => Ok(id),
        None => Err(DecodeError::InvalidUuid),
    }
}

/// Reads an identifier from a document: the document must be a text, and the
/// text must read as an identifier.
pub fn decode_id(doc: &Json) -> (r: Result<Id, DecodeError>)
    ensures
        r == decoded_id(doc@),
{
    match doc.text() {
        Ok(text) => id_of_parsed(parse_uuid(text.as_str())),
        Err(e) => Err(e),
    }
}

/// Writes an identifier as a document, from which `decode_id` reads it back.
pub fn encode_id(id: Id) -> (r: Json)
    ensures
        r@ == id_document(id),
        decoded_id(r@) == Ok::<Id, DecodeError>(id),
{
    Json::Text(format_uuid(id))
}

} // verus!
