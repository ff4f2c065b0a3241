//! What a caller hands to the constructor as the body of a response.

use vstd::prelude::*;
use vstd::utf8::*;

verus! {

/// The content type under which a payload is encoded as JSON.
pub const JSON_CONTENT_TYPE: &'static str = "application/json";

/// The content type of a response that is built without naming one.
pub const DEFAULT_CONTENT_TYPE: &'static str = JSON_CONTENT_TYPE;

/// The JSON encoder could not express the payload.
#[derive(Debug, PartialEq, Eq)]
pub struct SerializationError {
    /// What the encoder said of the failure.
    pub message: String,
}

/// A payload: either bytes that are already encoded, or any other value,
/// given by what the JSON encoder and its textual form make of it.
#[derive(Debug, PartialEq, Eq)]
pub enum Payload {
    /// A raw byte sequence.
    Raw(Vec<u8>),
    /// A value that is not a byte sequence.
    Value {
        /// The value's JSON encoding, or why it has none.
        json: Result<Vec<u8>, SerializationError>,
        /// The value's default textual representation.
        text: String,
    },
}

/// The body that a payload resolves to under a content type, first match
/// wins: raw bytes are taken as they are; else, under the JSON content type,
/// the body is the JSON encoding, and there is none if the encoder failed;
/// else the body is the textual representation in UTF-8.
pub open spec fn resolve_body(payload: Payload, content_type: Seq<char>) -> Result<
    Seq<u8>,
    SerializationError,
> {
    match payload {
        Payload::Raw(bytes) => Ok(bytes@),
        Payload::Value { json, text } => if content_type == JSON_CONTENT_TYPE@ {
            match json {
                Ok(encoded) => Ok(encoded@),
                Err(error) => Err(error),
            }
        } else {
            Ok(encode_utf8(text@))
        },
    }
}

} // verus!
