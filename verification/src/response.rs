//! The response itself: how its body is resolved from a payload, and how it
//! is changed and read afterwards.

use crate::body::bytes_of;
use crate::headers::Headers;
use crate::payload::{resolve_body, Payload, SerializationError, JSON_CONTENT_TYPE};
use crate::status::Status;
use hyper::body::Bytes;
use vstd::prelude::*;
use vstd::utf8::*;

verus! {

/// The name of the header that carries the content type.
pub const CONTENT_TYPE: &'static str = "Content-Type";

/// The name of the header that carries a session cookie.
pub const SET_COOKIE: &'static str = "Set-Cookie";

/// The body of a response is not valid UTF-8, so it has no text.
#[derive(Clone, Copy, Debug, PartialEq, Eq)]
pub struct DecodeError;

/// The text of a body: its bytes decoded as UTF-8, where they are valid
/// UTF-8.
pub open spec fn decode_body(body: Seq<u8>) -> Result<Seq<char>, DecodeError> {
    if valid_utf8(body) {
        Ok(decode_utf8(body))
    } else {
        Err(DecodeError)
    }
}

/// What a response is: its status, the bytes of its body and its headers.
pub struct ResponseView {
    pub status: Status,
    pub body: Seq<u8>,
    pub headers: Map<Seq<char>, Seq<char>>,
}

/// An HTTP response before it is put on the wire.
#[derive(Debug)]
pub struct Response {
    pub status: Status,
    pub body: Bytes,
    pub headers: Headers,
}

/// What construction gives for a status, a payload and a content type: the
/// response with that status, the body that the payload resolves to and the
/// content type as its one header; or the encoder's error, where the payload
/// resolves to no body.
pub open spec fn construct(status: Status, body: Payload, content_type: Seq<char>) -> Result<
    ResponseView,
    SerializationError,
> {
    match resolve_body(body, content_type) {
        Ok(bytes) => Ok(
            ResponseView {
                status,
                body: bytes,
                headers: Map::<Seq<char>, Seq<char>>::empty().insert(CONTENT_TYPE@, content_type),
            },
        ),
        Err(error) => Err(error),
    }
}

impl View for Response {
    type V = ResponseView;

    open spec fn view(&self) -> ResponseView {
        ResponseView { status: self.status, body: bytes_of(self.body), headers: self.headers@ }
    }
}

impl Clone for Response {
    /// A copy with the same status, body and headers.
    fn clone(&self) -> (copy: Self)
        ensures
            copy@ == self@,
    {
        Response {
            status: self.status,
            body: self.body.clone(),
            headers: self.headers.clone(),
        }
    }
}

impl Response {
    /// Builds a response from a status, a payload and a content type. The
    /// body is what the payload resolves to under the content type, and the
    /// content type is the one header. Construction fails only where the
    /// body would be the payload's JSON encoding and the payload has none.
    pub fn new(status: Status, body: Payload, content_type: String) -> (result: Result<
        Response,
        SerializationError,
    >)
        ensures
            match result {
                Ok(response) => construct(status, body, content_type@) == Ok::<
                    ResponseView,
                    SerializationError,
                >(response@),
                Err(error) => construct(status, body, content_type@) == Err::<
                    ResponseView,
                    SerializationError,
                >(error),
            },
    {
        let body = match body {
            Payload::Raw(bytes) => Bytes::from(bytes),
            Payload::Value { json, text } => {
                if content_type == JSON_CONTENT_TYPE.to_owned() {
                    match json {
                        Ok(encoded) => Bytes::from(encoded),
                        Err(error) => {
                            return Err(error);
                        },
                    }
                } else {
                    Bytes::from(text)
                }
            },
        };
        let mut headers = Headers::new();
        headers.insert(CONTENT_TYPE.to_owned(), content_type);
        Ok(Response { status, body, headers })
    }

    /// The body as text: its bytes decoded as UTF-8, or an error where they
    /// are not valid UTF-8.
    pub fn body(&self) -> (text: Result<String, DecodeError>)
        ensures
            match text {
                Ok(s) => decode_body(self@.body) == Ok::<Seq<char>, DecodeError>(s@),
                Err(error) => decode_body(self@.body) == Err::<Seq<char>, DecodeError>(error),
            },
    {
        broadcast use encode_utf8_decode_utf8;

        match core::str::from_utf8(self.body.as_ref()) {
            Ok(s) => Ok(s.to_owned()),
            Err(_) => Err(DecodeError),
        }
    }

    /// Writes a header into this response, in place of any value that the
    /// name had, and returns a copy of the response as it then is.
    pub fn header(&mut self, key: String, value: String) -> (copy: Response)
        ensures
            final(self)@ == (ResponseView {
                headers: old(self)@.headers.insert(key@, value@),
                ..old(self)@
            }),
            final(self)@.headers.contains_key(key@),
            final(self)@.headers[key@] == value@,
            copy@ == final(self)@,
    {
        self.headers.insert(key, value);
        self.clone()
    }

    /// Sets the status of this response, and returns a copy of the response
    /// as it then is.
    pub fn status(&mut self, status: Status) -> (copy: Response)
        ensures
            final(self)@ == (ResponseView { status: status, ..old(self)@ }),
            copy@ == final(self)@,
    {
        self.status = status;
        self.clone()
    }

    /// The response with the text, in UTF-8, as its body.
    pub fn set_body(self, body: String) -> (changed: Response)
        ensures
            changed@ == (ResponseView { body: encode_utf8(body@), ..self@ }),
    {
        let mut changed = self;
        changed.body = Bytes::from(body);
        changed
    }

    /// Writes the cookie header that the session store made for a session
    /// under `Set-Cookie`, in place of any value that was there.
    pub fn set_session_cookie(&mut self, cookie_header: String)
        ensures
            final(self)@ == (ResponseView {
                headers: old(self)@.headers.insert(SET_COOKIE@, cookie_header@),
                ..old(self)@
            }),
            final(self)@.headers.contains_key(SET_COOKIE@),
            final(self)@.headers[SET_COOKIE@] == cookie_header@,
    {
        self.headers.insert(SET_COOKIE.to_owned(), cookie_header);
    }
}

/// A payload of raw bytes always gives a response: its body is those bytes,
/// untouched, and its one header is the content type, whatever that is.
pub proof fn lemma_raw_payload_verbatim(status: Status, bytes: Vec<u8>, content_type: Seq<char>)
    ensures
        construct(status, Payload::Raw(bytes), content_type) == Ok::<
            ResponseView,
            SerializationError,
        >(
            ResponseView {
                status,
                body: bytes@,
                headers: Map::<Seq<char>, Seq<char>>::empty().insert(CONTENT_TYPE@, content_type),
            },
        ),
        construct(status, Payload::Raw(bytes), content_type).unwrap().headers.dom() =~= set![
            CONTENT_TYPE@,
        ],
        construct(status, Payload::Raw(bytes), content_type).unwrap().headers[CONTENT_TYPE@]
            == content_type,
{
}

/// Under the JSON content type, a value that the encoder could express gives
/// a response whose body is the value's JSON encoding.
pub proof fn lemma_json_payload_encoded(status: Status, encoded: Vec<u8>, text: String)
    ensures
        construct(status, Payload::Value { json: Ok(encoded), text }, JSON_CONTENT_TYPE@) matches Ok(
            response,
        ) && response.body == encoded@ && response.status == status
            && response.headers[CONTENT_TYPE@] == JSON_CONTENT_TYPE@,
{
}

/// Under the JSON content type, a value that the encoder could not express
/// gives no response, but the encoder's error.
pub proof fn lemma_json_payload_rejected(status: Status, error: SerializationError, text: String)
    ensures
        construct(status, Payload::Value { json: Err(error), text }, JSON_CONTENT_TYPE@) == Err::<
            ResponseView,
            SerializationError,
        >(error),
{
}

/// Under any other content type, a value that is not raw bytes gives a
/// response whose body is the value's text in UTF-8, whether or not the
/// encoder could express the value; and the text can be read back from it.
pub proof fn lemma_text_payload_stringified(
    status: Status,
    json: Result<Vec<u8>, SerializationError>,
    text: String,
    content_type: Seq<char>,
)
    requires
        content_type != JSON_CONTENT_TYPE@,
    ensures
        construct(status, Payload::Value { json, text }, content_type) matches Ok(response)
            && response.body == encode_utf8(text@) && decode_body(response.body) == Ok::<
            Seq<char>,
            DecodeError,
        >(text@),
{
    lemma_text_round_trip(text@);
}

/// Construction fails on one kind of input only: under the JSON content
/// type, on a value that is not raw bytes and that the encoder could not
/// express.
pub proof fn lemma_construction_failure(status: Status, body: Payload, content_type: Seq<char>)
    ensures
        construct(status, body, content_type) is Err <==> content_type == JSON_CONTENT_TYPE@
            && body matches Payload::Value { json: Err(_), .. },
{
}

/// The text of a response made from raw bytes: where the bytes are valid
/// UTF-8, it is the string that they encode, and no other; where they are
/// not, reading it fails.
pub proof fn lemma_raw_body_text(status: Status, bytes: Vec<u8>, content_type: Seq<char>)
    ensures
        construct(status, Payload::Raw(bytes), content_type) matches Ok(response) && (if valid_utf8(
            bytes@,
        ) {
            decode_body(response.body) matches Ok(text) && text == decode_utf8(bytes@)
                && encode_utf8(text) == bytes@
        } else {
            decode_body(response.body) == Err::<Seq<char>, DecodeError>(DecodeError)
        }),
{
    if valid_utf8(bytes@) {
        decode_utf8_encode_utf8(bytes@);
    }
}

/// A body that was made from a text reads back as that text.
pub proof fn lemma_text_round_trip(text: Seq<char>)
    ensures
        decode_body(encode_utf8(text)) == Ok::<Seq<char>, DecodeError>(text),
{
    encode_utf8_valid_utf8(text);
    encode_utf8_decode_utf8(text);
}

} // verus!
