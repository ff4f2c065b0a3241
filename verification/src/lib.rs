//! In-memory HTTP responses: a status, a byte body and a header map, built
//! from a payload and a content type and handed on to a transport layer.

pub mod body;
pub mod headers;
pub mod payload;
pub mod redirect;
pub mod response;
pub mod status;

pub use headers::Headers;
pub use payload::{Payload, SerializationError, DEFAULT_CONTENT_TYPE, JSON_CONTENT_TYPE};
pub use redirect::{Redirect, HTML_CONTENT_TYPE, LOCATION};
pub use response::{DecodeError, Response, CONTENT_TYPE, SET_COOKIE};
pub use status::Status;
