//! The permanent redirect: a response that sends the client to another
//! place.

use crate::headers::Headers;
use crate::response::{Response, ResponseView, CONTENT_TYPE};
use crate::status::Status;
use hyper::body::Bytes;
use vstd::prelude::*;

verus! {

/// The name of the header that carries the place to go to.
pub const LOCATION: &'static str = "Location";

/// The content type of a redirect.
pub const HTML_CONTENT_TYPE: &'static str = "text/html";

/// The tag of a response that is a permanent redirect. It comes with the
/// response that it tags, which is a response like any other.
#[derive(Clone, Copy, Debug, PartialEq, Eq)]
pub struct Redirect;

/// The headers of a redirect to a place: the HTML content type and the
/// place, and nothing else.
pub open spec fn redirect_headers(location: Seq<char>) -> Map<Seq<char>, Seq<char>> {
    Map::<Seq<char>, Seq<char>>::empty().insert(CONTENT_TYPE@, HTML_CONTENT_TYPE@).insert(
        LOCATION@,
        location,
    )
}

/// The headers of a redirect have two entries, one for the content type and
/// one for the place.
pub proof fn lemma_redirect_headers(location: Seq<char>)
    ensures
        redirect_headers(location).dom() =~= set![CONTENT_TYPE@, LOCATION@],
        CONTENT_TYPE@ != LOCATION@,
        redirect_headers(location)[CONTENT_TYPE@] == HTML_CONTENT_TYPE@,
        redirect_headers(location)[LOCATION@] == location,
{
    reveal_strlit("Content-Type");
    reveal_strlit("Location");
    assert(CONTENT_TYPE@.len() != LOCATION@.len());
}

impl Redirect {
    /// A permanent redirect to the place: the tag, and the response with
    /// status 301, the headers of a redirect and an empty body.
    pub fn new(location: String) -> (made: (Redirect, Response))
        ensures
            made.1@ == (ResponseView {
                status: Status::MovedPermanently,
                body: Seq::<u8>::empty(),
                headers: redirect_headers(location@),
            }),
    {
        let mut headers = Headers::new();
        headers.insert(CONTENT_TYPE.to_owned(), HTML_CONTENT_TYPE.to_owned());
        headers.insert(LOCATION.to_owned(), location);
        (Redirect, Response { status: Status::MovedPermanently, body: Bytes::new(), headers })
    }
}

} // verus!
