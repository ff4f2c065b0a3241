//! The byte body of a response: `hyper::body::Bytes`, and what is taken on
//! trust of the functions that make, copy and read one.

use vstd::prelude::*;
use vstd::utf8::*;

verus! {

/// `hyper::body::Bytes`, the cheaply cloneable byte buffer that hyper's
/// bodies are made of (the `Bytes` of the `bytes` crate). Its inside is not
/// visible to the verifier.
#[verifier::external_type_specification]
#[verifier::external_body]
pub struct ExBytes(hyper::body::Bytes);

/// `core::str::Utf8Error`, the error of `core::str::from_utf8`.
#[verifier::external_type_specification]
#[verifier::external_body]
pub struct ExUtf8Error(core::str::Utf8Error);

/// The bytes that a `Bytes` value holds, in order.
pub uninterp spec fn bytes_of(b: hyper::body::Bytes) -> Seq<u8>;

/// `Bytes::new` is taken to give a buffer that holds no bytes.
pub assume_specification[ hyper::body::Bytes::new ]() -> (b: hyper::body::Bytes)
    ensures
        bytes_of(b) == Seq::<u8>::empty(),
;

/// `Bytes::from(Vec<u8>)` is taken to give a buffer that holds the bytes of
/// the vector, in the vector's order.
pub assume_specification[ <hyper::body::Bytes as From<Vec<u8>>>::from ](v: Vec<u8>) -> (b:
    hyper::body::Bytes)
    ensures
        bytes_of(b) == v@,
;

/// `Bytes::from(String)` is taken to give a buffer that holds the bytes of
/// the string, which are its characters in UTF-8.
pub assume_specification[ <hyper::body::Bytes as From<String>>::from ](s: String) -> (b:
    hyper::body::Bytes)
    ensures
        bytes_of(b) == encode_utf8(s@),
;

/// `Bytes::clone` is taken to give a buffer that holds the same bytes.
pub assume_specification[ <hyper::body::Bytes as Clone>::clone ](b: &hyper::body::Bytes) -> (c:
    hyper::body::Bytes)
    ensures
        bytes_of(c) == bytes_of(*b),
;

/// `Bytes::as_ref` is taken to give the bytes that the buffer holds, as a
/// slice.
pub assume_specification<'a>[ <hyper::body::Bytes as AsRef<[u8]>>::as_ref ](
    b: &'a hyper::body::Bytes,
) -> (s: &'a [u8])
    ensures
        s@ == bytes_of(*b),
;

/// `core::str::from_utf8` is taken to succeed exactly on the byte slices that
/// are well-formed UTF-8, and then to give the string that has those bytes.
pub assume_specification<'a>[ core::str::from_utf8 ](v: &'a [u8]) -> (r: Result<
    &'a str,
    core::str::Utf8Error,
>)
    ensures
        match r {
            Ok(s) => valid_utf8(v@) && encode_utf8(s@) == v@,
            Err(_) => !valid_utf8(v@),
        },
;

} // verus!
