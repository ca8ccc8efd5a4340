//! The raw body of a response: bytes as they arrive, and their reading as
//! text.

use bytes::Bytes;
use std::borrow::Cow;
use vstd::prelude::*;
use vstd::utf8::{decode_utf8, valid_utf8};

verus! {

/// `bytes::Bytes`: a shared, immutable run of bytes.
#[verifier::external_type_specification]
#[verifier::external_body]
pub struct ExBytes(Bytes);

/// The bytes that a `Bytes` holds, in order.
pub uninterp spec fn content_of(bytes: Bytes) -> Seq<u8>;

/// What `String::from_utf8_lossy` makes of a run of bytes: the text that they
/// encode as UTF-8, with U+FFFD in place of what is not UTF-8.
pub uninterp spec fn utf8_lossy(bytes: Seq<u8>) -> Seq<char>;

/// `Bytes::as_ref`: the bytes as a slice.
#[verifier::external_body]
pub(crate) fn content(bytes: &Bytes) -> (slice: &[u8])
    ensures
        slice@ == content_of(*bytes),
{
    bytes.as_ref()
}

/// `String::from_utf8_lossy`: the text of the bytes. Bytes that are UTF-8
/// throughout give the text that they encode, with nothing replaced.
pub assume_specification<'a>[ std::string::String::from_utf8_lossy ](bytes: &'a [u8]) -> (text:
    Cow<'a, str>)
    ensures
        text@ == utf8_lossy(bytes@),
        valid_utf8(bytes@) ==> text@ == decode_utf8(bytes@),
;

/// The bytes as text, in a string of its own.
pub(crate) fn lossy_text(bytes: &[u8]) -> (text: String)
    ensures
        text@ == utf8_lossy(bytes@),
        valid_utf8(bytes@) ==> text@ == decode_utf8(bytes@),
{
    match String::from_utf8_lossy(bytes) {
        Cow::Borrowed(text) => text.to_owned(),
        Cow::Owned(text) => text,
    }
}

} // verus!
