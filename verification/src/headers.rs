//! HTTP header values, as the `http` crate (reached through `axum`) accepts and shows them.
use axum::http::HeaderValue;
use vstd::prelude::*;
use vstd::utf8::encode_utf8;

verus! {

/// The bytes that a header value may show as text: visible ASCII, the space and the tab.
pub open spec fn is_visible_byte(byte: u8) -> bool {
    32 <= byte < 127 || byte == 9
}

/// The bytes that a header value may hold.
pub open spec fn is_header_byte(byte: u8) -> bool {
    (32 <= byte && byte != 127) || byte == 9
}

/// Whether a header value shows as text.
pub open spec fn is_visible(value: Seq<u8>) -> bool {
    forall|i: int| 0 <= i < value.len() ==> is_visible_byte(#[trigger] value[i])
}

/// Whether a text can stand as a header value.
pub open spec fn is_header_text(text: Seq<char>) -> bool {
    forall|i: int|
        0 <= i < encode_utf8(text).len() ==> is_header_byte(#[trigger] encode_utf8(text)[i])
}

/// `HeaderValue::to_str`, on the header value of these bytes: a text where every byte is
/// visible ASCII or a tab, and then the text of just these bytes. Bytes that
/// `HeaderValue::from_bytes` refuses show as no text either.
#[verifier::external_body]
pub(crate) fn header_text(value: &[u8]) -> (r: Option<String>)
    ensures
        r is Some == is_visible(value@),
        r matches Some(text) ==> encode_utf8(text@) == value@,
{
    let header = HeaderValue::from_bytes(value).ok()?;
    header.to_str().ok().map(str::to_owned)
}

/// `HeaderValue::from_str`: whether the text can stand as a header value.
#[verifier::external_body]
pub(crate) fn header_accepts(text: &str) -> (r: bool)
    ensures
        r == is_header_text(text@),
{
    HeaderValue::from_str(text).is_ok()
}

} // verus!
