use base64::Engine;
use vstd::prelude::*;
use vstd::utf8::{decode_utf8, encode_utf8, valid_utf8};

verus! {

/// The padded, URL-safe base64 text of `b`.
pub uninterp spec fn b64_text(b: Seq<u8>) -> Seq<char>;

/// The bytes whose base64 text, as UTF-8, is `v`, if there are any.
pub open spec fn b64_bytes(v: Seq<u8>) -> Option<Seq<u8>> {
    if exists|b: Seq<u8>| v == encode_utf8(#[trigger] b64_text(b)) {
        Some(choose|b: Seq<u8>| v == encode_utf8(#[trigger] b64_text(b)))
    } else {
        None
    }
}

/// Relies on base64's `URL_SAFE` engine and its `encode`: the padded,
/// URL-safe base64 text of the input.
#[verifier::external_body]
pub(crate) fn base64encode(input: &[u8]) -> (r: String)
    ensures
        r@ == b64_text(input@),
{
    base64::engine::general_purpose::URL_SAFE.encode(input)
}

/// Relies on base64's `URL_SAFE` engine and its `decode`. That engine requires
/// canonical padding and no trailing bits, so it accepts exactly the texts
/// that `encode` writes and gives back the bytes they were written from.
#[verifier::external_body]
fn decode_b64(input: &[u8]) -> (r: Option<Vec<u8>>)
    ensures
        r is Some ==> input@ == encode_utf8(b64_text(r->Some_0@)),
        forall|b: Seq<u8>| input@ == encode_utf8(#[trigger] b64_text(b)) ==> r is Some && r->Some_0@ == b,
{
    base64::engine::general_purpose::URL_SAFE.decode(input).ok()
}

/// Decodes padded, URL-safe base64. It inverts `base64encode`: the text of
/// any bytes decodes to those bytes, and nothing else decodes.
pub fn base64decode(input: &[u8]) -> (r: Option<Vec<u8>>)
    ensures
        r matches Some(b) ==> b64_bytes(input@) == Some(b@),
        r is None <==> b64_bytes(input@) is None,
        forall|b: Seq<u8>| input@ == encode_utf8(#[trigger] b64_text(b)) ==> r is Some && r->Some_0@ == b,
{
    let r = decode_b64(input);
    proof {
        if exists|b: Seq<u8>| input@ == encode_utf8(#[trigger] b64_text(b)) {
            let b = choose|b: Seq<u8>| input@ == encode_utf8(#[trigger] b64_text(b));
            assert(r is Some && r->Some_0@ == b);
        }
    }
    r
}

/// Relies on `String::from_utf8`: it succeeds exactly on valid UTF-8 and
/// then holds the characters that the bytes encode.
#[verifier::external_body]
pub(crate) fn utf8_string(bytes: &[u8]) -> (r: Option<String>)
    ensures
        r is Some <==> valid_utf8(bytes@),
        r is Some ==> r->Some_0@ == decode_utf8(bytes@),
{
    String::from_utf8(bytes.to_vec()).ok()
}

/// The text that a header value stands for: base64 of UTF-8.
pub open spec fn decoded_text(v: Seq<u8>) -> Option<Seq<char>> {
    match b64_bytes(v) {
        Some(b) => if valid_utf8(b) {
            Some(decode_utf8(b))
        } else {
            None
        },
        None => None,
    }
}

/// Decodes a header value: base64 first, then UTF-8.
pub fn decode_header_text(value: &[u8]) -> (r: Option<String>)
    ensures
        r matches Some(s) ==> decoded_text(value@) == Some(s@),
        r is None <==> decoded_text(value@) is None,
{
    match base64decode(value) {
        None => None,
        Some(bytes) => utf8_string(bytes.as_slice()),
    }
}

} // verus!
