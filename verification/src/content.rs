//! Content encoding policy: a file's raw bytes become the response's
//! `contents` string.  Bytes that are valid UTF-8 are carried verbatim as
//! text; any other bytes are carried as their URL-safe base64 encoding, a
//! reversible fallback, so the field is always a well-formed string.

use vstd::prelude::*;
use vstd::utf8::decode_utf8;
use vstd::utf8::decode_utf8_encode_utf8;
use vstd::utf8::encode_utf8;
use vstd::utf8::valid_utf8;

verus! {

/// The string of characters that base64's URL-safe padded engine produces
/// for a byte sequence.  A function of the bytes alone.
pub uninterp spec fn base64_url_encoding(bytes: Seq<u8>) -> Seq<char>;

/// The bytes that base64's URL-safe padded engine recovers from a string,
/// or `None` where the string is not a well-formed encoding.
pub uninterp spec fn base64_url_decoding(text: Seq<char>) -> Option<Seq<u8>>;

/// Relies on `String::from_utf8` of std: it returns `Ok` exactly when the
/// bytes are valid UTF-8, and the returned string then consists of the UTF-8
/// decoding of those bytes.
#[verifier::external_body]
fn utf8_string(bytes: &Vec<u8>) -> (r: Option<String>)
    ensures
        r is Some <==> valid_utf8(bytes@),
        r matches Some(s) ==> s@ == decode_utf8(bytes@),
{
    String::from_utf8(bytes.clone()).ok()
}

/// Relies on `Engine::encode` of the base64 crate, on its URL-safe padded
/// engine `engine::general_purpose::URL_SAFE`: the result is the engine's
/// encoding of the bytes, a function of the bytes alone, and the engine's
/// `Engine::decode` recovers exactly those bytes from it.
#[verifier::external_body]
fn base64_url_encode(bytes: &Vec<u8>) -> (r: String)
    ensures
        r@ == base64_url_encoding(bytes@),
        base64_url_decoding(r@) == Some(bytes@),
        bytes@.len() == 0 ==> r@.len() == 0,
{
    base64::Engine::encode(&base64::engine::general_purpose::URL_SAFE, bytes.as_slice())
}

/// The two-branch content policy as a relation between the raw bytes and the
/// response text: decoded text where the bytes are valid UTF-8, their base64
/// encoding otherwise.
pub open spec fn content_encoded(bytes: Seq<u8>, text: Seq<char>) -> bool {
    if valid_utf8(bytes) {
        text == decode_utf8(bytes)
    } else {
        text == base64_url_encoding(bytes)
    }
}

/// Turns raw file bytes into the always-present `contents` string.  Valid
/// UTF-8 comes back as exactly that text — re-encoding the result yields the
/// input bytes — and any other bytes come back base64-encoded, with the
/// engine's decoding recovering them exactly.
pub fn content_of(bytes: &Vec<u8>) -> (r: String)
    ensures
        content_encoded(bytes@, r@),
        valid_utf8(bytes@) ==> encode_utf8(r@) == bytes@,
        !valid_utf8(bytes@) ==> base64_url_decoding(r@) == Some(bytes@),
{
    match utf8_string(bytes) {
        Some(s) => {
            proof {
                decode_utf8_encode_utf8(bytes@);
            }
            s
        },
        None => base64_url_encode(bytes),
    }
}

} // verus!
