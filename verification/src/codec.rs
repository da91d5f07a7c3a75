//! Byte and text conversions that are taken on trust: base64 through the
//! `base64` crate, and lossy UTF-8 decoding through the standard library.

use base64::Engine;
use vstd::prelude::*;
use vstd::utf8::decode_utf8;
use vstd::utf8::valid_utf8;

verus! {

/// What decoding `text` with the standard base64 alphabet, with padding,
/// gives: the bytes, or the decoder's description of what is wrong with
/// `text`.
pub uninterp spec fn base64_decoding(text: Seq<char>) -> Result<Seq<u8>, Seq<char>>;

/// The text that lossy UTF-8 decoding turns `bytes` into.
pub uninterp spec fn utf8_lossy(bytes: Seq<u8>) -> Seq<char>;

/// Calls `decode` of `base64::engine::general_purpose::STANDARD` and, on
/// failure, formats the `DecodeError` through its `Display` impl. Trusted:
/// the outcome depends on `text` alone, so it is given the name
/// [`base64_decoding`].
#[verifier::external_body]
pub(crate) fn decode_standard(text: &str) -> (r: Result<Vec<u8>, String>)
    ensures
        match r {
            Ok(bytes) => base64_decoding(text@) == Ok::<Seq<u8>, Seq<char>>(bytes@),
            Err(reason) => base64_decoding(text@) == Err::<Seq<u8>, Seq<char>>(reason@),
        },
{
    match base64::engine::general_purpose::STANDARD.decode(text) {
        Ok(bytes) => Ok(bytes),
        Err(e) => Err(e.to_string()),
    }
}

/// Calls `encode` of `base64::engine::general_purpose::STANDARD`. Trusted:
/// what it returns decodes back to `bytes`. The bound keeps the length of
/// the encoding within `usize`, outside of which the crate panics.
#[verifier::external_body]
pub(crate) fn encode_standard(bytes: &[u8]) -> (text: String)
    requires
        4 * (bytes@.len() / 3) + 4 <= usize::MAX,
    ensures
        match base64_decoding(text@) {
            Ok(back) => back == bytes@,
            Err(_) => false,
        },
{
    base64::engine::general_purpose::STANDARD.encode(bytes)
}

/// Calls `String::from_utf8_lossy`. Trusted: the text depends on `bytes`
/// alone, so it is given the name [`utf8_lossy`]; and bytes that are valid
/// UTF-8 come out as the text they encode, only invalid ones being
/// replaced.
#[verifier::external_body]
pub(crate) fn lossy_text(bytes: &[u8]) -> (text: String)
    ensures
        text@ == utf8_lossy(bytes@),
        valid_utf8(bytes@) ==> text@ == decode_utf8(bytes@),
{
    String::from_utf8_lossy(bytes).into_owned()
}

} // verus!
