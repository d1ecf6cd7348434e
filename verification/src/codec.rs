//! Decoders of outside crates and of std: base64, UTF-8 and percent-encoding.
use vstd::prelude::*;
use vstd::utf8::{decode_utf8, encode_utf8, valid_utf8};

verus! {

/// What `base64::engine::general_purpose::STANDARD.decode` gives for the
/// UTF-8 bytes of `text`, or `None` where it reports an error.
pub uninterp spec fn base64_standard(text: Seq<char>) -> Option<Seq<u8>>;

/// What `base64::engine::general_purpose::URL_SAFE_NO_PAD.decode` gives for
/// the UTF-8 bytes of `text`, or `None` where it reports an error.
pub uninterp spec fn base64_url_safe_no_pad(text: Seq<char>) -> Option<Seq<u8>>;

/// What `String::from_utf8_lossy` gives for `bytes`.
pub uninterp spec fn utf8_lossy_spec(bytes: Seq<u8>) -> Seq<char>;

/// The value of an ASCII hexadecimal digit, upper or lower case.
pub open spec fn hex_value(b: u8) -> Option<u8> {
    if 48 <= b <= 57 {
        Some((b - 48) as u8)
    } else if 65 <= b <= 70 {
        Some((b - 55) as u8)
    } else if 97 <= b <= 102 {
        Some((b - 87) as u8)
    } else {
        None
    }
}

/// Percent-decoding of bytes: `%` and two hex digits become the byte they
/// spell; every other byte, a lone `%` included, is kept.
pub open spec fn percent_decode_bytes(b: Seq<u8>) -> Seq<u8>
    decreases b.len(),
{
    if b.len() == 0 {
        b
    } else if b[0] == 37 && b.len() >= 3 && hex_value(b[1]) is Some && hex_value(b[2]) is Some {
        seq![(hex_value(b[1])->0 * 16 + hex_value(b[2])->0) as u8] + percent_decode_bytes(
            b.subrange(3, b.len() as int),
        )
    } else {
        seq![b[0]] + percent_decode_bytes(b.subrange(1, b.len() as int))
    }
}

/// What `urlencoding::decode` gives for `text`: its UTF-8 bytes
/// percent-decoded, read as UTF-8; `None` where they are not UTF-8.
pub open spec fn percent_decode(text: Seq<char>) -> Option<Seq<char>> {
    let b = percent_decode_bytes(encode_utf8(text));
    if valid_utf8(b) {
        Some(decode_utf8(b))
    } else {
        None
    }
}

/// Decodes `text` with the standard base64 alphabet and padding
/// (`base64::engine::general_purpose::STANDARD.decode`). The contract names
/// the result; base64 itself is not restated.
#[verifier::external_body]
pub(crate) fn decode_base64_standard(text: &str) -> (res: Option<Vec<u8>>)
    ensures
        match res {
            Some(b) => base64_standard(text@) == Some(b@),
            None => base64_standard(text@) is None,
        },
{
    base64::Engine::decode(&base64::engine::general_purpose::STANDARD, text).ok()
}

/// Decodes `text` with the URL-safe base64 alphabet and no padding
/// (`base64::engine::general_purpose::URL_SAFE_NO_PAD.decode`). The contract
/// names the result; base64 itself is not restated.
#[verifier::external_body]
pub(crate) fn decode_base64_url_safe_no_pad(text: &str) -> (res: Option<Vec<u8>>)
    ensures
        match res {
            Some(b) => base64_url_safe_no_pad(text@) == Some(b@),
            None => base64_url_safe_no_pad(text@) is None,
        },
{
    base64::Engine::decode(&base64::engine::general_purpose::URL_SAFE_NO_PAD, text).ok()
}

/// `String::from_utf8`: the text that `bytes` encode when they are valid
/// UTF-8, and `None` otherwise.
#[verifier::external_body]
pub(crate) fn utf8_decode(bytes: Vec<u8>) -> (res: Option<String>)
    ensures
        res is Some <==> valid_utf8(bytes@),
        res matches Some(s) ==> s@ == decode_utf8(bytes@),
{
    String::from_utf8(bytes).ok()
}

/// `String::from_utf8_lossy`: valid UTF-8 is decoded as it is; what it gives
/// for other bytes (with replacement characters) is only named.
#[verifier::external_body]
pub(crate) fn utf8_decode_lossy(bytes: &[u8]) -> (res: String)
    ensures
        res@ == utf8_lossy_spec(bytes@),
        valid_utf8(bytes@) ==> res@ == decode_utf8(bytes@),
{
    String::from_utf8_lossy(bytes).to_string()
}

/// `urlencoding::decode`: percent-decodes the UTF-8 bytes of `text` and
/// reads the result as UTF-8, as `percent_decode` states; `None` where the
/// decoded bytes are not UTF-8.
#[verifier::external_body]
pub(crate) fn url_decode(text: &str) -> (res: Option<String>)
    ensures
        match res {
            Some(s) => percent_decode(text@) == Some(s@),
            None => percent_decode(text@) is None,
        },
{
    urlencoding::decode(text).ok().map(|c| c.into_owned())
}

}
