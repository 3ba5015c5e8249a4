//! Base64 encoding and decoding of byte streams, in the standard alphabet
//! (padded) or the URL-safe one (unpadded).
use vstd::prelude::*;
use vstd::utf8::{decode_utf8, valid_utf8};
use base64::engine::general_purpose::{STANDARD, URL_SAFE_NO_PAD};
use base64::Engine;

verus! {

/// Which base64 alphabet, and whether padding is written.
#[derive(Clone, Copy, Debug, PartialEq, Eq, Structural)]
pub enum Base64Format {
    /// The standard alphabet, padded with `=`.
    Standard,
    /// The URL-safe alphabet, without padding.
    UrlSafe,
}

/// Why decoding failed.
#[derive(Clone, Copy, Debug, PartialEq, Eq, Structural)]
pub enum Base64Error {
    /// The text is not base64 in the chosen alphabet.
    InvalidBase64,
    /// The decoded bytes are not UTF-8 text.
    InvalidUtf8,
}

/// The padded standard-alphabet base64 text of `bytes`.
pub uninterp spec fn base64_standard(bytes: Seq<u8>) -> Seq<char>;

/// The unpadded URL-safe base64 text of `bytes`.
pub uninterp spec fn base64_url_safe(bytes: Seq<u8>) -> Seq<char>;

/// The bytes that padded standard-alphabet base64 `text` decodes to, if it is valid.
pub uninterp spec fn base64_standard_decoded(text: Seq<char>) -> Option<Seq<u8>>;

/// The bytes that unpadded URL-safe base64 `text` decodes to, if it is valid.
pub uninterp spec fn base64_url_safe_decoded(text: Seq<char>) -> Option<Seq<u8>>;

/// `text` without its leading and trailing white space.
pub uninterp spec fn trimmed(text: Seq<char>) -> Seq<char>;

/// base64's decoding error, opaque here; it becomes `Base64Error::InvalidBase64`.
#[verifier::external_type_specification]
#[verifier::external_body]
pub struct ExDecodeError(base64::DecodeError);

/// std's UTF-8 conversion error, opaque here; it becomes `Base64Error::InvalidUtf8`.
#[verifier::external_type_specification]
#[verifier::external_body]
pub struct ExFromUtf8Error(std::string::FromUtf8Error);

/// Relies on `Engine::encode` of base64's STANDARD engine: the text depends on
/// the bytes alone. It panics only where the text's length overflows `usize`.
#[verifier::external_body]
fn encode_standard(bytes: &[u8]) -> (r: String)
    requires
        bytes@.len() <= usize::MAX / 4,
    ensures
        r@ == base64_standard(bytes@),
{
    STANDARD.encode(bytes)
}

/// Relies on `Engine::encode` of base64's URL_SAFE_NO_PAD engine: the text
/// depends on the bytes alone. It panics only where the text's length
/// overflows `usize`.
#[verifier::external_body]
fn encode_url_safe(bytes: &[u8]) -> (r: String)
    requires
        bytes@.len() <= usize::MAX / 4,
    ensures
        r@ == base64_url_safe(bytes@),
{
    URL_SAFE_NO_PAD.encode(bytes)
}

/// Relies on `Engine::decode` of base64's STANDARD engine: the outcome
/// depends on the text alone.
#[verifier::external_body]
fn decode_standard(text: &str) -> (r: Result<Vec<u8>, base64::DecodeError>)
    ensures
        match r {
            Ok(bytes) => base64_standard_decoded(text@) == Some(bytes@),
            Err(_) => base64_standard_decoded(text@) is None,
        },
{
    STANDARD.decode(text)
}

/// Relies on `Engine::decode` of base64's URL_SAFE_NO_PAD engine: the
/// outcome depends on the text alone.
#[verifier::external_body]
fn decode_url_safe(text: &str) -> (r: Result<Vec<u8>, base64::DecodeError>)
    ensures
        match r {
            Ok(bytes) => base64_url_safe_decoded(text@) == Some(bytes@),
            Err(_) => base64_url_safe_decoded(text@) is None,
        },
{
    URL_SAFE_NO_PAD.decode(text)
}

/// Relies on str::trim: the result depends on the text alone.
#[verifier::external_body]
fn trim_text(text: &str) -> (r: &str)
    ensures
        r@ == trimmed(text@),
{
    text.trim()
}

/// Relies on String::from_utf8: it succeeds exactly on valid UTF-8, and then
/// holds the characters that the bytes encode.
#[verifier::external_body]
fn string_from_utf8(bytes: Vec<u8>) -> (r: Result<String, std::string::FromUtf8Error>)
    ensures
        r is Ok <==> valid_utf8(bytes@),
        r is Ok ==> r->Ok_0@ == decode_utf8(bytes@),
{
    String::from_utf8(bytes)
}

/// The base64 text of `bytes` in `format`.
pub open spec fn encode_spec(bytes: Seq<u8>, format: Base64Format) -> Seq<char> {
    match format {
        Base64Format::Standard => base64_standard(bytes),
        Base64Format::UrlSafe => base64_url_safe(bytes),
    }
}

/// The bytes that base64 `text` in `format` decodes to, if it is valid.
pub open spec fn decoded_spec(text: Seq<char>, format: Base64Format) -> Option<Seq<u8>> {
    match format {
        Base64Format::Standard => base64_standard_decoded(text),
        Base64Format::UrlSafe => base64_url_safe_decoded(text),
    }
}

/// What decoding `input` gives: the trimmed text is decoded, and the bytes
/// must be UTF-8.
pub open spec fn decode_spec(input: Seq<char>, format: Base64Format) -> Result<
    Seq<char>,
    Base64Error,
> {
    match decoded_spec(trimmed(input), format) {
        None => Err(Base64Error::InvalidBase64),
        Some(bytes) => if valid_utf8(bytes) {
            Ok(decode_utf8(bytes))
        } else {
            Err(Base64Error::InvalidUtf8)
        },
    }
}

/// Encodes the whole of `data` as base64 text in `format`.
pub fn process_encode(data: &[u8], format: Base64Format) -> (r: String)
    requires
        data@.len() <= usize::MAX / 4,
    ensures
        r@ == encode_spec(data@, format),
{
    match format {
        Base64Format::Standard => encode_standard(data),
        Base64Format::UrlSafe => encode_url_safe(data),
    }
}

/// Decodes base64 `input` in `format`, ignoring white space around it, into
/// UTF-8 text.
pub fn process_decode(input: &str, format: Base64Format) -> (r: Result<String, Base64Error>)
    ensures
        match decode_spec(input@, format) {
            Ok(text) => r is Ok && r->Ok_0@ == text,
            Err(e) => r == Err::<String, Base64Error>(e),
        },
{
    let text = trim_text(input);
    let decoded = match format {
        Base64Format::Standard => decode_standard(text),
        Base64Format::UrlSafe => decode_url_safe(text),
    };
    match decoded {
        Err(_) => Err(Base64Error::InvalidBase64),
        Ok(bytes) => match string_from_utf8(bytes) {
            Ok(s) => Ok(s),
            Err(_) => Err(Base64Error::InvalidUtf8),
        },
    }
}

} // verus!
