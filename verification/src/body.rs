//! Turning a response body into text.

use crate::text::{contains, occurs_in};
use flate2::read::GzDecoder;
use std::io::Read;
use vstd::prelude::*;
use vstd::utf8::{decode_utf8, valid_utf8};

verus! {

/// The text that a gzip stream holds; none where the bytes are no gzip
/// stream or what they hold is no UTF-8.
pub uninterp spec fn gunzip_text(bytes: Seq<u8>) -> Option<Seq<char>>;

/// Reads a `flate2::read::GzDecoder` over the bytes to its end with
/// `read_to_string`. Trusted: the text read, or the failure to read one, is
/// what this library calls `gunzip_text` of the bytes.
#[verifier::external_body]
fn gunzip_to_string(bytes: &[u8]) -> (text: Option<String>)
    ensures
        match text {
            Some(t) => gunzip_text(bytes@) == Some(t@),
            None => gunzip_text(bytes@) is None,
        },
{
    let mut text = String::new();
    match GzDecoder::new(bytes).read_to_string(&mut text) {
        Ok(_) => Some(text),
        Err(_) => None,
    }
}

/// Calls `std::str::from_utf8`, which succeeds exactly on well-formed UTF-8.
/// Trusted: the text returned holds the characters that the bytes encode.
#[verifier::external_body]
fn utf8_to_string(bytes: &[u8]) -> (text: Option<String>)
    ensures
        match text {
            Some(t) => valid_utf8(bytes@) && t@ == decode_utf8(bytes@),
            None => !valid_utf8(bytes@),
        },
{
    match std::str::from_utf8(bytes) {
        Ok(text) => Some(text.to_owned()),
        Err(_) => None,
    }
}

/// Why a body could not be read as text.
#[derive(Clone, Copy, Debug, PartialEq, Eq, Structural)]
pub enum BodyError {
    /// The body was announced as gzip and could not be decompressed to text.
    Decompress,
    /// The body is not UTF-8.
    InvalidText,
}

/// The text of a body: decompressed where the content encoding names gzip,
/// decoded as UTF-8 otherwise.
pub open spec fn body_text(content_encoding: Seq<char>, body: Seq<u8>) -> Result<
    Seq<char>,
    BodyError,
> {
    if occurs_in("gzip"@, content_encoding) {
        match gunzip_text(body) {
            Some(text) => Ok(text),
            None => Err(BodyError::Decompress),
        }
    } else if valid_utf8(body) {
        Ok(decode_utf8(body))
    } else {
        Err(BodyError::InvalidText)
    }
}

/// Reads a response body as text, given the value of its content-encoding
/// header (empty where it has none).
pub fn decode_body(content_encoding: &str, body: &[u8]) -> (text: Result<String, BodyError>)
    ensures
        match text {
            Ok(t) => body_text(content_encoding@, body@) == Ok::<Seq<char>, BodyError>(t@),
            Err(e) => body_text(content_encoding@, body@) == Err::<Seq<char>, BodyError>(e),
        },
{
    if contains(content_encoding, "gzip") {
        match gunzip_to_string(body) {
            Some(text) => Ok(text),
            None => Err(BodyError::Decompress),
        }
    } else {
        match utf8_to_string(body) {
            Some(text) => Ok(text),
            None => Err(BodyError::InvalidText),
        }
    }
}

} // verus!
