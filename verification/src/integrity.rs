//! Deciding whether the bytes of a local file are the bytes that were asked for.
//!
//! The same check runs before a transfer, to skip a file that is already in
//! place, and after it, to reject a corrupt one.

use md5::{Digest, Md5};
use vstd::prelude::*;

verus! {

/// The MD5 digest of a byte string, written as lower-case hexadecimal digits.
pub uninterp spec fn md5_hex(bytes: Seq<u8>) -> Seq<char>;

/// Calls `Md5::digest` of the `md-5` crate and formats the sixteen bytes it
/// returns with `{:x}`. Trusted: the text returned is what this library calls
/// `md5_hex` of the input; nothing of the digest itself is proved.
#[verifier::external_body]
fn md5_hex_digest(bytes: &[u8]) -> (hex: String)
    ensures
        hex@ == md5_hex(bytes@),
{
    format!("{:x}", Md5::digest(bytes))
}

/// What it means for a file to be valid: it exists, it has the expected size
/// where one is expected, and its digest is the expected one where one is
/// expected. `None` as content stands for a file that does not exist.
pub open spec fn file_matches(
    content: Option<Seq<u8>>,
    expected_md5: Option<Seq<char>>,
    expected_size: Option<u64>,
) -> bool {
    &&& content is Some
    &&& (expected_size is Some ==> content->0.len() == expected_size->0)
    &&& (expected_md5 is Some ==> md5_hex(content->0) == expected_md5->0)
}

/// The content of an optional byte slice, as a sequence.
pub open spec fn content_view(content: Option<&[u8]>) -> Option<Seq<u8>> {
    match content {
        Some(bytes) => Some(bytes@),
        None => None,
    }
}

/// The characters of an optional string slice.
pub open spec fn text_view(text: Option<&str>) -> Option<Seq<char>> {
    match text {
        Some(s) => Some(s@),
        None => None,
    }
}

/// The digest of a file's content, as lower-case hexadecimal text.
pub fn calculate_md5(content: &[u8]) -> (hex: String)
    ensures
        hex@ == md5_hex(content@),
{
    md5_hex_digest(content)
}

/// Decides whether a local file is valid. `content` is `None` when the file
/// does not exist, which is never valid. The size is compared first, so that a
/// file of the wrong size is rejected without computing its digest.
pub fn check_existing_file(
    content: Option<&[u8]>,
    expected_md5: Option<&str>,
    expected_size: Option<u64>,
) -> (valid: bool)
    ensures
        valid == file_matches(content_view(content), text_view(expected_md5), expected_size),
{
    let bytes = match content {
        Some(bytes) => bytes,
        None => {
            return false;
        },
    };
    if let Some(size) = expected_size {
        if bytes.len() as u64 != size {
            return false;
        }
    }
    if let Some(md5) = expected_md5 {
        let actual = calculate_md5(bytes);
        let expected = md5.to_owned();
        if actual != expected {
            return false;
        }
    }
    true
}

/// Decides whether a transfer can be skipped: only a file whose digest and
/// size are both known can be recognised as already in place.
pub fn should_skip_download(content: Option<&[u8]>, md5: Option<&str>, size: Option<u64>) -> (skip:
    bool)
    ensures
        skip == (md5 is Some && size is Some && file_matches(
            content_view(content),
            text_view(md5),
            size,
        )),
{
    match (md5, size) {
        (Some(md5), Some(size)) => check_existing_file(content, Some(md5), Some(size)),
        _ => false,
    }
}

/// Running the check twice on the same bytes and the same expected values
/// gives the same answer: validity is a function of those values alone.
pub proof fn verify_is_deterministic(
    content: Option<Seq<u8>>,
    expected_md5: Option<Seq<char>>,
    expected_size: Option<u64>,
    first: bool,
    second: bool,
)
    requires
        first == file_matches(content, expected_md5, expected_size),
        second == file_matches(content, expected_md5, expected_size),
    ensures
        first == second,
{
}

/// A file that does not exist is never valid.
pub proof fn absent_file_is_invalid(expected_md5: Option<Seq<char>>, expected_size: Option<u64>)
    ensures
        !file_matches(None, expected_md5, expected_size),
{
}

} // verus!
