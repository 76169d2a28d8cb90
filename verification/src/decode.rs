//! From bytes to text: by the character encoding that came with the bytes, or
//! as strict UTF-8.

use crate::error::{undecodable, FetchError, FetchErrorView};
use std::borrow::Cow;
use vstd::prelude::*;
use vstd::utf8::{decode_utf8, encode_utf8, valid_utf8};

verus! {

/// Whether `encoding_rs` knows an encoding under `label`.
pub uninterp spec fn charset_known(label: Seq<char>) -> bool;

/// What `encoding_rs` decodes `bytes` to in the encoding that `label` names,
/// without looking for a byte order mark and without replacing anything:
/// `None` where the bytes are malformed in that encoding.
pub uninterp spec fn charset_decode(label: Seq<char>, bytes: Seq<u8>) -> Option<Seq<char>>;

/// The longest input that the decoder of `encoding_rs` can size its output
/// for: it reserves at most a little over three bytes for each one it reads.
pub open spec fn max_decodable_len() -> int {
    (usize::MAX / 4) as int
}

/// An optional string as a plain value.
pub open spec fn text_view(s: Option<String>) -> Option<Seq<char>> {
    match s {
        Some(s) => Some(s@),
        None => None,
    }
}

/// `Encoding::for_label` of `encoding_rs`: whether `label`, once white space
/// around it is dropped and its letters ignored for case, is a label of the
/// Encoding Standard.
#[verifier::external_body]
fn label_is_known(label: &str) -> (known: bool)
    ensures
        known == charset_known(label@),
{
    encoding_rs::Encoding::for_label(label.as_bytes()).is_some()
}

/// `Encoding::decode_without_bom_handling_and_without_replacement` of
/// `encoding_rs`, on the encoding that `Encoding::for_label` gives for
/// `label`: the text, or `None` where a malformed sequence was met. It panics
/// where the size of its output buffer overflows, which the bound on the
/// input rules out.
#[verifier::external_body]
fn decode_as(bytes: &Vec<u8>, label: &str) -> (r: Option<String>)
    requires
        charset_known(label@),
        bytes@.len() <= max_decodable_len(),
    ensures
        text_view(r) == charset_decode(label@, bytes@),
{
    let encoding = encoding_rs::Encoding::for_label(label.as_bytes()).unwrap();
    encoding.decode_without_bom_handling_and_without_replacement(bytes).map(Cow::into_owned)
}

/// `String::from_utf8`: the string that the bytes encode, and `None` exactly
/// where they are not UTF-8.
#[verifier::external_body]
fn string_from_utf8(bytes: Vec<u8>) -> (r: Option<String>)
    ensures
        r matches Some(s) ==> valid_utf8(bytes@) && s@ == decode_utf8(bytes@),
        r is None ==> !valid_utf8(bytes@),
{
    String::from_utf8(bytes).ok()
}

/// The name under which strict UTF-8 decoding reports a failure.
pub open spec fn utf8_name() -> Seq<char> {
    "UTF-8"@
}

/// The text of `bytes`. With a character encoding that is known the bytes are
/// decoded in it, and they must be well formed in it (and few enough for the
/// decoder). With none, or one that is not known, they must be UTF-8.
pub open spec fn source_from_bytes(bytes: Seq<u8>, charset: Option<Seq<char>>) -> Result<
    Seq<char>,
    FetchErrorView,
> {
    match charset {
        Some(label) if charset_known(label) => {
            if bytes.len() > max_decodable_len() {
                Err(undecodable(label))
            } else {
                match charset_decode(label, bytes) {
                    Some(text) => Ok(text),
                    None => Err(undecodable(label)),
                }
            }
        },
        _ => {
            if valid_utf8(bytes) {
                Ok(decode_utf8(bytes))
            } else {
                Err(undecodable(utf8_name()))
            }
        },
    }
}

/// A decoding result as a plain value.
pub open spec fn decoded_view(r: Result<String, FetchError>) -> Result<Seq<char>, FetchErrorView> {
    match r {
        Ok(s) => Ok(s@),
        Err(e) => Err(e@),
    }
}

/// Given a vector of bytes and optionally a charset, decode the bytes to a
/// string.
pub fn get_source_from_bytes(bytes: Vec<u8>, maybe_charset: Option<String>) -> (r: Result<
    String,
    FetchError,
>)
    ensures
        decoded_view(r) == source_from_bytes(bytes@, text_view(maybe_charset)),
        r matches Ok(s) ==> valid_utf8(encode_utf8(s@)),
{
    broadcast use vstd::utf8::encode_utf8_valid_utf8;

    if let Some(charset) = maybe_charset {
        if label_is_known(charset.as_str()) {
            if bytes.len() > usize::MAX / 4 {
                return Err(FetchError::undecodable(charset.as_str()));
            }
            return match decode_as(&bytes, charset.as_str()) {
                Some(text) => Ok(text),
                None => Err(FetchError::undecodable(charset.as_str())),
            };
        }
    }
    match string_from_utf8(bytes) {
        Some(text) => Ok(text),
        None => Err(FetchError::undecodable("UTF-8")),
    }
}

/// The character encoding that the first bytes of a local file point to.
pub open spec fn detected_charset(bytes: Seq<u8>) -> Seq<char> {
    if bytes.len() >= 2 && bytes[0] == 0xff && bytes[1] == 0xfe {
        "utf-16le"@
    } else if bytes.len() >= 2 && bytes[0] == 0xfe && bytes[1] == 0xff {
        "utf-16be"@
    } else {
        "utf-8"@
    }
}

/// Guesses the character encoding of a file from its byte order mark: UTF-16
/// in either byte order where there is one, else UTF-8.
pub fn detect_charset(bytes: &Vec<u8>) -> (label: &'static str)
    ensures
        label@ == detected_charset(bytes@),
{
    if bytes.len() >= 2 && bytes[0] == 0xff && bytes[1] == 0xfe {
        "utf-16le"
    } else if bytes.len() >= 2 && bytes[0] == 0xfe && bytes[1] == 0xff {
        "utf-16be"
    } else {
        "utf-8"
    }
}

} // verus!
