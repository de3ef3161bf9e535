//! The calls this library makes into `serde_json` and into the parts of the
//! standard library that the verifier knows nothing about.
//!
//! Every contract in this file is taken on trust: the verifier reads the
//! signature and the `ensures`, never the body.  Where a result takes pages
//! to describe, its contract says only that it is a function of the
//! arguments, under a name that the rest of the library can speak of.

use vstd::prelude::*;

verus! {

/// `serde_json::Value`, carried through as an opaque value.
#[verifier::external_type_specification]
#[verifier::external_body]
pub struct ExJsonValue(serde_json::Value);

/// The JSON string literal that `serde_json` writes for `text`: the text
/// between double quotes, with the escapes JSON asks for.
pub uninterp spec fn json_string_text(text: Seq<char>) -> Seq<char>;

/// The items of the JSON array that `text` spells out, as `serde_json` reads
/// them; `None` where it does not accept `text` as one array of values and
/// nothing else.
pub uninterp spec fn json_array_items(text: Seq<char>) -> Option<Seq<serde_json::Value>>;

/// The words in which `serde_json` refuses to read `text` as an array of
/// values: what went wrong, and at which line and column.
pub uninterp spec fn json_array_refusal(text: Seq<char>) -> Seq<char>;

/// The text that `String::from_utf8_lossy` decodes `bytes` to: the UTF-8
/// reading of `bytes`, with U+FFFD in place of what is not valid UTF-8.
pub uninterp spec fn utf8_lossy_text(bytes: Seq<u8>) -> Seq<char>;

/// The `Debug` rendering of the path spelled by `path`: the path between
/// double quotes, with the escapes of `std::path::Path`'s `Debug`.
pub uninterp spec fn path_debug_text(path: Seq<char>) -> Seq<char>;

/// Calls `serde_json::to_string` on a string slice; an error comes back as
/// its `Display` text.
///
/// Trusted: the call succeeds on every text, since a string has no way to
/// refuse and the encoder writes into memory; and the literal it returns is
/// a function of the text alone, named [`json_string_text`].
#[verifier::external_body]
pub(crate) fn encode_json_string(text: &str) -> (r: Result<String, String>)
    ensures
        r is Ok,
        r matches Ok(literal) ==> literal@ == json_string_text(text@),
{
    match serde_json::to_string(text) {
        Ok(literal) => Ok(literal),
        Err(error) => Err(error.to_string()),
    }
}

/// Calls `serde_json::from_str` for a vector of `serde_json::Value`; an
/// error comes back as its `Display` text.
///
/// Trusted: whether the call succeeds, the values it returns when it does
/// and the words of its error when it does not all depend on the text alone,
/// as named by [`json_array_items`] and [`json_array_refusal`].  Nothing is
/// claimed about which texts it succeeds on.
#[verifier::external_body]
pub(crate) fn parse_json_array(text: &str) -> (r: Result<Vec<serde_json::Value>, String>)
    ensures
        match r {
            Ok(items) => json_array_items(text@) == Some(items@),
            Err(words) => json_array_items(text@) is None && words@ == json_array_refusal(text@),
        },
{
    match serde_json::from_str(text) {
        Ok(items) => Ok(items),
        Err(error) => Err(error.to_string()),
    }
}

/// Calls `String::from_utf8_lossy` and takes ownership of the result.
///
/// Trusted: the decoded text is a function of the bytes alone, named
/// [`utf8_lossy_text`]; and bytes that are valid UTF-8 decode to the text
/// they encode, with nothing replaced.
#[verifier::external_body]
pub(crate) fn decode_utf8_lossy(bytes: &[u8]) -> (r: String)
    ensures
        r@ == utf8_lossy_text(bytes@),
        vstd::utf8::valid_utf8(bytes@) ==> r@ == vstd::utf8::decode_utf8(bytes@),
{
    String::from_utf8_lossy(bytes).into_owned()
}

/// Formats `path`, taken as a `std::path::Path`, with `{:?}`.
///
/// Trusted: the rendering is a function of the path's text alone, named
/// [`path_debug_text`].
#[verifier::external_body]
pub(crate) fn render_path(path: &str) -> (r: String)
    ensures
        r@ == path_debug_text(path@),
{
    format!("{:?}", std::path::Path::new(path))
}

} // verus!
