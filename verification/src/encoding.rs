//! Text and bytes: base64, UTF-8 and quoting.
//!
//! What is encoded is the work of the `base64` crate and of the standard
//! library; this module gives their results a name and checks the one thing
//! they take for granted, that an encoding's length fits the machine.

use vstd::prelude::*;
use vstd::string::*;
use vstd::utf8::*;

verus! {

/// The standard base64 text, padded with `=`, of a sequence of bytes.
pub uninterp spec fn base64_text(data: Seq<u8>) -> Seq<char>;

/// What formatting a string with `{:?}` gives: the string between double
/// quotes, with the characters that need it escaped.
pub uninterp spec fn debug_text(text: Seq<char>) -> Seq<char>;

/// The length of the base64 text of `len` bytes: four characters for every
/// three bytes, the last group padded.
pub open spec fn base64_len(len: nat) -> nat {
    4 * ((len + 2) / 3)
}

/// Whether the base64 text of `len` bytes can be held on this machine, where
/// nothing is longer than `isize::MAX`.
pub open spec fn base64_fits(len: nat) -> bool {
    base64_len(len) <= isize::MAX
}

/// The bytes of a text, which are its UTF-8 encoding.
pub open spec fn text_bytes(text: Seq<char>) -> Seq<u8> {
    encode_utf8(text)
}

/// Calls `base64::encode`.
///
/// Trusted: the result is the standard padded base64 text of the input; it has
/// four characters for every three bytes begun, and all of them are ASCII. An
/// input whose text would be longer than `isize::MAX` is left out: `encode`
/// panics on it, when it computes the length or when it allocates the text.
#[verifier::external_body]
fn base64_encode(data: &[u8]) -> (r: String)
    requires
        base64_fits(data@.len()),
    ensures
        r@ == base64_text(data@),
        r@.len() == base64_len(data@.len()),
        is_ascii_chars(r@),
{
    base64::encode(data)
}

/// Calls `String::from_utf8`.
///
/// Trusted: the call succeeds exactly on valid UTF-8, and the string then holds
/// the characters that the bytes encode.
#[verifier::external_body]
fn string_from_utf8(bytes: Vec<u8>) -> (r: Option<String>)
    ensures
        r is Some <==> valid_utf8(bytes@),
        r matches Some(text) ==> text@ == decode_utf8(bytes@),
{
    String::from_utf8(bytes).ok()
}

/// Formats a string with `{:?}`, which is `<str as Debug>::fmt`.
///
/// Trusted: the result depends on the characters of the string alone.
#[verifier::external_body]
pub(crate) fn format_debug(text: &str) -> (r: String)
    ensures
        r@ == debug_text(text@),
{
    format!("{:?}", text)
}

/// The base64 text of `data`, or `None` where it would be longer than the
/// machine can hold.
pub fn to_base64(data: &[u8]) -> (r: Option<String>)
    ensures
        r is Some <==> base64_fits(data@.len()),
        r matches Some(text) ==> {
            &&& text@ == base64_text(data@)
            &&& text@.len() == base64_len(data@.len())
            &&& is_ascii_chars(text@)
        },
{
    let len: usize = data.len();
    if len > isize::MAX as usize / 4 * 3 {
        None
    } else {
        Some(base64_encode(data))
    }
}

/// The text that `bytes` encode in UTF-8, or `None` where they encode none.
pub fn from_utf8(bytes: Vec<u8>) -> (r: Option<String>)
    ensures
        r is Some <==> valid_utf8(bytes@),
        r matches Some(text) ==> text@ == decode_utf8(bytes@) && text_bytes(text@) == bytes@,
{
    let ghost given = bytes@;
    let r = string_from_utf8(bytes);
    proof {
        if valid_utf8(given) {
            decode_utf8_encode_utf8(given);
        }
    }
    r
}

} // verus!
