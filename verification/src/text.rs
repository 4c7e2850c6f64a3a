//! What the browser relies on of the standard library's text operations
//! that the verifier's library does not describe. The contracts in this file
//! restate the standard library's documentation and are not proved here.

use vstd::prelude::*;

verus! {

/// `String::push`: appends one character.
pub assume_specification[ String::push ](text: &mut String, ch: char)
    ensures
        final(text)@ == old(text)@.push(ch),
;

/// `String::pop`: removes the last character and returns it, or returns
/// `None` and leaves the empty text as it is.
pub assume_specification[ String::pop ](text: &mut String) -> (r: Option<char>)
    ensures
        old(text)@.len() == 0 ==> r is None && final(text)@ == old(text)@,
        old(text)@.len() > 0 ==> r == Some(old(text)@.last()) && final(text)@ == old(
            text,
        )@.drop_last(),
;

/// Whether a character is alphabetic or numeric as `char::is_alphanumeric`
/// judges it, by the Unicode tables.
pub uninterp spec fn alphanumeric(ch: char) -> bool;

/// Calls `char::is_alphanumeric`. The contract only gives the result its
/// name: it is a function of the character alone.
#[verifier::external_body]
pub(crate) fn is_alphanumeric(ch: char) -> (r: bool)
    ensures
        r == alphanumeric(ch),
{
    ch.is_alphanumeric()
}

/// A text without its leading and trailing white space, as `str::trim`
/// gives it.
pub uninterp spec fn trimmed(text: Seq<char>) -> Seq<char>;

/// Calls `str::trim`. The contract only gives the result its name: it is a
/// function of the text alone.
#[verifier::external_body]
pub(crate) fn trim(text: &str) -> (r: &str)
    ensures
        r@ == trimmed(text@),
{
    text.trim()
}

/// The value of an optional text.
pub open spec fn text_view(text: Option<String>) -> Option<Seq<char>> {
    match text {
        Some(t) => Some(t@),
        None => None,
    }
}

/// The number of bytes that a text takes in UTF-8, as far as `usize` holds
/// it.
pub open spec fn byte_len(text: Seq<char>) -> usize {
    vstd::utf8::encode_utf8(text).len() as usize
}

} // verus!
