//! The few places where the library leans on code it does not verify.
//!
//! Each function here wraps one operation of an outside crate or of std
//! that vstd gives no specification for. Its contract states only what
//! the wrapped code's own documentation promises; where the result is a
//! pure function of the input but too intricate to write out, it is given
//! an uninterpreted name instead.

use vstd::prelude::*;

verus! {

/// What `serde_json` prints for the value a piece of text parses to:
/// `None` when the text is not valid JSON, otherwise the serialization of
/// the parsed value. A pure function of the text.
pub uninterp spec fn json_normalized(s: Seq<char>) -> Option<Seq<char>>;

/// Relies on `serde_json::from_str` and `serde_json::to_string`: whether
/// text parses as a JSON value, and how that value prints, depend on the
/// text alone. Printing a parsed `Value` cannot fail (its maps have
/// string keys), so a print error is unreachable.
#[verifier::external_body]
pub(crate) fn json_reserialize(s: &str) -> (r: Option<String>)
    ensures
        match r {
            Some(t) => json_normalized(s@) == Some(t@),
            None => json_normalized(s@) is None,
        },
{
    match serde_json::from_str::<serde_json::Value>(s) {
        Ok(value) => match serde_json::to_string(&value) {
            Ok(text) => Some(text),
            Err(_) => None,
        },
        Err(_) => None,
    }
}

/// Relies on `String::push`: appends the given character to the end of
/// the string.
#[verifier::external_body]
pub(crate) fn push_char(s: &mut String, c: char)
    ensures
        final(s)@ == old(s)@.push(c),
{
    s.push(c);
}

/// The Unicode uppercase form of a sequence of characters. A pure
/// function of the characters.
pub uninterp spec fn upper_of(s: Seq<char>) -> Seq<char>;

/// Relies on `str::to_uppercase`: the uppercase mapping is determined by
/// the Unicode character data alone, independent of locale or
/// environment.
#[verifier::external_body]
pub(crate) fn to_upper(s: &str) -> (r: String)
    ensures
        r@ == upper_of(s@),
{
    s.to_uppercase()
}

/// Whether a character has the Unicode `White_Space` property. A pure
/// function of the character.
pub uninterp spec fn is_unicode_space(c: char) -> bool;

/// Relies on `char::is_whitespace`: true exactly for characters with the
/// Unicode `White_Space` property.
#[verifier::external_body]
pub(crate) fn char_is_space(c: char) -> (r: bool)
    ensures
        r == is_unicode_space(c),
{
    c.is_whitespace()
}

} // verus!
