//! Character classes used by the command language and by text entry.
//!
//! The Unicode properties are decided by the standard library. Their results
//! are named here, so that contracts can speak of them; the ASCII classes are
//! small enough to be stated outright.

use vstd::prelude::*;

verus! {

/// The result of `char::is_whitespace`: whether `c` has the Unicode
/// `White_Space` property.
pub uninterp spec fn char_is_whitespace(c: char) -> bool;

/// The result of `char::is_alphabetic`: whether `c` has the Unicode
/// `Alphabetic` property.
pub uninterp spec fn char_is_alphabetic(c: char) -> bool;

/// The result of `char::is_alphanumeric`: whether `c` is alphabetic or
/// numeric in the sense of Unicode.
pub uninterp spec fn char_is_alphanumeric(c: char) -> bool;

/// The ASCII decimal digits, `'0'` to `'9'`.
pub open spec fn ascii_digit(c: char) -> bool {
    '0' <= c <= '9'
}

/// The ASCII punctuation characters: the four ranges `!` to `/`, `:` to `@`,
/// `[` to `` ` `` and `{` to `~`.
pub open spec fn ascii_punctuation(c: char) -> bool {
    ||| '!' <= c <= '/'
    ||| ':' <= c <= '@'
    ||| '[' <= c <= '`'
    ||| '{' <= c <= '~'
}

/// `c` with an ASCII lower case letter replaced by its upper case form.
pub open spec fn ascii_upper(c: char) -> char {
    if 'a' <= c <= 'z' {
        ((c as u32) - 32) as char
    } else {
        c
    }
}

/// `c` with an ASCII upper case letter replaced by its lower case form.
pub open spec fn ascii_lower(c: char) -> char {
    if 'A' <= c <= 'Z' {
        ((c as u32) + 32) as char
    } else {
        c
    }
}

/// `s` with every ASCII upper case letter replaced by its lower case form.
pub open spec fn ascii_lowercase(s: Seq<char>) -> Seq<char> {
    s.map_values(|c: char| ascii_lower(c))
}

/// Trusted: `char::is_whitespace` depends on the character alone; its result
/// is what `char_is_whitespace` names. Nothing is claimed of which characters
/// are white space.
pub assume_specification[ char::is_whitespace ](c: char) -> (r: bool)
    ensures
        r == char_is_whitespace(c),
;

/// Trusted: `char::is_alphabetic` depends on the character alone; its result
/// is what `char_is_alphabetic` names. Nothing is claimed of which characters
/// are alphabetic.
pub assume_specification[ char::is_alphabetic ](c: char) -> (r: bool)
    ensures
        r == char_is_alphabetic(c),
;

/// Trusted: `char::is_alphanumeric` depends on the character alone; its
/// result is what `char_is_alphanumeric` names. Nothing is claimed of which
/// characters are alphanumeric.
pub assume_specification[ char::is_alphanumeric ](c: char) -> (r: bool)
    ensures
        r == char_is_alphanumeric(c),
;

/// Trusted: `char::is_ascii_digit` holds exactly of `'0'` to `'9'`.
pub assume_specification[ char::is_ascii_digit ](c: &char) -> (r: bool)
    ensures
        r == ascii_digit(*c),
;

/// Trusted: `char::is_ascii_punctuation` holds exactly of the four ASCII
/// ranges that its documentation lists.
pub assume_specification[ char::is_ascii_punctuation ](c: &char) -> (r: bool)
    ensures
        r == ascii_punctuation(*c),
;

/// Trusted: `char::to_ascii_uppercase` maps `'a'` to `'z'` onto `'A'` to `'Z'`
/// and leaves every other character as it is.
pub assume_specification[ char::to_ascii_uppercase ](c: &char) -> (r: char)
    ensures
        r == ascii_upper(*c),
;

} // verus!
