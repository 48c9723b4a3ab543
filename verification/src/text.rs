//! What the library needs of strings: the standard operations it calls, with
//! what it relies on of them.

use vstd::prelude::*;
use crate::chars::{ascii_lowercase, ascii_digit};

verus! {

/// The number that a run of decimal digits denotes, most significant digit
/// first. The empty run denotes zero.
pub open spec fn decimal_value(digits: Seq<char>) -> nat
    decreases digits.len(),
{
    if digits.len() == 0 {
        0
    } else {
        (decimal_value(digits.drop_last()) * 10 + (digits.last() as u32 - '0' as u32)) as nat
    }
}

/// Whether `s` is made of ASCII decimal digits only.
pub open spec fn all_ascii_digits(s: Seq<char>) -> bool {
    forall|i: int| 0 <= i < s.len() ==> ascii_digit(#[trigger] s[i])
}

/// Trusted: `String::push` appends the character to the end of the string.
pub assume_specification[ String::push ](s: &mut String, c: char)
    ensures
        final(s)@ == old(s)@.push(c),
;

/// Trusted: `String::pop` removes the last character and returns it, or
/// returns `None` and leaves an empty string empty.
pub assume_specification[ String::pop ](s: &mut String) -> (r: Option<char>)
    ensures
        old(s)@.len() == 0 ==> r.is_none() && final(s)@ == old(s)@,
        old(s)@.len() > 0 ==> r == Some(old(s)@.last()) && final(s)@ == old(s)@.drop_last(),
;

/// Trusted: `String::clear` removes all characters.
pub assume_specification[ String::clear ](s: &mut String)
    ensures
        final(s)@ == Seq::<char>::empty(),
;

/// Trusted: `str::eq_ignore_ascii_case` compares the two strings after
/// mapping the ASCII upper case letters of both to lower case.
pub assume_specification[ str::eq_ignore_ascii_case ](a: &str, b: &str) -> (r: bool)
    ensures
        r == (ascii_lowercase(a@) == ascii_lowercase(b@)),
;

/// Trusted: `str::parse::<i8>` on a nonempty run of ASCII decimal digits
/// succeeds exactly when the number denoted fits in an `i8`, and then gives
/// that number. Nothing is claimed for other strings.
#[verifier::external_body]
pub(crate) fn parse_i8(digits: &str) -> (r: Option<i8>)
    ensures
        digits@.len() > 0 && all_ascii_digits(digits@) ==> r == (if decimal_value(digits@)
            <= i8::MAX {
            Some(decimal_value(digits@) as i8)
        } else {
            None::<i8>
        }),
{
    digits.parse::<i8>().ok()
}

} // verus!
