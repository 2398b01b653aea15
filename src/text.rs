//! Small string operations from std that the rest of the library relies on.

use vstd::prelude::*;

verus! {

/// Relies on `<str as PartialEq>::eq`: two string slices compare equal
/// exactly when they hold the same characters.
#[verifier::external_body]
pub(crate) fn same_text(a: &str, b: &str) -> (r: bool)
    ensures
        r == (a@ == b@),
{
    a == b
}

/// Relies on `String::push`: the character is appended at the end.
pub assume_specification[ String::push ](s: &mut String, ch: char)
    ensures
        final(s)@ == old(s)@.push(ch),
;

/// Whether the text starts with a dash.
pub fn starts_with_dash(t: &str) -> (r: bool)
    ensures
        r == (t@.len() > 0 && t@[0] == '-'),
{
    t.unicode_len() > 0 && t.get_char(0) == '-'
}

} // verus!
