//! Decoding of backslash escape sequences inside one operand.

use vstd::prelude::*;
use vstd::std_specs::iter::IteratorSpec;

verus! {

/// The character that a backslash followed by `c` stands for.
pub open spec fn escaped(c: char) -> char {
    if c == '\\' {
        '\\'
    } else if c == 'a' {
        '\x07'
    } else if c == 'b' {
        '\x08'
    } else if c == 'c' {
        '\x04'
    } else if c == 'e' {
        '\x1b'
    } else if c == 'f' {
        '\x0c'
    } else if c == 'n' {
        '\n'
    } else if c == 'r' {
        '\r'
    } else if c == 't' {
        '\t'
    } else if c == 'v' {
        '\x0b'
    } else {
        '\0'
    }
}

/// The decoded form of `s`: each backslash and the character after it become
/// one character, a backslash at the very end becomes the digit `0`, and
/// every other character is kept.
pub open spec fn decoded(s: Seq<char>) -> Seq<char>
    decreases s.len(),
{
    if s.len() == 0 {
        Seq::empty()
    } else if s[0] == '\\' {
        if s.len() == 1 {
            seq!['0']
        } else {
            seq![escaped(s[1])] + decoded(s.skip(2))
        }
    } else {
        seq![s[0]] + decoded(s.skip(1))
    }
}

/// The character that a backslash followed by `c` stands for.
pub fn escape_char(c: char) -> (r: char)
    ensures
        r == escaped(c),
{
    match c {
        '\\' => '\\',
        'a' => '\x07',
        'b' => '\x08',
        'c' => '\x04',
        'e' => '\x1b',
        'f' => '\x0c',
        'n' => '\n',
        'r' => '\r',
        't' => '\t',
        'v' => '\x0b',
        _ => '\0',
    }
}

/// Appends the decoded form of `s` to `out`.
pub fn push_decoded(out: &mut String, s: &str)
    ensures
        final(out)@ == old(out)@ + decoded(s@),
{
    let mut chars = s.chars();
    loop
        invariant
            out@ + decoded(chars.remaining()) == old(out)@ + decoded(s@),
            chars.decrease() is Some,
        ensures
            out@ == old(out)@ + decoded(s@),
        decreases chars.decrease()->0,
    {
        let ghost rest = chars.remaining();
        match chars.next() {
            None => {
                assert(rest.len() == 0);
                assert(out@ =~= out@ + decoded(rest));
                break;
            },
            Some(c) => {
                if c == '\\' {
                    match chars.next() {
                        Some(e) => {
                            assert(rest.skip(2) =~= chars.remaining());
                            out.push(escape_char(e));
                        },
                        None => {
                            out.push('0');
                            assert(out@ =~= old(out)@ + decoded(s@));
                            break;
                        },
                    }
                } else {
                    out.push(c);
                }
                assert(out@ + decoded(chars.remaining()) =~= old(out)@ + decoded(s@));
            },
        }
    }
}

/// The decoded form of `s`.
pub fn decode_escapes(s: &str) -> (r: String)
    ensures
        r@ == decoded(s@),
{
    let mut out = String::new();
    push_decoded(&mut out, s);
    assert(out@ =~= decoded(s@));
    out
}

} // verus!
