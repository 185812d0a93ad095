//! Numbers as they are written on a command line: decimal, or hexadecimal
//! after `0x`, or binary after `0b`.

use vstd::prelude::*;

verus! {

/// The value of a character as a digit in a radix: `0-9`, then `a-z` or
/// `A-Z` for ten and up; `None` where it is no digit below the radix.
pub open spec fn digit_of(c: char, radix: u32) -> Option<nat> {
    let code = c as u32;
    let value: int = if '0' as u32 <= code && code <= '9' as u32 {
        code - '0' as u32
    } else if 'a' as u32 <= code && code <= 'z' as u32 {
        code - 'a' as u32 + 10
    } else if 'A' as u32 <= code && code <= 'Z' as u32 {
        code - 'A' as u32 + 10
    } else {
        -1
    };
    if 0 <= value && value < radix {
        Some(value as nat)
    } else {
        None
    }
}

/// The number that a run of digits writes in a radix, the first digit
/// weighing most; `None` where a character is no digit.
pub open spec fn digits_value(digits: Seq<char>, radix: u32) -> Option<nat>
    decreases digits.len(),
{
    if digits.len() == 0 {
        Some(0)
    } else {
        match (digits_value(digits.drop_last(), radix), digit_of(digits.last(), radix)) {
            (Some(high), Some(low)) => Some(high * (radix as nat) + low),
            _ => None,
        }
    }
}

/// The number that a text writes in a radix: an optional `+`, then one digit
/// or more and nothing else, for a number that the machine's word holds.
pub open spec fn number_in_radix(text: Seq<char>, radix: u32) -> Option<usize> {
    let digits = if text.len() > 0 && text[0] == '+' {
        text.drop_first()
    } else {
        text
    };
    if digits.len() == 0 {
        None
    } else {
        match digits_value(digits, radix) {
            Some(value) => if value <= usize::MAX {
                Some(value as usize)
            } else {
                None
            },
            None => None,
        }
    }
}

/// Whether a text starts with `0` and the given letter.
pub open spec fn has_radix_mark(text: Seq<char>, letter: char) -> bool {
    text.len() >= 2 && text[0] == '0' && text[1] == letter
}

/// The number that a text writes: hexadecimal after `0x`, binary after
/// `0b`, decimal otherwise.
pub open spec fn usize_literal(text: Seq<char>) -> Option<usize> {
    if has_radix_mark(text, 'x') {
        number_in_radix(text.skip(2), 16)
    } else if has_radix_mark(text, 'b') {
        number_in_radix(text.skip(2), 2)
    } else {
        number_in_radix(text, 10)
    }
}

/// Calls `usize::from_str_radix`. Trusted, after its documentation: the text
/// is an optional `+` followed by digits only, of which there is at least
/// one; the digits are `0-9`, `a-z` and `A-Z` as far as the radix reaches;
/// a number too large for `usize` is an error like any other.
#[verifier::external_body]
pub(crate) fn from_str_radix(text: &str, radix: u32) -> (r: Option<usize>)
    requires
        2 <= radix <= 36,
    ensures
        r == number_in_radix(text@, radix),
{
    usize::from_str_radix(text, radix).ok()
}

/// Reads a number from a command-line argument: hexadecimal after `0x`,
/// binary after `0b`, decimal otherwise. `None` where the text writes no
/// number that fits.
pub fn parse_usize(s: &str) -> (r: Option<usize>)
    ensures
        r == usize_literal(s@),
{
    let len = s.unicode_len();
    if len >= 2 && s.get_char(0) == '0' && s.get_char(1) == 'x' {
        let digits = s.substring_char(2, len);
        assert(digits@ =~= s@.skip(2));
        from_str_radix(digits, 16)
    } else if len >= 2 && s.get_char(0) == '0' && s.get_char(1) == 'b' {
        let digits = s.substring_char(2, len);
        assert(digits@ =~= s@.skip(2));
        from_str_radix(digits, 2)
    } else {
        from_str_radix(s, 10)
    }
}

} // verus!
