//! Unsigned decimal numbers as they are written on a command line.
//!
//! A number is an optional `+` followed by one or more of the digits `0` to
//! `9`, and nothing else: no spaces, no separators, no other sign.

use vstd::prelude::*;
use vstd::string::*;
use vstd::utf8::is_ascii_chars;

verus! {

pub open spec fn is_digit(c: char) -> bool {
    '0' <= c <= '9'
}

/// The value of the digit `c`.
pub open spec fn digit_value(c: char) -> nat {
    (c as u32 - '0' as u32) as nat
}

pub open spec fn all_digits(text: Seq<char>) -> bool {
    forall|i: int| 0 <= i < text.len() ==> is_digit(#[trigger] text[i])
}

/// The value of a run of digits, the most significant first.
pub open spec fn digits_value(digits: Seq<char>) -> nat
    decreases digits.len(),
{
    if digits.len() == 0 {
        0
    } else {
        10 * digits_value(digits.drop_last()) + digit_value(digits.last())
    }
}

/// The part of `text` where the digits are to stand: all of it but a leading
/// `+`.
pub open spec fn unsigned_part(text: Seq<char>) -> Seq<char> {
    if text.len() > 0 && text[0] == '+' {
        text.skip(1)
    } else {
        text
    }
}

/// The number that `text` denotes, if it denotes one.
pub open spec fn decimal(text: Seq<char>) -> Option<nat> {
    let digits = unsigned_part(text);
    if digits.len() > 0 && all_digits(digits) {
        Some(digits_value(digits))
    } else {
        None
    }
}

/// The number that `text` denotes, if it denotes one that is at most `limit`.
pub open spec fn decimal_up_to(text: Seq<char>, limit: nat) -> Option<nat> {
    match decimal(text) {
        Some(value) => if value <= limit {
            Some(value)
        } else {
            None
        },
        None => None,
    }
}

/// A run of digits is worth at least as much as any of its beginnings.
pub proof fn longer_runs_are_worth_more(digits: Seq<char>, shorter: int)
    requires
        0 <= shorter <= digits.len(),
    ensures
        digits_value(digits.take(shorter)) <= digits_value(digits),
    decreases digits.len(),
{
    if shorter < digits.len() {
        longer_runs_are_worth_more(digits.drop_last(), shorter);
        assert(digits.drop_last().take(shorter) == digits.take(shorter));
    } else {
        assert(digits.take(shorter) == digits);
    }
}

/// Reads an unsigned decimal number that fits in 64 bits.
pub fn parse_decimal(text: &str) -> (value: Option<u64>)
    ensures
        (match value {
            Some(n) => decimal_up_to(text@, u64::MAX as nat) == Some(n as nat),
            None => decimal_up_to(text@, u64::MAX as nat) is None,
        }),
{
    if !text.is_ascii() {
        proof {
            let i = choose|i: int|
                0 <= i < text@.len() && !('\0' <= #[trigger] text@[i] <= '\u{7f}');
            let digits = unsigned_part(text@);
            if digits.len() == text@.len() {
                assert(!is_digit(digits[i]));
            } else {
                assert(text@[0] == '+');
                assert(!is_digit(digits[i - 1]));
            }
        }
        return None;
    }
    let bytes = text.as_bytes();
    proof {
        is_ascii_spec_bytes(text);
    }
    let n: usize = bytes.len();
    let start: usize = if n > 0 && bytes[0] == 43u8 {
        1
    } else {
        0
    };
    let ghost digits = unsigned_part(text@);
    assert(digits == text@.skip(start as int));
    if start == n {
        return None;
    }
    let mut i: usize = start;
    let mut total: u64 = 0;
    while i < n
        invariant
            n == bytes@.len(),
            n == text@.len(),
            start <= i <= n,
            start < n,
            digits == unsigned_part(text@),
            digits == text@.skip(start as int),
            is_ascii_chars(text@),
            forall|k: int| 0 <= k < n ==> bytes@[k] == #[trigger] text@[k] as u8,
            all_digits(digits.take(i - start)),
            total == digits_value(digits.take(i - start)),
        decreases n - i,
    {
        let byte: u8 = bytes[i];
        let ghost c = text@[i as int];
        assert(c == digits[i - start]);
        assert('\0' <= c <= '\u{7f}');
        if byte < 48u8 || byte > 57u8 {
            assert(!is_digit(c));
            return None;
        }
        assert(is_digit(c));
        let digit: u64 = (byte - 48u8) as u64;
        assert(digit == digit_value(c));
        assert(digits.take(i + 1 - start).drop_last() == digits.take(i - start));
        assert(digits.take(i + 1 - start).last() == c);
        if total > (u64::MAX - digit) / 10 {
            proof {
                if all_digits(digits) {
                    longer_runs_are_worth_more(digits, i + 1 - start);
                }
            }
            return None;
        }
        total = total * 10 + digit;
        i = i + 1;
    }
    assert(digits.take(i - start) == digits);
    Some(total)
}

/// Reads an unsigned decimal number that fits in a `usize`.
pub fn parse_size(text: &str) -> (value: Option<usize>)
    ensures
        (match value {
            Some(n) => decimal_up_to(text@, usize::MAX as nat) == Some(n as nat),
            None => decimal_up_to(text@, usize::MAX as nat) is None,
        }),
{
    match parse_decimal(text) {
        Some(n) => if n <= usize::MAX as u64 {
            Some(n as usize)
        } else {
            None
        },
        None => None,
    }
}

} // verus!
