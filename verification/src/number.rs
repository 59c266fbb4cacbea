//! Reading an unsigned decimal number from text.
//!
//! A number is an optional `+` followed by one or more ASCII digits, with
//! nothing before, between or after them. Leading zeros are allowed. A
//! number too large for the integer type is not a number at all.

use vstd::prelude::*;
use vstd::string::*;
use vstd::utf8::*;

verus! {

/// Whether `c` is one of `0` to `9`.
pub open spec fn is_digit(c: char) -> bool {
    '0' <= c <= '9'
}

/// The value of a digit.
pub open spec fn digit_value(c: char) -> nat {
    (c as u32 - '0' as u32) as nat
}

/// Whether `text` is made of digits only.
pub open spec fn all_digits(text: Seq<char>) -> bool {
    forall|i: int| 0 <= i < text.len() ==> is_digit(#[trigger] text[i])
}

/// The number that a run of digits denotes in base ten; zero for no digits.
pub open spec fn decimal_value(digits: Seq<char>) -> nat
    decreases digits.len(),
{
    if digits.len() == 0 {
        0
    } else {
        10 * decimal_value(digits.drop_last()) + digit_value(digits.last())
    }
}

/// `text` without its leading `+`, if it has one.
pub open spec fn unsigned_part(text: Seq<char>) -> Seq<char> {
    if text.len() > 0 && text[0] == '+' {
        text.subrange(1, text.len() as int)
    } else {
        text
    }
}

/// The `u32` that `text` denotes, if it denotes one.
pub open spec fn parsed_u32(text: Seq<char>) -> Option<u32> {
    let digits = unsigned_part(text);
    if digits.len() > 0 && all_digits(digits) && decimal_value(digits) <= u32::MAX {
        Some(decimal_value(digits) as u32)
    } else {
        None
    }
}

/// Reading more digits never makes the number smaller.
proof fn lemma_prefix_value(digits: Seq<char>, k: int)
    requires
        0 <= k <= digits.len(),
    ensures
        decimal_value(digits.subrange(0, k)) <= decimal_value(digits),
    decreases digits.len(),
{
    if k == digits.len() {
        assert(digits.subrange(0, k) =~= digits);
    } else {
        lemma_prefix_value(digits.drop_last(), k);
        assert(digits.drop_last().subrange(0, k) =~= digits.subrange(0, k));
    }
}

/// The value of the first `k + 1` digits, from that of the first `k`.
proof fn lemma_next_digit(digits: Seq<char>, k: int)
    requires
        0 <= k < digits.len(),
    ensures
        decimal_value(digits.subrange(0, k + 1)) == 10 * decimal_value(digits.subrange(0, k))
            + digit_value(digits[k]),
{
    assert(digits.subrange(0, k + 1).drop_last() =~= digits.subrange(0, k));
}

/// Text with a character outside ASCII holds something that is no digit.
proof fn lemma_not_ascii_not_number(text: Seq<char>)
    requires
        !is_ascii_chars(text),
    ensures
        parsed_u32(text) is None,
{
    let digits = unsigned_part(text);
    if all_digits(digits) {
        assert forall|i: int| 0 <= i < text.len() implies '\0' <= #[trigger] text[i] <= '\u{7f}' by {
            if digits.len() == text.len() {
                assert(is_digit(digits[i]));
            } else if i > 0 {
                assert(is_digit(digits[i - 1]));
            }
        }
    }
}

/// Reads `text` as a `u32`.
pub fn parse_u32(text: &str) -> (parsed: Option<u32>)
    ensures
        parsed == parsed_u32(text@),
{
    if !text.is_ascii() {
        proof {
            lemma_not_ascii_not_number(text@);
        }
        return None;
    }
    proof {
        is_ascii_spec_bytes(text);
    }
    let bytes = text.as_bytes();
    let n = bytes.len();
    let start: usize = if n > 0 && bytes[0] == 0x2b {
        1
    } else {
        0
    };
    let ghost digits = unsigned_part(text@);
    assert(digits =~= text@.subrange(start as int, n as int));
    if start == n {
        return None;
    }
    let mut value: u32 = 0;
    let mut i = start;
    while i < n
        invariant
            start <= i <= n,
            n == text@.len(),
            bytes@.len() == n,
            forall|j: int| 0 <= j < n ==> #[trigger] bytes@[j] == text@[j] as u8,
            forall|j: int| 0 <= j < n ==> '\0' <= #[trigger] text@[j] <= '\u{7f}',
            digits == unsigned_part(text@),
            digits == text@.subrange(start as int, n as int),
            all_digits(digits.subrange(0, i - start)),
            value == decimal_value(digits.subrange(0, i - start)),
        decreases n - i,
    {
        let byte = bytes[i];
        let ghost k = i - start;
        proof {
            lemma_next_digit(digits, k);
            lemma_prefix_value(digits, k + 1);
            assert(digits[k] == text@[i as int]);
        }
        if byte < 0x30 || byte > 0x39 {
            assert(!is_digit(digits[k]));
            return None;
        }
        let digit = (byte - 0x30) as u32;
        assert(digit == digit_value(digits[k]));
        let tens = match value.checked_mul(10) {
            Some(tens) => tens,
            None => { return None; },
        };
        value = match tens.checked_add(digit) {
            Some(sum) => sum,
            None => { return None; },
        };
        i = i + 1;
        assert forall|j: int| 0 <= j < i - start implies is_digit(
            #[trigger] digits.subrange(0, i - start)[j],
        ) by {
            if j < k {
                assert(is_digit(digits.subrange(0, k)[j]));
            }
        }
    }
    assert(digits.subrange(0, i - start) =~= digits);
    Some(value)
}

} // verus!
