//! Decimal numbers in configuration values.
//!
//! A number is an optional sign, `+` or `-`, followed by at least one decimal
//! digit and nothing else: no blanks, no separators. Its value has to fit the
//! type it is declared with.

use vstd::prelude::*;

verus! {

pub open spec fn is_digit(c: char) -> bool {
    '0' <= c && c <= '9'
}

pub open spec fn digit_value(c: char) -> int {
    c as int - '0' as int
}

/// Whether every character is a decimal digit.
pub open spec fn all_digits(text: Seq<char>) -> bool {
    forall|i: int| 0 <= i < text.len() ==> is_digit(#[trigger] text[i])
}

/// The number that a row of decimal digits spells.
pub open spec fn decimal_value(digits: Seq<char>) -> int
    decreases digits.len(),
{
    if digits.len() == 0 {
        0
    } else {
        decimal_value(digits.drop_last()) * 10 + digit_value(digits.last())
    }
}

/// The integer that a text spells, if it spells one.
pub open spec fn spec_parse_int(text: Seq<char>) -> Option<int> {
    if text.len() > 0 && (text[0] == '-' || text[0] == '+') {
        let digits = text.skip(1);
        if digits.len() > 0 && all_digits(digits) {
            Some(
                if text[0] == '-' {
                    -decimal_value(digits)
                } else {
                    decimal_value(digits)
                },
            )
        } else {
            None
        }
    } else if text.len() > 0 && all_digits(text) {
        Some(decimal_value(text))
    } else {
        None
    }
}

/// The 32-bit integer that a text spells, if it spells one that fits.
pub open spec fn spec_parse_i32(text: Seq<char>) -> Option<i32> {
    match spec_parse_int(text) {
        Some(value) => if i32::MIN <= value <= i32::MAX {
            Some(value as i32)
        } else {
            None
        },
        None => None,
    }
}

/// A row of digits spells no less than any of its beginnings.
pub proof fn lemma_decimal_value_grows(digits: Seq<char>, k: int)
    requires
        all_digits(digits),
        0 <= k <= digits.len(),
    ensures
        0 <= decimal_value(digits.take(k)) <= decimal_value(digits),
    decreases digits.len() - k,
{
    lemma_decimal_value_nonnegative(digits.take(k));
    if k < digits.len() {
        lemma_decimal_value_grows(digits, k + 1);
        let longer = digits.take(k + 1);
        assert(longer.drop_last() =~= digits.take(k));
        assert(is_digit(longer.last()));
    } else {
        assert(digits.take(k) =~= digits);
    }
}

pub proof fn lemma_decimal_value_nonnegative(digits: Seq<char>)
    requires
        all_digits(digits),
    ensures
        0 <= decimal_value(digits),
    decreases digits.len(),
{
    if digits.len() > 0 {
        assert(is_digit(digits.last()));
        lemma_decimal_value_nonnegative(digits.drop_last());
    }
}

/// Reads a 32-bit integer in decimal notation.
pub fn parse_i32(text: &str) -> (value: Option<i32>)
    ensures
        value == spec_parse_i32(text@),
{
    let n = text.unicode_len();
    if n == 0 {
        return None;
    }
    let first = text.get_char(0);
    let negative = first == '-';
    let signed = first == '-' || first == '+';
    let from: usize = if signed {
        1
    } else {
        0
    };
    if from == n {
        return None;
    }
    let ghost digits = text@.skip(from as int);
    assert(!signed ==> digits =~= text@);
    let mut acc: i64 = 0;
    let mut i: usize = from;
    assert(digits.take(0) =~= Seq::<char>::empty());
    while i < n
        invariant
            from <= i <= n,
            n == text@.len(),
            digits == text@.skip(from as int),
            !signed ==> digits == text@,
            signed ==> from == 1,
            signed == (text@[0] == '-' || text@[0] == '+'),
            negative == (text@[0] == '-'),
            digits.len() == n - from,
            all_digits(digits.take(i - from)),
            acc == decimal_value(digits.take(i - from)),
            0 <= acc <= 2147483648,
        decreases n - i,
    {
        let c = text.get_char(i);
        assert(digits[i - from] == c);
        if !(c >= '0' && c <= '9') {
            assert(!is_digit(digits[i - from]));
            assert(!all_digits(digits));
            return None;
        }
        let d: i64 = (c as u32 - '0' as u32) as i64;
        let ghost longer = digits.take(i - from + 1);
        assert(longer.drop_last() =~= digits.take(i - from));
        assert(longer.last() == c);
        assert(all_digits(longer)) by {
            assert forall|j: int| 0 <= j < longer.len() implies is_digit(#[trigger] longer[j]) by {
                if j < longer.len() - 1 {
                    assert(longer[j] == digits.take(i - from)[j]);
                }
            }
        }
        let next = acc * 10 + d;
        assert(next == decimal_value(longer));
        if next > 2147483648 {
            proof {
                if all_digits(digits) {
                    lemma_decimal_value_grows(digits, i - from + 1);
                }
            }
            return None;
        }
        acc = next;
        i += 1;
    }
    assert(digits.take(n - from) =~= digits);
    assert(all_digits(digits));
    if negative {
        Some((-acc) as i32)
    } else if acc > 2147483647 {
        None
    } else {
        Some(acc as i32)
    }
}

} // verus!
