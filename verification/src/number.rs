//! Numeric fields as they are written in a beatmap file.

use vstd::prelude::*;

verus! {

/// Whether `c` is one of the decimal digits `0` to `9`.
pub open spec fn is_digit(c: char) -> bool {
    '0' <= c <= '9'
}

/// The number that a decimal digit stands for.
pub open spec fn digit_value(c: char) -> int {
    c as int - '0' as int
}

/// Whether `s` holds decimal digits only.
pub open spec fn all_digits(s: Seq<char>) -> bool {
    forall|i: int| 0 <= i < s.len() ==> is_digit(#[trigger] s[i])
}

/// The number that a sequence of decimal digits stands for, read in base ten;
/// the empty sequence stands for zero.
pub open spec fn decimal_value(s: Seq<char>) -> int
    decreases s.len(),
{
    if s.len() == 0 {
        0
    } else {
        decimal_value(s.drop_last()) * 10 + digit_value(s.last())
    }
}

/// The integer that `s` spells: an optional sign `+` or `-`, then one or more
/// decimal digits and nothing else, with a value that fits in 32 bits.
/// `None` for every other sequence.
pub open spec fn int_of(s: Seq<char>) -> Option<int> {
    let signed = s.len() > 0 && (s[0] == '-' || s[0] == '+');
    let digits = if signed {
        s.skip(1)
    } else {
        s
    };
    let value = if signed && s[0] == '-' {
        -decimal_value(digits)
    } else {
        decimal_value(digits)
    };
    if digits.len() > 0 && all_digits(digits) && i32::MIN <= value <= i32::MAX {
        Some(value)
    } else {
        None
    }
}

/// The integer that `s` spells, or zero where it spells none.
pub open spec fn int_or_zero(s: Seq<char>) -> int {
    match int_of(s) {
        Some(value) => value,
        None => 0,
    }
}

/// A stored `0`/`1` integer read as a flag: only `1` is `true`.
pub open spec fn flag_of(num: int) -> bool {
    num == 1
}

/// The value of a digit sequence is not negative, and not less than the
/// value of any of its prefixes.
pub proof fn lemma_decimal_value_grows(s: Seq<char>, n: int)
    requires
        all_digits(s),
        0 <= n <= s.len(),
    ensures
        0 <= decimal_value(s.take(n)) <= decimal_value(s),
    decreases s.len() - n,
{
    if n == s.len() {
        assert(s.take(n) =~= s);
        lemma_decimal_value_nonnegative(s);
    } else {
        lemma_decimal_value_grows(s, n + 1);
        let longer = s.take(n + 1);
        assert(longer.drop_last() =~= s.take(n));
        assert(is_digit(s[n]));
        assert(longer.last() == s[n]);
        lemma_decimal_value_nonnegative(s.take(n));
    }
}

/// The value of a digit sequence is not negative.
pub proof fn lemma_decimal_value_nonnegative(s: Seq<char>)
    requires
        all_digits(s),
    ensures
        0 <= decimal_value(s),
    decreases s.len(),
{
    if s.len() > 0 {
        assert(is_digit(s.last()));
        lemma_decimal_value_nonnegative(s.drop_last());
    }
}

/// Reads the integer that `s` spells.
pub fn parse_i32(s: &[char]) -> (parsed: Option<i32>)
    ensures
        match parsed {
            Some(value) => int_of(s@) == Some(value as int),
            None => int_of(s@) is None,
        },
{
    let signed = s.len() > 0 && (s[0] == '-' || s[0] == '+');
    let negative = signed && s[0] == '-';
    let start: usize = if signed {
        1
    } else {
        0
    };
    if start == s.len() {
        return None;
    }
    let ghost digits = s@.skip(start as int);
    proof {
        assert(s@.skip(0) =~= s@);
    }
    let mut total: i64 = 0;
    let mut i: usize = start;
    while i < s.len()
        invariant
            start <= i <= s.len(),
            signed == (s@.len() > 0 && (s@[0] == '-' || s@[0] == '+')),
            negative == (signed && s@[0] == '-'),
            start == if signed { 1int } else { 0int },
            digits == if signed { s@.skip(1) } else { s@ },
            digits.len() == s.len() - start,
            digits.len() > 0,
            all_digits(digits.take(i - start)),
            total == decimal_value(digits.take(i - start)),
            0 <= total <= 0x8000_0000,
        decreases s.len() - i,
    {
        let c = s[i];
        proof {
            assert(digits.take(i - start + 1).drop_last() =~= digits.take(i - start));
            assert(digits.take(i - start + 1).last() == c);
        }
        if !('0' <= c && c <= '9') {
            proof {
                assert(!is_digit(digits[i - start]));
            }
            return None;
        }
        let digit: i64 = (c as u32 - '0' as u32) as i64;
        total = total * 10 + digit;
        i += 1;
        assert(total == decimal_value(digits.take(i - start)));
        if total > 0x8000_0000 {
            proof {
                if all_digits(digits) {
                    lemma_decimal_value_grows(digits, i - start);
                }
            }
            return None;
        }
    }
    proof {
        assert(digits.take(i - start) =~= digits);
    }
    if negative {
        Some((-total) as i32)
    } else if total == 0x8000_0000 {
        None
    } else {
        Some(total as i32)
    }
}

/// Reads the integer that `s` spells, and zero where it spells none.
pub fn parse_i32_or_zero(s: &[char]) -> (value: i32)
    ensures
        value == int_or_zero(s@),
{
    match parse_i32(s) {
        Some(value) => value,
        None => 0,
    }
}

/// Reads a stored `0`/`1` integer as a flag: only `1` is `true`.
pub fn int_to_bool(num: i32) -> (flag: bool)
    ensures
        flag == flag_of(num as int),
{
    num == 1
}

} // verus!
