//! Unsigned numbers written in decimal digits: reading them and writing them.

use vstd::prelude::*;
use crate::text::chars_of;

verus! {

/// One of the ten decimal digits.
pub open spec fn is_digit(c: char) -> bool {
    '0' <= c <= '9'
}

/// What a digit counts for; 0 for any other character.
pub open spec fn digit_value(c: char) -> nat {
    if is_digit(c) {
        (c as int - '0' as int) as nat
    } else {
        0
    }
}

/// The digit that stands for `d`, a number below ten.
pub open spec fn digit_char(d: nat) -> char
    recommends
        d < 10,
{
    (d + '0' as nat) as char
}

/// Whether `s` holds decimal digits and nothing else.
pub open spec fn all_digits(s: Seq<char>) -> bool {
    forall|i: int| 0 <= i < s.len() ==> is_digit(#[trigger] s[i])
}

/// The number that the digits of `s` write, the most significant first.
pub open spec fn digits_value(s: Seq<char>) -> nat
    decreases s.len(),
{
    if s.len() == 0 {
        0
    } else {
        10 * digits_value(s.drop_last()) + digit_value(s.last())
    }
}

/// The digits of `s` once a leading plus sign is taken off.
pub open spec fn unsigned_part(s: Seq<char>) -> Seq<char> {
    if s.len() > 0 && s[0] == '+' {
        s.skip(1)
    } else {
        s
    }
}

/// The number that `s` denotes, where it denotes one: `s` is one or more
/// decimal digits, with or without a plus sign before them. Nothing else is a
/// number: no minus sign, no white space, no empty text.
pub open spec fn decimal_value(s: Seq<char>) -> Option<nat> {
    let digits = unsigned_part(s);
    if digits.len() > 0 && all_digits(digits) {
        Some(digits_value(digits))
    } else {
        None
    }
}

/// The number that `s` denotes, where it denotes one that is at most `max`.
pub open spec fn decimal_within(s: Seq<char>, max: nat) -> Option<nat> {
    match decimal_value(s) {
        Some(v) => if v <= max {
            Some(v)
        } else {
            None
        },
        None => None,
    }
}

/// The number that `s` denotes where that is at most `max`, and 0 where it
/// is not.
pub open spec fn decimal_or_zero(s: Seq<char>, max: nat) -> nat {
    match decimal_within(s, max) {
        Some(v) => v,
        None => 0,
    }
}

/// How `n` is written in decimal digits, without a sign and with no zero in
/// front (but for the number 0 itself).
pub open spec fn decimal(n: nat) -> Seq<char>
    decreases n,
{
    if n < 10 {
        seq![digit_char(n)]
    } else {
        decimal(n / 10).push(digit_char(n % 10))
    }
}

/// More digits never write a smaller number.
pub proof fn lemma_digits_value_grows(s: Seq<char>, k: int)
    requires
        0 <= k <= s.len(),
    ensures
        digits_value(s.take(k)) <= digits_value(s),
    decreases s.len() - k,
{
    if k < s.len() {
        lemma_digits_value_grows(s, k + 1);
        assert(s.take(k + 1).drop_last() == s.take(k));
    } else {
        assert(s.take(k) == s);
    }
}

/// What `decimal` writes, `decimal_value` reads back.
pub proof fn lemma_decimal_reads_back(n: nat)
    ensures
        decimal_value(decimal(n)) == Some(n),
        decimal(n).len() > 0,
        all_digits(decimal(n)),
    decreases n,
{
    let s = decimal(n);
    if n < 10 {
        assert(s.drop_last() == Seq::<char>::empty());
        assert(digits_value(s.drop_last()) == 0);
    } else {
        lemma_decimal_reads_back(n / 10);
        assert(s.drop_last() == decimal(n / 10));
        assert(unsigned_part(decimal(n / 10)) == decimal(n / 10));
    }
    assert(is_digit(s[0]));
    assert(unsigned_part(s) == s);
}

/// Reads the digits `s[from..]` as a number that is at most `max`.
fn read_digits(s: &[char], from: usize, max: u64) -> (found: Option<u64>)
    requires
        from <= s@.len(),
    ensures
        ({
            let digits = s@.skip(from as int);
            if all_digits(digits) && digits_value(digits) <= max {
                found == Some(digits_value(digits) as u64)
            } else {
                found is None
            }
        }),
{
    let ghost digits = s@.skip(from as int);
    let mut value: u64 = 0;
    let mut i: usize = from;
    while i < s.len()
        invariant
            from <= i <= s@.len(),
            digits == s@.skip(from as int),
            all_digits(digits.take(i - from)),
            value == digits_value(digits.take(i - from)),
            value <= max,
        decreases s@.len() - i,
    {
        let c = s[i];
        if !('0' <= c && c <= '9') {
            assert(!is_digit(digits[i - from]));
            return None;
        }
        let d: u64 = (c as u32 - '0' as u32) as u64;
        proof {
            assert(digits.take(i - from + 1).drop_last() == digits.take(i - from));
            assert(digits.take(i - from + 1).last() == c);
            lemma_digits_value_grows(digits, i - from + 1);
        }
        if d > max || value > (max - d) / 10 {
            return None;
        }
        value = value * 10 + d;
        i += 1;
    }
    assert(digits.take(i - from) == digits);
    Some(value)
}

/// Reads `s` as a number that is at most `max`.
pub fn read_decimal(s: &[char], max: u64) -> (found: Option<u64>)
    ensures
        match decimal_within(s@, max as nat) {
            Some(v) => found == Some(v as u64),
            None => found is None,
        },
{
    let from: usize = if s.len() > 0 && s[0] == '+' {
        1
    } else {
        0
    };
    if from == s.len() {
        return None;
    }
    assert(s@.skip(from as int) == unsigned_part(s@));
    read_digits(s, from, max)
}

/// Reads `text` as a `u32`: one or more decimal digits, with or without a
/// plus sign before them, that write a number within the type's range.
pub fn parse_u32(text: &str) -> (found: Option<u32>)
    ensures
        match decimal_within(text@, u32::MAX as nat) {
            Some(v) => found == Some(v as u32),
            None => found is None,
        },
{
    let chars = chars_of(text);
    match read_decimal(chars.as_slice(), 0xffff_ffff) {
        Some(v) => Some(v as u32),
        None => None,
    }
}

/// Reads `text` as a `u64`: one or more decimal digits, with or without a
/// plus sign before them, that write a number within the type's range.
pub fn parse_u64(text: &str) -> (found: Option<u64>)
    ensures
        match decimal_within(text@, u64::MAX as nat) {
            Some(v) => found == Some(v as u64),
            None => found is None,
        },
{
    let chars = chars_of(text);
    read_decimal(chars.as_slice(), u64::MAX)
}

/// Appends to `text` the decimal digits of `n`.
pub fn push_decimal(text: &mut String, n: u32)
    ensures
        final(text)@ == old(text)@ + decimal(n as nat),
    decreases n,
{
    if n >= 10 {
        push_decimal(text, n / 10);
    }
    let d: u8 = (n % 10) as u8;
    text.push((48u8 + d) as char);
}

} // verus!
