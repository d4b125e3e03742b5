//! Decimal text of integers, read and written.

use vstd::prelude::*;

verus! {

/// Whether `c` is one of `0` … `9`.
pub open spec fn is_digit(c: char) -> bool {
    '0' <= c <= '9'
}

/// The value of a decimal digit; 0 for any other character.
pub open spec fn digit_value(c: char) -> nat {
    if is_digit(c) {
        (c as u32 - '0' as u32) as nat
    } else {
        0
    }
}

/// The digit that stands for `d`, for `d < 10`.
pub open spec fn digit_char(d: nat) -> char {
    if d == 0 {
        '0'
    } else if d == 1 {
        '1'
    } else if d == 2 {
        '2'
    } else if d == 3 {
        '3'
    } else if d == 4 {
        '4'
    } else if d == 5 {
        '5'
    } else if d == 6 {
        '6'
    } else if d == 7 {
        '7'
    } else if d == 8 {
        '8'
    } else {
        '9'
    }
}

/// Whether every character of `s` is a decimal digit.
pub open spec fn all_digits(s: Seq<char>) -> bool {
    forall|i: int| 0 <= i < s.len() ==> is_digit(#[trigger] s[i])
}

/// The number that the digits of `s` write in base ten.
pub open spec fn decimal_value(s: Seq<char>) -> nat
    decreases s.len(),
{
    if s.len() == 0 {
        0
    } else {
        decimal_value(s.drop_last()) * 10 + digit_value(s.last())
    }
}

/// What the text of an unsigned integer no greater than `max` parses to: an
/// optional `+`, then at least one digit, then nothing; `None` where the text
/// is anything else or the number is greater than `max`.
pub open spec fn parse_unsigned(s: Seq<char>, max: nat) -> Option<nat> {
    let body = if s.len() > 0 && s[0] == '+' {
        s.drop_first()
    } else {
        s
    };
    if body.len() > 0 && all_digits(body) && decimal_value(body) <= max {
        Some(decimal_value(body))
    } else {
        None
    }
}

/// What the text of an unsigned 32-bit integer parses to.
pub open spec fn parse_u32(s: Seq<char>) -> Option<u32> {
    match parse_unsigned(s, u32::MAX as nat) {
        Some(n) => Some(n as u32),
        None => None,
    }
}

/// What the text of an unsigned 64-bit integer parses to.
pub open spec fn parse_u64(s: Seq<char>) -> Option<u64> {
    match parse_unsigned(s, u64::MAX as nat) {
        Some(n) => Some(n as u64),
        None => None,
    }
}

/// The shortest decimal text of `n`.
pub open spec fn decimal_text(n: nat) -> Seq<char>
    decreases n,
{
    if n < 10 {
        seq![digit_char(n)]
    } else {
        decimal_text(n / 10).push(digit_char(n % 10))
    }
}

/// The decimal text of a signed integer: a `-` before the digits of a
/// negative one.
pub open spec fn signed_decimal_text(i: int) -> Seq<char> {
    if i < 0 {
        seq!['-'] + decimal_text((-i) as nat)
    } else {
        decimal_text(i as nat)
    }
}

/// The last two decimal digits of `n`, the tens first.
pub open spec fn two_digits(n: nat) -> Seq<char> {
    seq![digit_char((n / 10) % 10), digit_char(n % 10)]
}

/// The last `width` decimal digits of `n`, the highest first, with zeros
/// where `n` has fewer.
pub open spec fn padded_decimal(n: nat, width: nat) -> Seq<char>
    decreases width,
{
    if width == 0 {
        Seq::empty()
    } else {
        padded_decimal(n / 10, (width - 1) as nat).push(digit_char(n % 10))
    }
}

/// A longer prefix of a digit string never writes a smaller number.
pub proof fn lemma_decimal_value_grows(s: Seq<char>, k: int)
    requires
        0 <= k <= s.len(),
    ensures
        decimal_value(s.take(k)) <= decimal_value(s),
    decreases s.len() - k,
{
    if k == s.len() {
        assert(s.take(k) == s);
    } else {
        lemma_decimal_value_grows(s, k + 1);
        assert(s.take(k + 1).drop_last() == s.take(k));
    }
}

/// The decimal text of a number is made of digits, at least one, and writes
/// that number: it parses back to it under any limit that the number meets.
pub proof fn lemma_decimal_text_parses_back(n: nat, max: nat)
    requires
        n <= max,
    ensures
        decimal_text(n).len() > 0,
        all_digits(decimal_text(n)),
        decimal_value(decimal_text(n)) == n,
        parse_unsigned(decimal_text(n), max) == Some(n),
    decreases n,
{
    let text = decimal_text(n);
    let last = digit_char(n % 10);
    assert(is_digit(last) && digit_value(last) == n % 10);
    if n < 10 {
        assert(text == seq![last]);
        assert(text.drop_last() == Seq::<char>::empty());
        assert(text.last() == last);
        assert(decimal_value(text.drop_last()) == 0);
    } else {
        lemma_decimal_text_parses_back(n / 10, max);
        let front = decimal_text(n / 10);
        assert(text == front.push(last));
        assert(text.drop_last() == front);
        assert(text.last() == last);
        assert forall|i: int| 0 <= i < text.len() implies is_digit(#[trigger] text[i]) by {
            if i < front.len() {
                assert(text[i] == front[i]);
            }
        }
    }
    assert(text[0] != '+');
}

/// Executable form of [`digit_char`].
pub fn digit_to_char(d: u8) -> (c: char)
    requires
        d < 10,
    ensures
        c == digit_char(d as nat),
        is_digit(c),
        digit_value(c) == d,
{
    match d {
        0 => '0',
        1 => '1',
        2 => '2',
        3 => '3',
        4 => '4',
        5 => '5',
        6 => '6',
        7 => '7',
        8 => '8',
        _ => '9',
    }
}

/// Executable form of [`digit_value`], `None` for a character that is no digit.
pub fn char_to_digit(c: char) -> (d: Option<u8>)
    ensures
        match d {
            Some(v) => is_digit(c) && v == digit_value(c) && v < 10,
            None => !is_digit(c),
        },
{
    if '0' <= c && c <= '9' {
        Some((c as u32 - '0' as u32) as u8)
    } else {
        None
    }
}

/// Appends the decimal text of `n` to `out`.
pub fn push_decimal(out: &mut Vec<char>, n: u64)
    ensures
        final(out)@ == old(out)@ + decimal_text(n as nat),
    decreases n,
{
    if n >= 10 {
        push_decimal(out, n / 10);
    }
    out.push(digit_to_char((n % 10) as u8));
}

/// Appends the decimal text of the signed integer `i` to `out`.
pub fn push_signed_decimal(out: &mut Vec<char>, i: i64)
    ensures
        final(out)@ == old(out)@ + signed_decimal_text(i as int),
{
    if i < 0 {
        out.push('-');
        let magnitude: u64 = (-(i + 1)) as u64 + 1;
        push_decimal(out, magnitude);
    } else {
        push_decimal(out, i as u64);
    }
}

/// Appends the last two decimal digits of `n` to `out`.
pub fn push_two_digits(out: &mut Vec<char>, n: u32)
    ensures
        final(out)@ == old(out)@ + two_digits(n as nat),
{
    out.push(digit_to_char(((n / 10) % 10) as u8));
    out.push(digit_to_char((n % 10) as u8));
}

/// Appends the last `width` decimal digits of `n` to `out`.
pub fn push_padded_decimal(out: &mut Vec<char>, n: u32, width: u8)
    ensures
        final(out)@ == old(out)@ + padded_decimal(n as nat, width as nat),
    decreases width,
{
    if width > 0 {
        push_padded_decimal(out, n / 10, width - 1);
        out.push(digit_to_char((n % 10) as u8));
    }
}

/// Executable form of [`parse_unsigned`].
pub fn parse_unsigned_chars(s: &Vec<char>, max: u64) -> (r: Option<u64>)
    ensures
        match r {
            Some(n) => parse_unsigned(s@, max as nat) == Some(n as nat),
            None => parse_unsigned(s@, max as nat) is None,
        },
{
    let start: usize = if s.len() > 0 && s[0] == '+' {
        1
    } else {
        0
    };
    let ghost body = s@.skip(start as int);
    proof {
        assert(s@.skip(0) == s@);
        assert(s@.skip(1) == s@.drop_first());
    }
    if start == s.len() {
        return None;
    }
    let mut acc: u128 = 0;
    let mut i: usize = start;
    while i < s.len()
        invariant
            start <= i <= s.len(),
            body == s@.skip(start as int),
            parse_unsigned(s@, max as nat) == (if body.len() > 0 && all_digits(body)
                && decimal_value(body) <= max {
                Some(decimal_value(body))
            } else {
                None
            }),
            acc == decimal_value(body.take(i - start)),
            acc <= max,
            all_digits(body.take(i - start)),
        decreases s.len() - i,
    {
        let ghost prefix = body.take(i + 1 - start);
        match char_to_digit(s[i]) {
            None => {
                assert(!is_digit(body[i - start]));
                return None;
            },
            Some(d) => {
                proof {
                    assert(prefix.drop_last() == body.take(i - start));
                    assert(prefix.last() == s@[i as int]);
                }
                acc = acc * 10 + d as u128;
                if acc > max as u128 {
                    proof {
                        lemma_decimal_value_grows(body, i + 1 - start);
                    }
                    return None;
                }
            },
        }
        i += 1;
    }
    proof {
        assert(body.take(body.len() as int) == body);
    }
    Some(acc as u64)
}

/// Executable form of [`parse_u32`].
pub fn parse_u32_chars(s: &Vec<char>) -> (r: Option<u32>)
    ensures
        r == parse_u32(s@),
{
    match parse_unsigned_chars(s, 0xFFFF_FFFF) {
        Some(n) => Some(n as u32),
        None => None,
    }
}

/// Executable form of [`parse_u64`].
pub fn parse_u64_chars(s: &Vec<char>) -> (r: Option<u64>)
    ensures
        r == parse_u64(s@),
{
    parse_unsigned_chars(s, 0xFFFF_FFFF_FFFF_FFFF)
}

} // verus!
