//! The parsers for the parts of a roll, each held to the grammar.

use vstd::prelude::*;
use crate::error::RollError;
use crate::grammar::{
    all_digits, decimal_value, digit_run, digit_value, modifier, number, operator, simple_roll,
    Sign, SEPARATOR,
};
use crate::tokens::{char_token, digit1, is_digit, tag};

verus! {

/// A text that splits into digits and a rest that starts with no digit has
/// exactly those digits as its run of digits.
pub proof fn lemma_digit_run_of_split(digits: Seq<char>, rest: Seq<char>)
    requires
        all_digits(digits),
        rest.len() > 0 ==> !is_digit(rest[0]),
    ensures
        digit_run(digits + rest) == digits.len(),
        (digits + rest).take(digits.len() as int) == digits,
        (digits + rest).skip(digits.len() as int) == rest,
    decreases digits.len(),
{
    let s = digits + rest;
    assert(s.take(digits.len() as int) == digits);
    assert(s.skip(digits.len() as int) == rest);
    if digits.len() > 0 {
        assert(s[0] == digits[0]);
        assert(s.skip(1) == digits.skip(1) + rest);
        lemma_digit_run_of_split(digits.skip(1), rest);
    } else {
        assert(s == rest);
    }
}

/// Digits that are added behind a number do not make it smaller.
pub proof fn lemma_decimal_value_grows(digits: Seq<char>, k: int)
    requires
        0 <= k <= digits.len(),
    ensures
        decimal_value(digits.take(k)) <= decimal_value(digits),
    decreases digits.len(),
{
    if k == digits.len() {
        assert(digits.take(k) == digits);
    } else {
        assert(digits.drop_last().take(k) == digits.take(k));
        lemma_decimal_value_grows(digits.drop_last(), k);
    }
}

/// A text starts with a pattern of one character exactly where its first
/// character is that one.
pub proof fn lemma_prefix_of_one(pattern: Seq<char>, s: Seq<char>)
    requires
        pattern.len() == 1,
    ensures
        pattern.is_prefix_of(s) <==> s.len() > 0 && s[0] == pattern[0],
{
    if s.len() > 0 {
        assert(s.subrange(0, 1)[0] == s[0]);
        if s[0] == pattern[0] {
            assert(pattern =~= s.subrange(0, 1));
        }
    }
}

/// Reads the decimal digits `digits` as a number of sixteen bits, if their
/// value fits in one.
fn digits_to_u16(digits: &str) -> (value: Option<u16>)
    requires
        all_digits(digits@),
    ensures
        value == if decimal_value(digits@) <= u16::MAX {
            Some(decimal_value(digits@) as u16)
        } else {
            None
        },
{
    let mut value: u32 = 0;
    for c in it: digits.chars()
        invariant
            it.seq() == digits@,
            all_digits(digits@),
            value == decimal_value(digits@.take(it.index())),
            value <= u16::MAX,
    {
        proof {
            let before = digits@.take(it.index());
            let now = digits@.take(it.index() + 1);
            assert(now.drop_last() == before);
            assert(now.last() == c);
            assert(is_digit(digits@[it.index()]));
            lemma_decimal_value_grows(digits@, it.index() + 1);
        }
        let digit: u32 = c as u32 - '0' as u32;
        assert(digit == digit_value(c));
        let next: u32 = value * 10 + digit;
        if next > 65535 {
            return None;
        }
        value = next;
    }
    proof {
        assert(digits@.take(digits@.len() as int) == digits@);
    }
    Some(value as u16)
}

/// Parses a number of sixteen bits from the start of `input`, and hands
/// back what follows it together with the number.
pub fn parse_numbers<'a>(input: &'a str) -> (r: Result<(&'a str, u16), RollError>)
    ensures
        match r {
            Ok((rest, value)) => number(input@) == Some((value, rest@)),
            Err(e) => e == RollError::ParsingError && number(input@) is None,
        },
{
    let (rest, digits) = match digit1(input) {
        Ok(found) => found,
        Err(_) => {
            return Err(RollError::ParsingError);
        },
    };
    proof {
        lemma_digit_run_of_split(digits@, rest@);
    }
    match digits_to_u16(digits) {
        Some(value) => Ok((rest, value)),
        None => Err(RollError::ParsingError),
    }
}

/// Parses the number of dice and the die type from the start of a roll
/// such as `4d20`, and hands back what follows them together with the two
/// numbers, the number of dice first.
pub fn parse_simple_roll<'a>(s: &'a str) -> (r: Result<(&'a str, (u16, u16)), RollError>)
    ensures
        match r {
            Ok((rest, pair)) => simple_roll(s@) == Some((pair, rest@)),
            Err(e) => e == RollError::ParsingError && simple_roll(s@) is None,
        },
{
    let (after_dice, number_of_dice) = parse_numbers(s)?;
    let after_separator = match char_token(SEPARATOR, after_dice) {
        Ok((rest, _)) => rest,
        Err(_) => {
            return Err(RollError::ParsingError);
        },
    };
    let (rest, number_of_sides) = parse_numbers(after_separator)?;
    Ok((rest, (number_of_dice, number_of_sides)))
}

/// Looks for the sign of a modifier at the start of `s`, and hands back
/// what follows it together with the sign. Where there is no sign, all of
/// `s` is handed back.
pub fn parse_operator<'a>(s: &'a str) -> (r: (&'a str, Sign))
    ensures
        operator(s@) == (r.1, r.0@),
{
    proof {
        reveal_strlit("+");
        reveal_strlit("-");
        lemma_prefix_of_one("+"@, s@);
        lemma_prefix_of_one("-"@, s@);
    }
    match tag("+", s) {
        Ok((rest, _)) => (rest, Sign::Plus),
        Err(_) => match tag("-", s) {
            Ok((rest, _)) => (rest, Sign::Minus),
            Err(_) => (s, Sign::Absent),
        },
    }
}

/// Parses the modifier of a roll, such as `+5`, from the start of `s`, and
/// hands back what follows it together with the modifier. Text that starts
/// with no sign gives the modifier zero and is handed back whole.
pub fn parse_modifier<'a>(s: &'a str) -> (r: Result<(&'a str, i32), RollError>)
    ensures
        match r {
            Ok((rest, value)) => modifier(s@) == Some((value, rest@)),
            Err(e) => e == RollError::ParsingError && modifier(s@) is None,
        },
{
    let (after_sign, sign) = parse_operator(s);
    match sign {
        Sign::Absent => Ok((after_sign, 0)),
        Sign::Plus => {
            let (rest, magnitude) = parse_numbers(after_sign)?;
            Ok((rest, magnitude as i32))
        },
        Sign::Minus => {
            let (rest, magnitude) = parse_numbers(after_sign)?;
            Ok((rest, -(magnitude as i32)))
        },
    }
}

} // verus!
