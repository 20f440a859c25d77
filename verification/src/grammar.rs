//! The notation, stated over sequences of characters.
//!
//! ```text
//! roll     := number 'd' number [ sign number ] trailing
//! number   := one or more decimal digits, with a value of at most 65535
//! sign     := '+' | '-'
//! trailing := whatever follows; it is not looked at
//! ```
//!
//! Whitespace is taken out of the text before the grammar is applied, so it
//! may stand anywhere, inside a number too.

use vstd::prelude::*;
use crate::error::RollError;
use crate::roll::Roll;
use crate::tokens::is_digit;
use crate::whitespace::strip_whitespace;

verus! {

/// The character that stands between the number of dice and the die type.
pub const SEPARATOR: char = 'd';

/// How many decimal digits `s` starts with.
pub open spec fn digit_run(s: Seq<char>) -> nat
    decreases s.len(),
{
    if s.len() > 0 && is_digit(s[0]) {
        1 + digit_run(s.skip(1))
    } else {
        0
    }
}

/// Whether `s` holds decimal digits only.
pub open spec fn all_digits(s: Seq<char>) -> bool {
    forall|i: int| 0 <= i < s.len() ==> is_digit(#[trigger] s[i])
}

/// The value of the decimal digit `c`.
pub open spec fn digit_value(c: char) -> nat {
    (c as u32 - '0' as u32) as nat
}

/// The number that the decimal digits `digits` write, most significant
/// digit first. Zeros in front change nothing.
pub open spec fn decimal_value(digits: Seq<char>) -> nat
    decreases digits.len(),
{
    if digits.len() == 0 {
        0
    } else {
        10 * decimal_value(digits.drop_last()) + digit_value(digits.last())
    }
}

/// A number at the start of `s`: the value of the longest run of digits
/// there, and what follows that run. There is none where `s` starts with no
/// digit, and none where the value does not fit in sixteen bits.
pub open spec fn number(s: Seq<char>) -> Option<(u16, Seq<char>)> {
    let run = digit_run(s) as int;
    let value = decimal_value(s.take(run));
    if run > 0 && value <= u16::MAX {
        Some((value as u16, s.skip(run)))
    } else {
        None
    }
}

/// The number of dice and the die type at the start of `s`, in that order,
/// and what follows them.
pub open spec fn simple_roll(s: Seq<char>) -> Option<((u16, u16), Seq<char>)> {
    match number(s) {
        Some((number_of_dice, after_dice)) => {
            if after_dice.len() > 0 && after_dice[0] == SEPARATOR {
                match number(after_dice.skip(1)) {
                    Some((number_of_sides, rest)) => Some(
                        ((number_of_dice, number_of_sides), rest),
                    ),
                    None => None,
                }
            } else {
                None
            }
        },
        None => None,
    }
}

/// The sign that a modifier starts with.
#[derive(Debug, PartialEq, Eq, Structural)]
pub enum Sign {
    /// `+`: the modifier is added.
    Plus,
    /// `-`: the modifier is taken off.
    Minus,
    /// Neither: there is no modifier.
    Absent,
}

/// The sign at the start of `s` and what follows it. Where `s` starts with
/// no sign, all of `s` follows.
pub open spec fn operator(s: Seq<char>) -> (Sign, Seq<char>) {
    if s.len() > 0 && s[0] == '+' {
        (Sign::Plus, s.skip(1))
    } else if s.len() > 0 && s[0] == '-' {
        (Sign::Minus, s.skip(1))
    } else {
        (Sign::Absent, s)
    }
}

/// The modifier with the size `magnitude` behind the sign `sign`: below zero
/// behind a minus, and `magnitude` itself otherwise.
pub open spec fn signed(sign: Sign, magnitude: u16) -> i32 {
    if sign == Sign::Minus {
        (0 - magnitude) as i32
    } else {
        magnitude as i32
    }
}

/// The modifier at the start of `s` and what follows it. Text that starts
/// with no sign holds the modifier zero and is left as it is. A sign with
/// no number behind it is no modifier at all.
pub open spec fn modifier(s: Seq<char>) -> Option<(i32, Seq<char>)> {
    match operator(s) {
        (Sign::Absent, rest) => Some((0i32, rest)),
        (sign, after_sign) => match number(after_sign) {
            Some((magnitude, rest)) => Some((signed(sign, magnitude), rest)),
            None => None,
        },
    }
}

/// Whether `digits` writes a number of sixteen bits: one digit or more, no
/// other character, and a value of at most 65535.
pub open spec fn is_numeral(digits: Seq<char>) -> bool {
    &&& digits.len() > 0
    &&& all_digits(digits)
    &&& decimal_value(digits) <= u16::MAX
}

/// The text of a sign: one character, or none where the sign is absent.
pub open spec fn sign_text(sign: Sign) -> Seq<char> {
    match sign {
        Sign::Plus => seq!['+'],
        Sign::Minus => seq!['-'],
        Sign::Absent => Seq::empty(),
    }
}

/// Whether `magnitude` can stand behind `sign`: a numeral behind a plus or
/// a minus, and nothing where the sign is absent.
pub open spec fn fits_sign(sign: Sign, magnitude: Seq<char>) -> bool {
    if sign == Sign::Absent {
        magnitude.len() == 0
    } else {
        is_numeral(magnitude)
    }
}

/// The text of a roll without whitespace: the number of dice, the
/// separator, the die type, the sign and the size of the modifier.
pub open spec fn roll_text(
    dice: Seq<char>,
    sides: Seq<char>,
    sign: Sign,
    magnitude: Seq<char>,
) -> Seq<char> {
    dice + seq![SEPARATOR] + sides + sign_text(sign) + magnitude
}

/// The roll that [`roll_text`] writes with the same four parts.
pub open spec fn written_roll(
    dice: Seq<char>,
    sides: Seq<char>,
    sign: Sign,
    magnitude: Seq<char>,
) -> Roll {
    Roll {
        number_of_sides: decimal_value(sides) as u16,
        number_of_dice: decimal_value(dice) as u16,
        modifier: signed(sign, decimal_value(magnitude) as u16),
    }
}

/// Whether the text `trailing`, set behind a roll that ends with the sign
/// `sign` and its number, would be read as more of that roll: it is where,
/// whitespace apart, it starts with a digit, or with a sign where the roll
/// has none.
pub open spec fn continues_roll(sign: Sign, trailing: Seq<char>) -> bool {
    let text = strip_whitespace(trailing);
    text.len() > 0 && (is_digit(text[0]) || (sign == Sign::Absent && (text[0] == '+' || text[0]
        == '-')))
}

/// The roll that the text `s` writes, with nothing asked of its die type
/// or of its number of dice.
pub open spec fn modified_roll(s: Seq<char>) -> Option<Roll> {
    match simple_roll(strip_whitespace(s)) {
        Some(((number_of_dice, number_of_sides), after_dice)) => match modifier(after_dice) {
            Some((modifier, _)) => Some(Roll { number_of_sides, number_of_dice, modifier }),
            None => None,
        },
        None => None,
    }
}

/// What parsing the text `s` under the limit `max_dice` comes to: the roll
/// that `s` writes where it writes one that meets the rules, the rule that
/// the roll breaks where it breaks one, and a parsing error where `s`
/// writes no roll.
pub open spec fn roll_with_limit(s: Seq<char>, max_dice: u16) -> Result<Roll, RollError> {
    match modified_roll(s) {
        Some(roll) => match roll.validity(max_dice) {
            Ok(()) => Ok(roll),
            Err(e) => Err(e),
        },
        None => Err(RollError::ParsingError),
    }
}

} // verus!
