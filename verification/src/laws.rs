//! What holds of the notation as a whole.

use vstd::prelude::*;
use crate::error::RollError;
use crate::grammar::{
    all_digits, continues_roll, decimal_value, fits_sign, is_numeral, modified_roll, number,
    operator, roll_text, roll_with_limit, sign_text, simple_roll, written_roll, Sign, SEPARATOR,
};
use crate::parser::lemma_digit_run_of_split;
use crate::roll::{is_die_type, Roll};
use crate::tokens::is_digit;
use crate::whitespace::{is_whitespace, strip_whitespace};

verus! {

/// Two texts put together lose their whitespace each for itself.
pub proof fn lemma_strip_concat(a: Seq<char>, b: Seq<char>)
    ensures
        strip_whitespace(a + b) == strip_whitespace(a) + strip_whitespace(b),
{
    Seq::filter_distributes_over_add(a, b, |c: char| !is_whitespace(c));
}

/// A text without whitespace stays as it is when whitespace is taken out.
pub proof fn lemma_strip_plain(s: Seq<char>)
    requires
        forall|i: int| 0 <= i < s.len() ==> !is_whitespace(#[trigger] s[i]),
    ensures
        strip_whitespace(s) == s,
    decreases s.len(),
{
    reveal(Seq::filter);
    if s.len() > 0 {
        lemma_strip_plain(s.drop_last());
        assert(s.drop_last().push(s.last()) == s);
    }
}

/// A text of whitespace alone leaves nothing when whitespace is taken out.
pub proof fn lemma_strip_blank(s: Seq<char>)
    requires
        forall|i: int| 0 <= i < s.len() ==> is_whitespace(#[trigger] s[i]),
    ensures
        strip_whitespace(s) == Seq::<char>::empty(),
    decreases s.len(),
{
    reveal(Seq::filter);
    if s.len() > 0 {
        lemma_strip_blank(s.drop_last());
    }
}

/// The text of a roll holds no whitespace.
pub proof fn lemma_roll_text_is_plain(
    dice: Seq<char>,
    sides: Seq<char>,
    sign: Sign,
    magnitude: Seq<char>,
)
    requires
        all_digits(dice),
        all_digits(sides),
        all_digits(magnitude),
    ensures
        strip_whitespace(roll_text(dice, sides, sign, magnitude)) == roll_text(
            dice,
            sides,
            sign,
            magnitude,
        ),
{
    let separator = seq![SEPARATOR];
    lemma_strip_plain(dice);
    lemma_strip_plain(separator);
    lemma_strip_plain(sides);
    lemma_strip_plain(sign_text(sign));
    lemma_strip_plain(magnitude);
    lemma_strip_concat(dice, separator);
    lemma_strip_concat(dice + separator, sides);
    lemma_strip_concat(dice + separator + sides, sign_text(sign));
    lemma_strip_concat(dice + separator + sides + sign_text(sign), magnitude);
}

/// A numeral in front of text that starts with no digit is read as its
/// value, and that text is what follows it.
pub proof fn lemma_number_of_numeral(digits: Seq<char>, rest: Seq<char>)
    requires
        is_numeral(digits),
        rest.len() > 0 ==> !is_digit(rest[0]),
    ensures
        number(digits + rest) == Some((decimal_value(digits) as u16, rest)),
{
    lemma_digit_run_of_split(digits, rest);
}

/// The text of a roll, whatever whitespace stands in it, is read as the
/// roll that it writes, and so is that text with more behind it, as long
/// as what is behind it does not continue the roll.
pub proof fn lemma_roll_is_read(
    text: Seq<char>,
    trailing: Seq<char>,
    dice: Seq<char>,
    sides: Seq<char>,
    sign: Sign,
    magnitude: Seq<char>,
)
    requires
        strip_whitespace(text) == roll_text(dice, sides, sign, magnitude),
        is_numeral(dice),
        is_numeral(sides),
        fits_sign(sign, magnitude),
        !continues_roll(sign, trailing),
    ensures
        modified_roll(text + trailing) == Some(written_roll(dice, sides, sign, magnitude)),
{
    let tail = strip_whitespace(trailing);
    let after_sign = magnitude + tail;
    let after_sides = sign_text(sign) + after_sign;
    let after_separator = sides + after_sides;
    let after_dice = seq![SEPARATOR] + after_separator;
    let whole = dice + after_dice;
    lemma_strip_concat(text, trailing);
    assert(strip_whitespace(text + trailing) == whole);
    assert(after_dice[0] == SEPARATOR);
    assert(after_dice.skip(1) == after_separator);
    lemma_number_of_numeral(dice, after_dice);
    if sign == Sign::Absent {
        assert(after_sides == tail);
        assert(operator(after_sides) == (Sign::Absent, tail));
    } else {
        assert(after_sides[0] == sign_text(sign)[0]);
        assert(after_sides.skip(1) == after_sign);
        assert(operator(after_sides) == (sign, after_sign));
        lemma_number_of_numeral(magnitude, tail);
    }
    lemma_number_of_numeral(sides, after_sides);
    assert(simple_roll(whole) == Some(
        ((decimal_value(dice) as u16, decimal_value(sides) as u16), after_sides),
    ));
    assert(decimal_value(Seq::<char>::empty()) == 0);
}

/// A well-formed roll is accepted as written: the text of a number of
/// dice, the separator, a die type that exists and, if there is one, a
/// signed modifier gives exactly that roll, where the number of dice is at
/// least one and within the limit, or the limit is zero.
pub proof fn lemma_well_formed_roll_is_accepted(
    dice: Seq<char>,
    sides: Seq<char>,
    sign: Sign,
    magnitude: Seq<char>,
    max_dice: u16,
)
    requires
        is_numeral(dice),
        is_numeral(sides),
        fits_sign(sign, magnitude),
        is_die_type(decimal_value(sides) as u16),
        1 <= decimal_value(dice),
        max_dice == 0 || decimal_value(dice) <= max_dice,
    ensures
        roll_with_limit(roll_text(dice, sides, sign, magnitude), max_dice) == Ok::<
            Roll,
            RollError,
        >(written_roll(dice, sides, sign, magnitude)),
        written_roll(dice, sides, sign, magnitude).modifier == if sign == Sign::Minus {
            -decimal_value(magnitude)
        } else {
            decimal_value(magnitude) as int
        },
{
    let text = roll_text(dice, sides, sign, magnitude);
    let written = written_roll(dice, sides, sign, magnitude);
    assert(modified_roll(text) == Some(written)) by {
        let nothing = Seq::<char>::empty();
        lemma_roll_text_is_plain(dice, sides, sign, magnitude);
        lemma_strip_blank(nothing);
        assert(text + nothing == text);
        lemma_roll_is_read(text, nothing, dice, sides, sign, magnitude);
    }
    assert(written.validity(max_dice) == Ok::<(), RollError>(()));
    if sign == Sign::Absent {
        assert(decimal_value(magnitude) == 0);
    }
}

/// Two texts that differ in their whitespace alone are read alike.
pub proof fn lemma_whitespace_is_ignored(a: Seq<char>, b: Seq<char>, max_dice: u16)
    requires
        strip_whitespace(a) == strip_whitespace(b),
    ensures
        modified_roll(a) == modified_roll(b),
        roll_with_limit(a, max_dice) == roll_with_limit(b, max_dice),
{
}

/// Whitespace that is put into a text, at any place and of any length,
/// changes nothing in how the text is read.
pub proof fn lemma_inserted_whitespace_is_ignored(
    s: Seq<char>,
    at: int,
    gap: Seq<char>,
    max_dice: u16,
)
    requires
        0 <= at <= s.len(),
        forall|i: int| 0 <= i < gap.len() ==> is_whitespace(#[trigger] gap[i]),
    ensures
        modified_roll(s.take(at) + gap + s.skip(at)) == modified_roll(s),
        roll_with_limit(s.take(at) + gap + s.skip(at), max_dice) == roll_with_limit(s, max_dice),
{
    let front = s.take(at);
    let back = s.skip(at);
    lemma_strip_concat(front + gap, back);
    lemma_strip_concat(front, gap);
    lemma_strip_blank(gap);
    lemma_strip_concat(front, back);
    assert(front + back == s);
    assert(strip_whitespace(front) + Seq::<char>::empty() == strip_whitespace(front));
    lemma_whitespace_is_ignored(front + gap + back, s, max_dice);
}

/// Text behind a complete roll changes nothing in how the roll is read,
/// as long as it does not continue the roll.
pub proof fn lemma_trailing_text_is_ignored(
    text: Seq<char>,
    trailing: Seq<char>,
    dice: Seq<char>,
    sides: Seq<char>,
    sign: Sign,
    magnitude: Seq<char>,
    max_dice: u16,
)
    requires
        strip_whitespace(text) == roll_text(dice, sides, sign, magnitude),
        is_numeral(dice),
        is_numeral(sides),
        fits_sign(sign, magnitude),
        !continues_roll(sign, trailing),
    ensures
        modified_roll(text + trailing) == modified_roll(text),
        roll_with_limit(text + trailing, max_dice) == roll_with_limit(text, max_dice),
{
    let nothing = Seq::<char>::empty();
    lemma_strip_blank(nothing);
    assert(text + nothing == text);
    lemma_roll_is_read(text, nothing, dice, sides, sign, magnitude);
    lemma_roll_is_read(text, trailing, dice, sides, sign, magnitude);
}

/// The limit itself is allowed: a roll of exactly `max_dice` dice of a die
/// that exists is accepted under the limit `max_dice`, where that is not
/// zero.
pub proof fn lemma_limit_is_inclusive(roll: Roll, max_dice: u16)
    requires
        is_die_type(roll.number_of_sides),
        max_dice != 0,
        roll.number_of_dice == max_dice,
    ensures
        roll.validity(max_dice) == Ok::<(), RollError>(()),
        roll.is_valid(max_dice),
{
}

/// A limit of zero is no limit: under it no roll has too many dice.
pub proof fn lemma_zero_limit_is_no_limit(roll: Roll)
    ensures
        roll.validity(0) != Err::<(), RollError>(RollError::DiceExceedLimit),
        is_die_type(roll.number_of_sides) && roll.number_of_dice >= 1 ==> roll.validity(0) == Ok::<
            (),
            RollError,
        >(()),
{
}

/// The die type is judged before the number of dice: a roll of a die that
/// does not exist is refused for its die type, however many dice it has.
pub proof fn lemma_die_type_is_checked_first(roll: Roll, max_dice: u16)
    requires
        !is_die_type(roll.number_of_sides),
    ensures
        roll.validity(max_dice) == Err::<(), RollError>(RollError::DieTypeInvalid),
{
}

/// The limit is judged before the lower bound, and the verdict is `Ok`
/// exactly for the rolls that meet every rule.
pub proof fn lemma_verdict_is_exact(roll: Roll, max_dice: u16)
    ensures
        roll.validity(max_dice) is Ok <==> roll.is_valid(max_dice),
        roll.validity(max_dice) == Err::<(), RollError>(RollError::NoDiceToRoll) <==> is_die_type(
            roll.number_of_sides,
        ) && roll.number_of_dice == 0,
        roll.validity(max_dice) != Err::<(), RollError>(RollError::ParsingError),
{
}

/// Whatever the text, a roll that comes out of parsing meets every rule,
/// and a text that writes no roll gives a parsing error and no other.
pub proof fn lemma_parsed_roll_is_valid(s: Seq<char>, max_dice: u16)
    ensures
        roll_with_limit(s, max_dice) matches Ok(roll) ==> roll.is_valid(max_dice) && modified_roll(
            s,
        ) == Some(roll),
        modified_roll(s) is None <==> roll_with_limit(s, max_dice) == Err::<Roll, RollError>(
            RollError::ParsingError,
        ),
{
}

} // verus!
