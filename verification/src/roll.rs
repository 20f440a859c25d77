//! The roll itself and the rules that a roll has to meet.

use vstd::prelude::*;
use crate::error::RollError;
use crate::grammar::{modified_roll, roll_with_limit};
use crate::parser::{parse_modifier, parse_simple_roll};
use crate::whitespace::remove_whitespace;

verus! {

/// The number of dice that [`Roll::parse_roll`] allows in one roll.
pub const DEFAULT_MAX_DICE: u16 = 100;

/// A die roll: some number of equal dice and a modifier on their sum.
#[derive(Debug, PartialEq, Eq, Structural)]
pub struct Roll {
    /// The type of die, given by the number of its sides.
    pub number_of_sides: u16,
    /// How many dice are rolled.
    pub number_of_dice: u16,
    /// What is added to the sum of the dice; negative where it is taken off.
    pub modifier: i32,
}

/// Whether a die with this many sides exists.
pub open spec fn is_die_type(number_of_sides: u16) -> bool {
    number_of_sides == 2 || number_of_sides == 4 || number_of_sides == 6 || number_of_sides == 8
        || number_of_sides == 10 || number_of_sides == 12 || number_of_sides == 20
        || number_of_sides == 100
}

/// Whether `number_of_dice` is above the limit `max_dice`, where a limit of
/// zero stands for no limit at all.
pub open spec fn exceeds_limit(number_of_dice: u16, max_dice: u16) -> bool {
    max_dice != 0 && number_of_dice > max_dice
}

impl Roll {
    /// The verdict on this roll under the limit `max_dice`. The rules are
    /// tried in a fixed order and the first one that is broken gives the
    /// error: the die type, then the limit, then the lower bound.
    pub open spec fn validity(self, max_dice: u16) -> Result<(), RollError> {
        if !is_die_type(self.number_of_sides) {
            Err(RollError::DieTypeInvalid)
        } else if exceeds_limit(self.number_of_dice, max_dice) {
            Err(RollError::DiceExceedLimit)
        } else if self.number_of_dice < 1 {
            Err(RollError::NoDiceToRoll)
        } else {
            Ok(())
        }
    }

    /// Whether this roll meets every rule under the limit `max_dice`.
    pub open spec fn is_valid(self, max_dice: u16) -> bool {
        &&& is_die_type(self.number_of_sides)
        &&& self.number_of_dice >= 1
        &&& max_dice == 0 || self.number_of_dice <= max_dice
    }

    /// Builds a roll from its three parts. Nothing is checked: any die type
    /// and any number of dice are taken as they are.
    pub fn new(number_of_sides: u16, number_of_dice: u16, modifier: i32) -> (roll: Self)
        ensures
            roll == (Roll { number_of_sides, number_of_dice, modifier }),
    {
        Self { number_of_sides, number_of_dice, modifier }
    }

    /// Checks that this roll uses a die that exists and a number of dice
    /// that is at least one and within `max_dice`. A `max_dice` of zero
    /// sets no limit.
    pub fn check_roll_validity(&self, max_dice: u16) -> (verdict: Result<(), RollError>)
        ensures
            verdict == self.validity(max_dice),
            verdict is Ok <==> self.is_valid(max_dice),
    {
        match self.number_of_sides {
            2 | 4 | 6 | 8 | 10 | 12 | 20 | 100 => (),
            _ => return Err(RollError::DieTypeInvalid),
        }
        if max_dice != 0 && self.number_of_dice > max_dice {
            Err(RollError::DiceExceedLimit)
        } else if self.number_of_dice < 1 {
            Err(RollError::NoDiceToRoll)
        } else {
            Ok(())
        }
    }

    /// Parses `input` as a roll with no regard to whether the roll meets
    /// the rules. Whitespace is ignored, and so is whatever follows the
    /// roll.
    pub fn parse_modified_roll(input: &str) -> (r: Result<Roll, RollError>)
        ensures
            match r {
                Ok(roll) => modified_roll(input@) == Some(roll),
                Err(e) => e == RollError::ParsingError && modified_roll(input@) is None,
            },
    {
        let whitespaceless = remove_whitespace(input);
        let (remainder, (number_of_dice, number_of_sides)) = parse_simple_roll(
            whitespaceless.as_str(),
        )?;
        let (_, modifier) = parse_modifier(remainder)?;
        Ok(Roll { number_of_dice, number_of_sides, modifier })
    }

    /// Parses `input` as a roll, such as `4d20 + 5`, and checks that the
    /// roll meets the rules, with at most a hundred dice in one roll.
    ///
    /// Whitespace is ignored, and so is whatever follows the roll. The dice
    /// that exist are `d2`, `d4`, `d6`, `d8`, `d10`, `d12`, `d20` and
    /// `d100`. For another limit on the number of dice, or for none, see
    /// [`Roll::parse_roll_with_limit`].
    pub fn parse_roll(input: &str) -> (r: Result<Roll, RollError>)
        ensures
            r == roll_with_limit(input@, DEFAULT_MAX_DICE),
            r matches Ok(roll) ==> roll.is_valid(DEFAULT_MAX_DICE),
    {
        Roll::parse_roll_with_limit(input, DEFAULT_MAX_DICE)
    }

    /// Parses `input` as a roll, such as `4d20 + 5`, and checks that the
    /// roll meets the rules, with at most `max_dice` dice in one roll. A
    /// `max_dice` of zero sets no limit.
    ///
    /// Whitespace is ignored, and so is whatever follows the roll. The dice
    /// that exist are `d2`, `d4`, `d6`, `d8`, `d10`, `d12`, `d20` and
    /// `d100`.
    pub fn parse_roll_with_limit(input: &str, max_dice: u16) -> (r: Result<Roll, RollError>)
        ensures
            r == roll_with_limit(input@, max_dice),
            r matches Ok(roll) ==> roll.is_valid(max_dice),
    {
        let result = Roll::parse_modified_roll(input)?;
        match result.check_roll_validity(max_dice) {
            Ok(()) => Ok(result),
            Err(e) => Err(e),
        }
    }
}

} // verus!
