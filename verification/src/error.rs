//! The reasons for which a piece of text is not accepted as a roll.

use vstd::prelude::*;

verus! {

/// Why a roll could not be built from the given text.
#[derive(Debug, PartialEq, Eq, Structural)]
pub enum RollError {
    /// The die has a number of sides that no die has.
    ///
    /// The dice that exist are `d2`, `d4`, `d6`, `d8`, `d10`, `d12`, `d20`
    /// and `d100`.
    DieTypeInvalid,
    /// More dice were asked for than the limit in force allows.
    DiceExceedLimit,
    /// Fewer than one die was asked for.
    NoDiceToRoll,
    /// The text does not have the shape of a roll.
    ParsingError,
}

impl RollError {
    /// The sentence that describes this error to a user.
    pub fn message(&self) -> (text: &'static str)
        ensures
            text@ == match *self {
                RollError::DieTypeInvalid => "The requested type of die is invalid."@,
                RollError::DiceExceedLimit => "Amount of dice exceeds the specified limit."@,
                RollError::NoDiceToRoll => "Can't roll less than 1 die."@,
                RollError::ParsingError => "Failed to parse the input string."@,
            },
    {
        match self {
            RollError::DieTypeInvalid => "The requested type of die is invalid.",
            RollError::DiceExceedLimit => "Amount of dice exceeds the specified limit.",
            RollError::NoDiceToRoll => "Can't roll less than 1 die.",
            RollError::ParsingError => "Failed to parse the input string.",
        }
    }
}

} // verus!
