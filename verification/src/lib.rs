//! Parsing of die-roll notation as used in tabletop games.
//!
//! A roll such as `4d20 - 5` names how many dice are thrown, how many sides
//! each of them has, and a flat modifier that is added to their sum. The
//! crate turns such text into a [`Roll`] and checks that the roll uses a
//! die that exists and a sensible number of dice. It throws no dice itself.

pub mod error;
pub mod grammar;
pub mod laws;
pub mod parser;
pub mod roll;
pub mod tokens;
pub mod whitespace;

pub use error::RollError;
pub use roll::Roll;
