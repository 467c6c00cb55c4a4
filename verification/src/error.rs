//! The ways in which the text of a rule can be rejected.

use vstd::prelude::*;

verus! {

/// Why a rule could not be built from its textual form.
#[derive(Clone, Copy, Debug, PartialEq, Eq, Structural)]
pub enum ParseError {
    /// The unit letter at the end is missing or is not one of the known units.
    InvalidFormat,
    /// The text in front of the unit is not a decimal number, or the amount
    /// does not fit into 64 bits once the unit has been applied.
    InvalidNumber,
    /// The number is below zero.
    Negative,
    /// The name pattern is not a regular expression that can be compiled.
    InvalidPattern,
}

impl ParseError {
    /// A short sentence for each error, for messages to the user.
    pub fn message(&self) -> (text: &'static str)
        ensures
            text@ == self.message_spec(),
    {
        match self {
            ParseError::InvalidFormat => "missing or unknown unit suffix",
            ParseError::InvalidNumber => "the amount is not a number in range",
            ParseError::Negative => "the amount is negative",
            ParseError::InvalidPattern => "the name pattern does not compile",
        }
    }

    /// The text that `message` returns.
    pub open spec fn message_spec(&self) -> Seq<char> {
        match self {
            ParseError::InvalidFormat => "missing or unknown unit suffix"@,
            ParseError::InvalidNumber => "the amount is not a number in range"@,
            ParseError::Negative => "the amount is negative"@,
            ParseError::InvalidPattern => "the name pattern does not compile"@,
        }
    }
}

} // verus!
