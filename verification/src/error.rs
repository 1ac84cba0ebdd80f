//! What can go wrong when ISO 8601 text is read.

use vstd::prelude::*;

verus! {

/// The half of a datetime that a range failure is about.
#[derive(Clone, Copy, Debug, PartialEq, Eq, Hash, Structural)]
pub enum Part {
    /// The date: its year, month, day, week, weekday or day of the year.
    Date,
    /// The time of day: its hour, minute, second or millisecond.
    Time,
}

/// A component was well formed but names nothing that exists: month 13,
/// 30 February, week 54, hour 24.
#[derive(Clone, Debug, PartialEq, Eq)]
pub struct RangeError {
    /// Whether the date or the time of day was refused.
    pub part: Part,
    /// A description for people.
    pub message: String,
}

/// Why text could not be read as a civil value.
#[derive(Clone, Debug, PartialEq, Eq)]
pub enum DecodeError {
    /// The text follows none of the ISO 8601 forms. Holds a description.
    Syntax(String),
    /// The text is well formed but names nothing that exists.
    Range(RangeError),
}

impl DecodeError {
    /// The description that the failure carries: the parser's words for a
    /// syntax failure, the words of the cause for a range failure.
    pub open spec fn description(self) -> Seq<char> {
        match self {
            DecodeError::Syntax(message) => message@,
            DecodeError::Range(error) => error.message@,
        }
    }

    /// The description that the failure carries, for the one channel through
    /// which both kinds of failure are reported.
    pub fn message(&self) -> (text: &str)
        ensures
            text@ == self.description(),
    {
        match self {
            DecodeError::Syntax(message) => message.as_str(),
            DecodeError::Range(error) => error.message.as_str(),
        }
    }
}

} // verus!
