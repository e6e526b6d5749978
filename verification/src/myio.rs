//! What is read from the terminal.
use vstd::prelude::*;
use vstd::string::*;
use crate::text::{is_trim_of, trim};

verus! {

/// Why a line could not be read.
#[derive(Debug, Clone, Copy, PartialEq, Eq, Structural)]
pub enum InputError {
    StdinError,
    ParsingError,
}

impl InputError {
    /// The text shown for the error.
    pub open spec fn display(self) -> Seq<char> {
        match self {
            InputError::StdinError => "Input stdin error"@,
            InputError::ParsingError => "Input parsing error"@,
        }
    }

    pub fn to_string(&self) -> (s: String)
        ensures
            s@ == self.display(),
    {
        match self {
            InputError::StdinError => String::from_str("Input stdin error"),
            InputError::ParsingError => String::from_str("Input parsing error"),
        }
    }
}

/// The input a line read from the terminal gives: the line without its
/// leading and trailing white space.
pub fn input_from_line(line: &str) -> (input: String)
    ensures
        is_trim_of(line@, input@),
{
    trim(line)
}

} // verus!
