//! The kinds of failure that the viewer can meet, and how each is shown.

use vstd::prelude::*;
use vstd::string::StringExecFns;

verus! {

/// What can go wrong in a session.
#[derive(Clone, Copy, Debug, PartialEq, Eq, Structural)]
pub enum ViewerError {
    /// The file could not be opened or read.
    IoFailure,
    /// The jump prompt does not hold a hexadecimal number.
    ParseFailure,
    /// The address typed at the jump prompt lies beyond the end of the file.
    RangeFailure,
    /// The terminal refused to enter raw mode or to draw.
    TerminalFailure,
}

impl ViewerError {
    /// The user-visible text of the error.
    pub open spec fn message_text(self) -> Seq<char> {
        match self {
            ViewerError::IoFailure => "Unable to read the file"@,
            ViewerError::ParseFailure => "Not a hexadecimal address"@,
            ViewerError::RangeFailure => "Address is beyond the end of the file"@,
            ViewerError::TerminalFailure => "Unable to draw on the terminal"@,
        }
    }

    /// The user-visible text of the error.
    pub fn message(&self) -> (text: String)
        ensures
            text@ == self.message_text(),
    {
        match self {
            ViewerError::IoFailure => String::from_str("Unable to read the file"),
            ViewerError::ParseFailure => String::from_str("Not a hexadecimal address"),
            ViewerError::RangeFailure => String::from_str("Address is beyond the end of the file"),
            ViewerError::TerminalFailure => String::from_str("Unable to draw on the terminal"),
        }
    }
}

} // verus!
