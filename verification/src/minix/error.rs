//! What can go wrong while reading an executable.

use vstd::prelude::*;
use vstd::string::*;

verus! {

/// Why an executable could not be read.
#[derive(Debug, Copy, Clone, PartialEq, Eq)]
pub enum MinixError {
    /// The file could not be read.
    InvalidFile,
    /// The bytes end before the header or a segment does.
    InvalidSize,
    /// A field of fixed size could not be taken from its bytes.
    CorruptedData,
}

impl MinixError {
    /// The message for the error.
    pub open spec fn text(self) -> Seq<char> {
        match self {
            MinixError::InvalidFile => "Invalid file"@,
            MinixError::InvalidSize => "Invalid size"@,
            MinixError::CorruptedData => "Corrupted data"@,
        }
    }

    /// The message for the error.
    pub fn to_string(&self) -> (s: String)
        ensures
            s@ == self.text(),
    {
        match self {
            MinixError::InvalidFile => String::from_str("Invalid file"),
            MinixError::InvalidSize => String::from_str("Invalid size"),
            MinixError::CorruptedData => String::from_str("Corrupted data"),
        }
    }
}

} // verus!
