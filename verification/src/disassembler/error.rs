//! What can go wrong while decoding.

use vstd::prelude::*;
use vstd::string::*;
use crate::text::{hex_padded, push_hex};

verus! {

/// Why an instruction could not be decoded.
#[derive(Debug, Copy, Clone, PartialEq, Eq)]
pub enum DisassemblerError {
    /// The caller gave no file to read.
    InvalidArgs,
    /// The byte does not begin, or does not continue, any known encoding.
    InvalidOpcode(u8),
    /// The bytes end before the instruction does.
    UnexpectedEOF,
    /// A field of the ModR/M byte is out of range.
    InvalidModRM,
}

impl DisassemblerError {
    /// The message for the error.
    pub open spec fn text(self) -> Seq<char> {
        match self {
            DisassemblerError::InvalidArgs => "Invalid arguments"@,
            DisassemblerError::InvalidOpcode(opcode) => "Invalid opcode: 0x"@ + hex_padded(
                opcode as nat,
                2,
            ),
            DisassemblerError::UnexpectedEOF => "Unexpected end of file"@,
            DisassemblerError::InvalidModRM => "Invalid ModRM byte"@,
        }
    }

    /// The message for the error.
    pub fn to_string(&self) -> (s: String)
        ensures
            s@ == self.text(),
    {
        match self {
            DisassemblerError::InvalidArgs => String::from_str("Invalid arguments"),
            DisassemblerError::InvalidOpcode(opcode) => {
                let mut s = String::from_str("Invalid opcode: 0x");
                push_hex(&mut s, *opcode as u64, 2);
                s
            },
            DisassemblerError::UnexpectedEOF => String::from_str("Unexpected end of file"),
            DisassemblerError::InvalidModRM => String::from_str("Invalid ModRM byte"),
        }
    }
}

} // verus!
