//! From bytes to instructions, and from instructions to a listing.

pub mod error;
pub mod encoding;
pub mod parser_utils;
pub mod parser;
pub mod disassembled_program;
pub mod decoder;
pub mod encoder;
pub mod theorems;

pub use self::error::DisassemblerError;
pub use self::parser::parse_instruction;
pub use self::disassembled_program::DisassembledProgram;
pub use self::decoder::Disassemblable;
