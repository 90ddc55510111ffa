//! The Minix 2 executable format: a header of 32 bytes, then the text
//! segment, then the data segment.

pub mod error;
pub mod header;
pub mod segment;
pub mod program;

pub use self::error::MinixError;
pub use self::header::Header;
pub use self::program::Program;
pub use self::segment::{Data, Segment, Text};
