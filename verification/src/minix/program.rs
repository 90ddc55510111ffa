//! A loaded executable.

use vstd::prelude::*;
use crate::minix::error::MinixError;
use crate::minix::header::{dword_at, Header};
use crate::minix::segment::{holds_segment, segment_bytes, Data, Segment, Text};

verus! {

/// An executable: its header and its two segments.
#[derive(Debug, PartialEq, Eq)]
pub struct Program {
    pub header: Header,
    pub text_segment: Segment<Text>,
    pub data_segment: Segment<Data>,
}

impl Program {
    /// Whether `binary` holds a whole executable: a header, and the two
    /// segments of the sizes that the header gives.
    pub open spec fn loadable(binary: Seq<u8>) -> bool {
        &&& binary.len() >= 32
        &&& holds_segment(binary, 0, dword_at(binary, 8) as int)
        &&& holds_segment(
            binary,
            dword_at(binary, 8) as int,
            dword_at(binary, 12) as int,
        )
    }

    /// A program with the given parts.
    pub fn new(header: Header, text_segment: Segment<Text>, data_segment: Segment<Data>) -> (p:
        Program)
        ensures
            p.header == header,
            p.text_segment == text_segment,
            p.data_segment == data_segment,
    {
        Program { header, text_segment, data_segment }
    }

    /// Reads an executable from the bytes of its file.
    ///
    /// The text segment follows the header, the data segment follows the
    /// text segment. Where the bytes end before the header or before a
    /// segment does, the result is `InvalidSize`.
    pub fn from_bytes(binary: &[u8]) -> (res: Result<Program, MinixError>)
        ensures
            Program::loadable(binary@) <==> res is Ok,
            res matches Err(e) ==> e == MinixError::InvalidSize,
            res matches Ok(p) ==> {
                &&& p.header.describes(binary@)
                &&& p.text_segment.data@ == segment_bytes(binary@, 0, p.header.text as int)
                &&& p.data_segment.data@ == segment_bytes(
                    binary@,
                    p.header.text as int,
                    p.header.data as int,
                )
            },
    {
        let header = match Header::parse(binary) {
            Ok(header) => header,
            Err(e) => {
                return Err(e);
            },
        };
        let text_segment = match Text::parse(binary, header.text) {
            Ok(segment) => segment,
            Err(e) => {
                return Err(e);
            },
        };
        let data_segment = match Data::parse(binary, header.text, header.data) {
            Ok(segment) => segment,
            Err(e) => {
                return Err(e);
            },
        };
        Ok(Program::new(header, text_segment, data_segment))
    }
}

} // verus!
