//! The header of a Minix 2 executable.

use vstd::prelude::*;
use crate::minix::error::MinixError;
use crate::word::{le_dword, le_word, word_from_le};

verus! {

/// The length of the header in bytes.
pub const HEADER_LEN: usize = 32;

/// The fields of the header, all little-endian, and the bytes they were
/// read from.
#[derive(Debug, PartialEq, Eq)]
pub struct Header {
    pub raw: [u8; 32],
    pub magic: [u8; 2],
    pub flags: u8,
    pub cpu: u8,
    pub hdrlen: u8,
    pub unused: u8,
    pub version: u16,
    pub text: u32,
    pub data: u32,
    pub bss: u32,
    pub entry: u32,
    pub total: u32,
    pub syms: u32,
}

/// The double word stored little-endian at index `at`.
pub open spec fn dword_at(bytes: Seq<u8>, at: int) -> u32 {
    le_dword(bytes[at], bytes[at + 1], bytes[at + 2], bytes[at + 3])
}

/// Reads the double word stored little-endian at index `at`.
fn read_dword(bytes: &[u8], at: usize) -> (v: u32)
    requires
        at + 4 <= bytes@.len(),
        at <= 28,
    ensures
        v == dword_at(bytes@, at as int),
{
    bytes[at] as u32 + 0x100 * (bytes[at + 1] as u32) + 0x1_0000 * (bytes[at + 2] as u32)
        + 0x100_0000 * (bytes[at + 3] as u32)
}

impl Header {
    /// Whether the header holds what the first 32 bytes of `binary` say.
    pub open spec fn describes(self, binary: Seq<u8>) -> bool {
        &&& self.raw@ == binary.subrange(0, 32)
        &&& self.magic@ == binary.subrange(0, 2)
        &&& self.flags == binary[2]
        &&& self.cpu == binary[3]
        &&& self.hdrlen == binary[4]
        &&& self.unused == binary[5]
        &&& self.version == le_word(binary[6], binary[7])
        &&& self.text == dword_at(binary, 8)
        &&& self.data == dword_at(binary, 12)
        &&& self.bss == dword_at(binary, 16)
        &&& self.entry == dword_at(binary, 20)
        &&& self.total == dword_at(binary, 24)
        &&& self.syms == dword_at(binary, 28)
    }

    /// Reads the header from the first 32 bytes of `binary`; `InvalidSize`
    /// where there are fewer.
    pub fn parse(binary: &[u8]) -> (res: Result<Header, MinixError>)
        ensures
            binary@.len() < 32 <==> res == Err::<Header, _>(MinixError::InvalidSize),
            binary@.len() >= 32 <==> res is Ok,
            res matches Ok(header) ==> header.describes(binary@),
    {
        if binary.len() < 32 {
            return Err(MinixError::InvalidSize);
        }
        let b = binary;
        let raw: [u8; 32] = [
            b[0], b[1], b[2], b[3], b[4], b[5], b[6], b[7],
            b[8], b[9], b[10], b[11], b[12], b[13], b[14], b[15],
            b[16], b[17], b[18], b[19], b[20], b[21], b[22], b[23],
            b[24], b[25], b[26], b[27], b[28], b[29], b[30], b[31],
        ];
        let magic: [u8; 2] = [b[0], b[1]];
        let header = Header {
            raw,
            magic,
            flags: b[2],
            cpu: b[3],
            hdrlen: b[4],
            unused: b[5],
            version: word_from_le(b[6], b[7]),
            text: read_dword(b, 8),
            data: read_dword(b, 12),
            bss: read_dword(b, 16),
            entry: read_dword(b, 20),
            total: read_dword(b, 24),
            syms: read_dword(b, 28),
        };
        assert(header.raw@ =~= binary@.subrange(0, 32));
        assert(header.magic@ =~= binary@.subrange(0, 2));
        Ok(header)
    }
}

} // verus!
