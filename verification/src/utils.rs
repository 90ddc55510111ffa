//! Small helpers: the smaller of two sizes, and a dump of bytes in
//! hexadecimal.

use vstd::prelude::*;
use vstd::string::*;
use crate::text::{hex_padded, push_hex};

verus! {

/// The smaller of two sizes; the second when they are equal.
pub fn min(a: usize, b: usize) -> (m: usize)
    ensures
        m == if a < b { a } else { b },
{
    if a < b {
        a
    } else {
        b
    }
}

/// Bytes to be shown as a dump: sixteen to a line, each line beginning
/// with the offset of its first byte.
pub struct HexdumpFormatter<'a>(pub &'a [u8]);

/// What a dump shows for the byte `b` at offset `i`: the offset in eight
/// digits and two spaces at the start of a line, one more space before
/// each group of eight, the byte in two digits and a space, and a line
/// feed after the sixteenth byte of a line.
pub open spec fn dump_cell(i: int, b: u8) -> Seq<char> {
    (if i % 16 == 0 { hex_padded(i as nat, 8) + "  "@ } else { Seq::empty() }) + (if i % 8 == 0 {
        " "@
    } else {
        Seq::empty()
    }) + hex_padded(b as nat, 2) + " "@ + (if i % 16 == 15 { "\n"@ } else { Seq::empty() })
}

/// The dump of the first `count` bytes.
pub open spec fn dump_text(bytes: Seq<u8>, count: int) -> Seq<char>
    decreases count,
{
    if count <= 0 {
        Seq::empty()
    } else {
        dump_text(bytes, count - 1) + dump_cell(count - 1, bytes[count - 1])
    }
}

impl<'a> HexdumpFormatter<'a> {
    /// The dump of the bytes.
    pub fn to_string(&self) -> (s: String)
        ensures
            s@ == dump_text(self.0@, self.0@.len() as int),
    {
        let bytes = self.0;
        let mut s = String::new();
        let mut i: usize = 0;
        assert(s@ =~= dump_text(bytes@, 0));
        while i < bytes.len()
            invariant
                i <= bytes@.len(),
                s@ == dump_text(bytes@, i as int),
            decreases bytes@.len() - i,
        {
            let ghost before = s@;
            if i % 16 == 0 {
                push_hex(&mut s, i as u64, 8);
                s.append("  ");
            }
            if i % 8 == 0 {
                s.append(" ");
            }
            push_hex(&mut s, bytes[i] as u64, 2);
            s.append(" ");
            if i % 16 == 15 {
                s.append("\n");
            }
            assert(s@ =~= before + dump_cell(i as int, bytes@[i as int]));
            i = i + 1;
        }
        s
    }
}

} // verus!
