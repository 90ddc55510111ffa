//! The result of disassembly: the instructions of a program in order.

use vstd::prelude::*;
use vstd::string::*;
use crate::text::{hex_padded, push_hex};
use crate::x86::instruction::Instruction;

verus! {

/// The instructions of a program, in the order of their offsets.
#[derive(Debug, PartialEq, Eq)]
pub struct DisassembledProgram {
    pub instructions: Vec<Instruction>,
}

/// One line of a listing: the offset in four hexadecimal digits, a colon
/// and a space, the record, and a line feed.
pub open spec fn line_text(offset: nat, ins: Instruction) -> Seq<char> {
    hex_padded(offset, 4) + ": "@ + ins.text() + "\n"@
}

/// The offset of the instruction at index `i`: the number of bytes of the
/// instructions before it.
pub open spec fn offset_of(instructions: Seq<Instruction>, i: int) -> nat
    decreases i,
{
    if i <= 0 {
        0
    } else {
        offset_of(instructions, i - 1) + instructions[i - 1].raw@.len()
    }
}

/// The lines of the first `count` instructions.
pub open spec fn listing_text(instructions: Seq<Instruction>, count: int) -> Seq<char>
    decreases count,
{
    if count <= 0 {
        Seq::empty()
    } else {
        listing_text(instructions, count - 1) + line_text(
            offset_of(instructions, count - 1),
            instructions[count - 1],
        )
    }
}

impl DisassembledProgram {
    /// The listing of the program: one line for each instruction.
    pub open spec fn text(self) -> Seq<char> {
        listing_text(self.instructions@, self.instructions@.len() as int)
    }

    /// The disassembled program with the given instructions. The data
    /// segment has no part in the listing.
    pub fn new(instructions: Vec<Instruction>, data: Vec<u8>) -> (p: DisassembledProgram)
        ensures
            p.instructions == instructions,
    {
        DisassembledProgram { instructions }
    }

    /// The number of bytes of all instructions together.
    pub open spec fn byte_len(self) -> nat {
        offset_of(self.instructions@, self.instructions@.len() as int)
    }

    /// The listing of the program.
    pub fn to_string(&self) -> (s: String)
        requires
            self.byte_len() <= usize::MAX,
        ensures
            s@ == self.text(),
    {
        let mut s = String::new();
        let mut offset: usize = 0;
        let mut i: usize = 0;
        assert(s@ =~= listing_text(self.instructions@, 0));
        while i < self.instructions.len()
            invariant
                i <= self.instructions@.len(),
                self.byte_len() <= usize::MAX,
                offset == offset_of(self.instructions@, i as int),
                s@ == listing_text(self.instructions@, i as int),
            decreases self.instructions@.len() - i,
        {
            let ins = &self.instructions[i];
            let ghost before = s@;
            push_hex(&mut s, offset as u64, 4);
            s.append(": ");
            ins.push_text(&mut s);
            s.append("\n");
            assert(s@ =~= before + line_text(offset as nat, *ins));
            proof {
                lemma_offset_monotonic(
                    self.instructions@,
                    i as int + 1,
                    self.instructions@.len() as int,
                );
            }
            offset = offset + ins.raw.len();
            i = i + 1;
        }
        s
    }
}

/// Offsets do not go down along a program.
pub proof fn lemma_offset_monotonic(instructions: Seq<Instruction>, i: int, j: int)
    requires
        0 <= i <= j,
    ensures
        offset_of(instructions, i) <= offset_of(instructions, j),
    decreases j - i,
{
    if i < j {
        lemma_offset_monotonic(instructions, i, j - 1);
    }
}

} // verus!
