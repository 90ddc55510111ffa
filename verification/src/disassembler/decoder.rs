//! Disassembly of a whole text segment.

use vstd::prelude::*;
use vstd::slice::slice_to_vec;
use crate::x86::instruction::{Instruction, IR};
use crate::disassembler::disassembled_program::{offset_of, DisassembledProgram};
use crate::disassembler::encoding::decode;
use crate::disassembler::error::DisassemblerError;
use crate::disassembler::parser::parse_instruction;
use crate::minix::program::Program;

verus! {

/// A list of records as plain values, or the error that ended decoding.
pub type Listing = Result<Seq<(IR, Seq<u8>)>, DisassemblerError>;

/// The records of a list of instructions as plain values.
pub open spec fn records(instructions: Seq<Instruction>) -> Seq<(IR, Seq<u8>)> {
    instructions.map_values(|ins: Instruction| ins@)
}

/// `done` in front of the records of `rest`, or the error of `rest`.
pub open spec fn prepend(done: Seq<(IR, Seq<u8>)>, rest: Listing) -> Listing {
    match rest {
        Ok(tail) => Ok(done + tail),
        Err(e) => Err(e),
    }
}

/// The disassembly of `text` from offset `pos` on.
///
/// Each instruction is decoded at the offset where the one before it
/// ended. Where the bytes end inside an instruction, the bytes that are
/// left make up one last record, `Undefined`. Any other error ends the
/// disassembly with that error.
pub open spec fn listing_from(text: Seq<u8>, pos: int) -> Listing
    decreases text.len() - pos,
{
    if pos < 0 || pos >= text.len() {
        Ok(Seq::empty())
    } else {
        match decode(text.subrange(pos, text.len() as int), pos) {
            Ok((ir, n)) => if n <= 0 || pos + n > text.len() {
                Ok(Seq::empty())
            } else {
                prepend(seq![(ir, text.subrange(pos, pos + n))], listing_from(text, pos + n))
            },
            Err(DisassemblerError::UnexpectedEOF) => Ok(
                seq![(IR::Undefined, text.subrange(pos, text.len() as int))],
            ),
            Err(e) => Err(e),
        }
    }
}

/// The disassembly of a text segment.
pub open spec fn disassembly(text: Seq<u8>) -> Listing {
    listing_from(text, 0)
}

/// Whether `res` is the disassembly of `text`.
pub open spec fn disassembles(text: Seq<u8>, res: Result<
    DisassembledProgram,
    DisassemblerError,
>) -> bool {
    match res {
        Ok(program) => {
            &&& disassembly(text) == Ok::<_, DisassemblerError>(records(program.instructions@))
            &&& program.byte_len() == text.len()
        },
        Err(e) => disassembly(text) == Err::<Seq<(IR, Seq<u8>)>, _>(e),
    }
}

/// Decodes `text` from its first byte to its last.
#[verifier::rlimit(50)]
pub fn disassemble_bytes(text: &[u8]) -> (res: Result<Vec<Instruction>, DisassemblerError>)
    ensures
        match res {
            Ok(list) => {
                &&& disassembly(text@) == Ok::<_, DisassemblerError>(records(list@))
                &&& offset_of(list@, list@.len() as int) == text@.len()
            },
            Err(e) => disassembly(text@) == Err::<Seq<(IR, Seq<u8>)>, _>(e),
        },
{
    let mut instructions: Vec<Instruction> = Vec::new();
    let mut pos: usize = 0;
    assert(records(instructions@) =~= Seq::empty());
    assert(prepend(Seq::empty(), listing_from(text@, 0)) == listing_from(text@, 0)) by {
        match listing_from(text@, 0) {
            Ok(tail) => {
                assert(Seq::<(IR, Seq<u8>)>::empty() + tail =~= tail);
            },
            Err(_) => {},
        }
    }
    while pos < text.len()
        invariant
            pos <= text@.len(),
            disassembly(text@) == prepend(records(instructions@), listing_from(text@, pos as int)),
            offset_of(instructions@, instructions@.len() as int) == pos,
        decreases text@.len() - pos,
    {
        let rest = &text[pos..text.len()];
        let ghost done = records(instructions@);
        let ghost before = instructions@;
        match parse_instruction(rest, pos) {
            Ok((ins, n)) => {
                proof {
                    assert(ins.raw@ =~= text@.subrange(pos as int, pos + n));
                    let next = listing_from(text@, pos + n);
                    assert(records(before.push(ins)) =~= done.push(ins@));
                    match next {
                        Ok(tail) => {
                            assert(done + (seq![ins@] + tail) =~= done.push(ins@) + tail);
                        },
                        Err(_) => {},
                    }
                    lemma_offset_push(before, ins);
                }
                instructions.push(ins);
                pos = pos + n;
            },
            Err(DisassemblerError::UnexpectedEOF) => {
                let ins = Instruction::new(IR::Undefined, slice_to_vec(rest));
                proof {
                    assert(records(before.push(ins)) =~= done.push(ins@));
                    assert(done + seq![ins@] =~= done.push(ins@) + Seq::empty());
                    lemma_offset_push(before, ins);
                }
                instructions.push(ins);
                pos = text.len();
            },
            Err(e) => {
                return Err(e);
            },
        }
    }
    proof {
        assert(records(instructions@) + Seq::empty() =~= records(instructions@));
    }
    Ok(instructions)
}

/// Adding an instruction at the end moves the end offset by its length
/// and leaves the offsets before it.
pub proof fn lemma_offset_push(instructions: Seq<Instruction>, ins: Instruction)
    ensures
        offset_of(instructions.push(ins), instructions.len() as int + 1) == offset_of(
            instructions,
            instructions.len() as int,
        ) + ins.raw@.len(),
{
    lemma_offset_prefix(instructions, ins, instructions.len() as int);
}

/// The offsets of the instructions of a program do not depend on what
/// comes after them.
pub proof fn lemma_offset_prefix(instructions: Seq<Instruction>, ins: Instruction, i: int)
    requires
        0 <= i <= instructions.len(),
    ensures
        offset_of(instructions.push(ins), i) == offset_of(instructions, i),
    decreases i,
{
    if i > 0 {
        lemma_offset_prefix(instructions, ins, i - 1);
    }
}

/// What can be disassembled.
pub trait Disassemblable {
    /// The machine code to disassemble.
    spec fn code(&self) -> Seq<u8>;

    /// Decodes the machine code from its first byte to its last.
    fn disassemble(&self) -> (res: Result<DisassembledProgram, DisassemblerError>)
        ensures
            disassembles(self.code(), res),
    ;
}

impl Disassemblable for Program {
    /// The text segment.
    open spec fn code(&self) -> Seq<u8> {
        self.text_segment.data@
    }

    fn disassemble(&self) -> (res: Result<DisassembledProgram, DisassemblerError>) {
        match disassemble_bytes(self.text_segment.data.as_slice()) {
            Ok(instructions) => Ok(
                DisassembledProgram::new(instructions, self.data_segment.data.clone()),
            ),
            Err(e) => Err(e),
        }
    }
}

} // verus!
