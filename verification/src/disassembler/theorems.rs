//! What follows from the encoding: how many bytes an instruction takes,
//! and what its line in a listing shows of them.

use vstd::prelude::*;
use crate::text::{hex_bytes, hex_padded, lemma_hex_bytes_len, pad_right};
use crate::x86::instruction::{Instruction, IR};
use crate::disassembler::disassembled_program::line_text;
use crate::disassembler::encoding::{decode, lemma_decode_len};
use crate::disassembler::error::DisassemblerError;

verus! {

/// The width of the column of a listing that shows the bytes.
pub const BYTES_COLUMN: usize = 14;

/// An instruction takes no more bytes than were given, and no more than
/// fifteen.
pub proof fn lemma_consumed(bytes: Seq<u8>, ip: int, ir: IR, n: int)
    requires
        decode(bytes, ip) == Ok::<(IR, int), DisassemblerError>((ir, n)),
    ensures
        1 <= n <= 15,
        n <= bytes.len(),
{
    lemma_decode_len(bytes, ip);
}

/// The text of the record of a decoded instruction begins with the bytes
/// of the instruction in hexadecimal, then spaces up to the width of the
/// column, then the instruction.
pub proof fn lemma_record_shows_bytes(bytes: Seq<u8>, ip: int, ins: Instruction, n: int)
    requires
        decode(bytes, ip) == Ok::<(IR, int), DisassemblerError>((ins.ir, n)),
        ins.raw@ == bytes.subrange(0, n),
    ensures
        2 * n <= BYTES_COLUMN <= ins.text().len(),
        ins.text().subrange(0, 2 * n) == hex_bytes(bytes.subrange(0, n)),
        forall|i: int| 2 * n <= i < BYTES_COLUMN ==> ins.text()[i] == ' ',
        ins.text().subrange(BYTES_COLUMN as int, ins.text().len() as int) == ins.ir.text(),
{
    lemma_decode_len(bytes, ip);
    let column = hex_bytes(ins.raw@);
    lemma_hex_bytes_len(ins.raw@);
    assert(column.len() == 2 * n);
    let padded = pad_right(column, BYTES_COLUMN as nat);
    assert(padded.len() == BYTES_COLUMN);
    assert(ins.text() == padded + ins.ir.text());
    assert(ins.text().subrange(0, 2 * n) =~= column);
    assert(ins.text().subrange(BYTES_COLUMN as int, ins.text().len() as int) =~= ins.ir.text());
}

/// The line of a decoded instruction shows, after the offset, a colon and
/// a space, the bytes of the instruction in hexadecimal.
pub proof fn lemma_line_shows_bytes(
    bytes: Seq<u8>,
    ip: int,
    ins: Instruction,
    n: int,
    offset: nat,
)
    requires
        decode(bytes, ip) == Ok::<(IR, int), DisassemblerError>((ins.ir, n)),
        ins.raw@ == bytes.subrange(0, n),
    ensures
        ({
            let start = hex_padded(offset, 4).len() + 2;
            line_text(offset, ins).subrange(start as int, start + 2 * n) == hex_bytes(
                bytes.subrange(0, n),
            )
        }),
{
    lemma_record_shows_bytes(bytes, ip, ins, n);
    lemma_consumed(bytes, ip, ins.ir, n);
    reveal_strlit(": ");
    let head = hex_padded(offset, 4) + ": "@;
    let start = hex_padded(offset, 4).len() + 2;
    assert(head.len() == start);
    let body = head + ins.text();
    let line = line_text(offset, ins);
    assert(line == body + "\n"@);
    let shown = ins.text().subrange(0, 2 * n);
    assert forall|i: int| 0 <= i < 2 * n implies line.subrange(start as int, start + 2 * n)[i]
        == shown[i] by {
        assert(body[start + i] == ins.text()[i]);
        assert(line[start + i] == body[start + i]);
    }
    assert(body.len() == start + ins.text().len());
    assert(line.len() >= body.len());
    assert(shown.len() == 2 * n);
    assert(line.subrange(start as int, start + 2 * n).len() == 2 * n);
    assert(line.subrange(start as int, start + 2 * n) =~= shown);
}

} // verus!
