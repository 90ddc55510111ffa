//! The encoding of 8086 instructions, as a function from bytes to
//! instructions.
//!
//! An instruction is one opcode byte, then, depending on the opcode, a
//! ModR/M byte with zero to two displacement bytes, then zero to two
//! immediate bytes. `decode` is the whole table; the functions before it
//! describe the shapes that the table is made of.

use vstd::prelude::*;
use crate::word::{i8_of, i16_of, le_word};
use crate::x86::address::Address;
use crate::x86::displacement::Displacement;
use crate::x86::instruction::IR;
use crate::x86::operand::Operand;
use crate::x86::register::Register;
use crate::disassembler::error::DisassemblerError;

verus! {

/// The longest instruction that the table holds: opcode, ModR/M, two
/// displacement bytes, two immediate bytes.
pub const MAX_ENCODED_LEN: usize = 6;

/// The two top bits of a ModR/M byte: the addressing mode.
pub open spec fn modrm_mod(b: u8) -> u8 {
    b / 64
}

/// The three middle bits of a ModR/M byte: a register, or a sub-opcode.
pub open spec fn modrm_reg(b: u8) -> u8 {
    (b / 8) % 8
}

/// The three low bits of a ModR/M byte: the register or memory operand.
pub open spec fn modrm_rm(b: u8) -> u8 {
    b % 8
}

/// The width bit of an opcode: bit 0.
pub open spec fn bit_w(op: u8) -> bool {
    op % 2 == 1
}

/// The direction (or sign, or count) bit of an opcode: bit 1.
pub open spec fn bit_d(op: u8) -> bool {
    (op / 2) % 2 == 1
}

/// How many displacement bytes follow a ModR/M byte.
pub open spec fn disp_len(mod_: u8, rm: u8) -> int {
    if mod_ == 0 {
        if rm == 6 { 2 } else { 0 }
    } else if mod_ == 1 {
        1
    } else if mod_ == 2 {
        2
    } else {
        0
    }
}

/// The memory operand with the registers that `rm` selects.
pub open spec fn indexed(rm: u8, disp: Option<Displacement>) -> Operand {
    Operand::MemoryAddress(
        Address { base: Register::spec_base(rm), index: Register::spec_index(rm), disp },
    )
}

/// The operand that the `mod` and `r/m` fields select, where `d0` and `d1`
/// are the two bytes after the ModR/M byte.
///
/// Mode 3 is a register. Mode 0 has no displacement, except that `r/m` 6
/// is a direct address of two bytes. Mode 1 has one displacement byte,
/// sign-extended; mode 2 has two.
pub open spec fn rm_operand(mod_: u8, rm: u8, w: bool, d0: u8, d1: u8) -> Operand {
    if mod_ == 3 {
        Operand::Register(Register::spec_from(rm, w))
    } else if mod_ == 0 && rm == 6 {
        Operand::MemoryAddress(
            Address {
                base: None,
                index: None,
                disp: Some(Displacement::Long(i16_of(le_word(d0, d1) as int))),
            },
        )
    } else if mod_ == 0 {
        indexed(rm, None)
    } else if mod_ == 1 {
        indexed(rm, Some(Displacement::Long(i8_of(d0 as int) as i16)))
    } else {
        indexed(rm, Some(Displacement::Long(i16_of(le_word(d0, d1) as int))))
    }
}

/// The register operand named by the middle field of the ModR/M byte at
/// index `at`.
pub open spec fn reg_at(bytes: Seq<u8>, at: int, w: bool) -> Operand {
    Operand::Register(Register::spec_from(modrm_reg(bytes[at]), w))
}

/// The register or memory operand selected by the ModR/M byte at index
/// `at`.
pub open spec fn rm_at(bytes: Seq<u8>, at: int, w: bool) -> Operand {
    rm_operand(modrm_mod(bytes[at]), modrm_rm(bytes[at]), w, bytes[at + 1], bytes[at + 2])
}

/// The number of bytes that the ModR/M byte at index `at` and its
/// displacement take.
pub open spec fn rm_size(bytes: Seq<u8>, at: int) -> int {
    1 + disp_len(modrm_mod(bytes[at]), modrm_rm(bytes[at]))
}

/// Whether the bytes hold a ModR/M byte at index `at` with all of its
/// displacement.
pub open spec fn has_modrm(bytes: Seq<u8>, at: int) -> bool {
    at < bytes.len() && at + rm_size(bytes, at) <= bytes.len()
}

/// The accumulator of the given width.
pub open spec fn accumulator(w: bool) -> Operand {
    if w {
        Operand::Register(Register::AX)
    } else {
        Operand::Register(Register::AL)
    }
}

/// The immediate of the given width stored at index `at`.
pub open spec fn immediate_at(bytes: Seq<u8>, at: int, w: bool) -> Operand {
    if w {
        Operand::LongImmediate(le_word(bytes[at], bytes[at + 1]))
    } else {
        Operand::Immediate(bytes[at])
    }
}

/// The number of bytes of an immediate of the given width.
pub open spec fn imm_len(w: bool) -> int {
    if w { 2 } else { 1 }
}

/// The target of a short branch at offset `ip`: the offset after the two
/// bytes of the branch, plus the displacement byte read as signed, modulo
/// 2^16.
pub open spec fn short_target(bytes: Seq<u8>, ip: int) -> Operand {
    Operand::Displacement(Displacement::Long(i16_of(ip + 2 + i8_of(bytes[1] as int))))
}

/// The target of a near branch at offset `ip`: the offset after the three
/// bytes of the branch, plus the displacement word read as signed, modulo
/// 2^16.
pub open spec fn near_target(bytes: Seq<u8>, ip: int) -> Operand {
    Operand::Displacement(
        Displacement::Long(i16_of(ip + 3 + i16_of(le_word(bytes[1], bytes[2]) as int))),
    )
}

/// The result of decoding: an instruction and the number of bytes it
/// takes, or the reason why there is none.
pub type Decoded = Result<(IR, int), DisassemblerError>;

/// An instruction of `len` bytes without a ModR/M byte.
pub open spec fn fixed(bytes: Seq<u8>, len: int, ir: IR) -> Decoded {
    if bytes.len() < len {
        Err(DisassemblerError::UnexpectedEOF)
    } else {
        Ok((ir, len))
    }
}

/// An instruction whose second byte is a ModR/M byte: `make` builds it
/// from the register operand and the register-or-memory operand.
pub open spec fn with_modrm(
    bytes: Seq<u8>,
    w: bool,
    make: spec_fn(Operand, Operand) -> IR,
) -> Decoded {
    if !has_modrm(bytes, 1) {
        Err(DisassemblerError::UnexpectedEOF)
    } else {
        Ok((make(reg_at(bytes, 1, w), rm_at(bytes, 1, w)), 1 + rm_size(bytes, 1)))
    }
}

/// An instruction with the direction and width bits in its opcode and a
/// ModR/M byte: `make` takes the destination and the source. With the
/// direction bit set the register is the destination.
pub open spec fn reg_and_rm(bytes: Seq<u8>, make: spec_fn(Operand, Operand) -> IR) -> Decoded {
    with_modrm(
        bytes,
        bit_w(bytes[0]),
        |reg: Operand, rm: Operand|
            if bit_d(bytes[0]) {
                make(reg, rm)
            } else {
                make(rm, reg)
            },
    )
}

/// An instruction on the accumulator and an immediate of the width that
/// the opcode gives: `make` takes the destination and the source.
pub open spec fn acc_and_imm(bytes: Seq<u8>, make: spec_fn(Operand, Operand) -> IR) -> Decoded {
    let w = bit_w(bytes[0]);
    fixed(bytes, 1 + imm_len(w), make(accumulator(w), immediate_at(bytes, 1, w)))
}

/// An instruction whose ModR/M byte holds a sub-opcode in its middle
/// field: `table` gives the instruction for the sub-opcode and the
/// operand, or nothing where the sub-opcode is not in use.
pub open spec fn grouped(
    bytes: Seq<u8>,
    w: bool,
    table: spec_fn(u8, Operand) -> Option<IR>,
) -> Decoded {
    if !has_modrm(bytes, 1) {
        Err(DisassemblerError::UnexpectedEOF)
    } else {
        match table(modrm_reg(bytes[1]), rm_at(bytes, 1, w)) {
            Some(ir) => Ok((ir, 1 + rm_size(bytes, 1))),
            None => Err(DisassemblerError::InvalidOpcode(bytes[1])),
        }
    }
}

/// An instruction with a ModR/M byte and, after its displacement, an
/// immediate of `len` bytes: `make` takes the sub-opcode, the operand and
/// the index of the immediate.
pub open spec fn with_modrm_and_imm(
    bytes: Seq<u8>,
    w: bool,
    len: int,
    make: spec_fn(u8, Operand, int) -> IR,
) -> Decoded {
    if !has_modrm(bytes, 1) || bytes.len() < 1 + rm_size(bytes, 1) + len {
        Err(DisassemblerError::UnexpectedEOF)
    } else {
        Ok(
            (
                make(modrm_reg(bytes[1]), rm_at(bytes, 1, w), 1 + rm_size(bytes, 1)),
                1 + rm_size(bytes, 1) + len,
            ),
        )
    }
}

/// The arithmetic instruction that a sub-opcode of the immediate group
/// selects.
pub open spec fn arithmetic(sub: u8, dest: Operand, src: Operand, byte: bool) -> IR {
    if sub == 0 {
        IR::Add { dest, src }
    } else if sub == 1 {
        IR::Or { dest, src }
    } else if sub == 2 {
        IR::Adc { dest, src }
    } else if sub == 3 {
        IR::Ssb { dest, src }
    } else if sub == 4 {
        IR::And { dest, src }
    } else if sub == 5 {
        IR::Sub { dest, src }
    } else if sub == 6 {
        IR::Xor { dest, src }
    } else {
        IR::Cmp { dest, src, byte }
    }
}

/// The immediate of the immediate group at index `at`: a word when only
/// the width bit is set, a sign-extended byte when the sign bit is set
/// too, a byte otherwise.
pub open spec fn group_immediate(bytes: Seq<u8>, at: int) -> Operand {
    let op = bytes[0];
    if bit_w(op) && !bit_d(op) {
        Operand::LongImmediate(le_word(bytes[at], bytes[at + 1]))
    } else if bit_w(op) {
        Operand::SignExtendedImmediate(i8_of(bytes[at] as int))
    } else {
        Operand::Immediate(bytes[at])
    }
}

/// The shift or rotate that a sub-opcode selects; sub-opcode 6 is not in
/// use.
pub open spec fn shift(sub: u8, dest: Operand, src: Operand) -> Option<IR> {
    if sub == 0 {
        Some(IR::Rol { dest, src })
    } else if sub == 1 {
        Some(IR::Ror { dest, src })
    } else if sub == 2 {
        Some(IR::Rcl { dest, src })
    } else if sub == 3 {
        Some(IR::Rcr { dest, src })
    } else if sub == 4 {
        Some(IR::Shl { dest, src })
    } else if sub == 5 {
        Some(IR::Shr { dest, src })
    } else if sub == 7 {
        Some(IR::Sar { dest, src })
    } else {
        None
    }
}

/// The one-operand instruction that a sub-opcode of the unary group
/// selects, the test against an immediate left aside; sub-opcode 1 is not
/// in use.
pub open spec fn unary(sub: u8, dest: Operand) -> Option<IR> {
    if sub == 2 {
        Some(IR::Not { dest })
    } else if sub == 3 {
        Some(IR::Neg { dest })
    } else if sub == 4 {
        Some(IR::Mul { dest })
    } else if sub == 5 {
        Some(IR::Imul { dest })
    } else if sub == 6 {
        Some(IR::Div { dest })
    } else if sub == 7 {
        Some(IR::Idiv { dest })
    } else {
        None
    }
}

/// The instruction that a sub-opcode of the indirect group selects;
/// sub-opcode 7 is not in use.
pub open spec fn indirect(sub: u8, rm: Operand) -> Option<IR> {
    if sub == 0 {
        Some(IR::Inc { dest: rm })
    } else if sub == 1 {
        Some(IR::Dec { dest: rm })
    } else if sub == 2 || sub == 3 {
        Some(IR::Call { dest: rm })
    } else if sub == 4 || sub == 5 {
        Some(IR::Jmp { dest: rm, short: false })
    } else if sub == 6 {
        Some(IR::Push { src: rm })
    } else {
        None
    }
}

/// The string instruction with the given opcode, if it is one: the width
/// is bit 0, the rest of the byte selects the instruction.
pub open spec fn string_op(op: u8) -> Option<IR> {
    let word = bit_w(op);
    if op / 2 == 0x52 {
        Some(IR::Movs { word })
    } else if op / 2 == 0x53 {
        Some(IR::Cmps { word })
    } else if op / 2 == 0x55 {
        Some(IR::Stos { word })
    } else if op / 2 == 0x56 {
        Some(IR::Lods { word })
    } else if op / 2 == 0x57 {
        Some(IR::Scas { word })
    } else {
        None
    }
}

/// The conditional branch, loop or short jump with the given opcode and
/// target, if the opcode is one.
pub open spec fn short_branch(op: u8, dest: Operand) -> Option<IR> {
    if op == 0x70 {
        Some(IR::Jo { dest })
    } else if op == 0x71 {
        Some(IR::Jno { dest })
    } else if op == 0x72 {
        Some(IR::Jb { dest })
    } else if op == 0x73 {
        Some(IR::Jnb { dest })
    } else if op == 0x74 {
        Some(IR::Je { dest })
    } else if op == 0x75 {
        Some(IR::Jne { dest })
    } else if op == 0x76 {
        Some(IR::Jbe { dest })
    } else if op == 0x77 {
        Some(IR::Jnbe { dest })
    } else if op == 0x78 {
        Some(IR::Js { dest })
    } else if op == 0x79 {
        Some(IR::Jns { dest })
    } else if op == 0x7A {
        Some(IR::Jp { dest })
    } else if op == 0x7B {
        Some(IR::Jnp { dest })
    } else if op == 0x7C {
        Some(IR::Jl { dest })
    } else if op == 0x7D {
        Some(IR::Jnl { dest })
    } else if op == 0x7E {
        Some(IR::Jle { dest })
    } else if op == 0x7F {
        Some(IR::Jnle { dest })
    } else if op == 0xE0 {
        Some(IR::Loopnz { dest })
    } else if op == 0xE1 {
        Some(IR::Loopz { dest })
    } else if op == 0xE2 {
        Some(IR::Loop { dest })
    } else if op == 0xE3 {
        Some(IR::Jcxz { dest })
    } else if op == 0xEB {
        Some(IR::Jmp { dest, short: true })
    } else {
        None
    }
}

/// The instruction of one byte with the given opcode, if the opcode is
/// one: those without operands, and those that name a word register in
/// their three low bits.
pub open spec fn single_byte(op: u8) -> Option<IR> {
    let reg = Operand::Register(Register::spec_from(op % 8, true));
    if op == 0x27 {
        Some(IR::Baa)
    } else if op == 0x2F {
        Some(IR::Das)
    } else if op == 0x37 {
        Some(IR::Aaa)
    } else if op == 0x3F {
        Some(IR::Aas)
    } else if 0x40 <= op <= 0x47 {
        Some(IR::Inc { dest: reg })
    } else if 0x48 <= op <= 0x4F {
        Some(IR::Dec { dest: reg })
    } else if 0x50 <= op <= 0x57 {
        Some(IR::Push { src: reg })
    } else if 0x58 <= op <= 0x5F {
        Some(IR::Pop { dest: reg })
    } else if 0x90 <= op <= 0x97 {
        Some(IR::Xchg { dest: reg, src: Operand::Register(Register::AX) })
    } else if op == 0x98 {
        Some(IR::Cbw)
    } else if op == 0x99 {
        Some(IR::Cwd)
    } else if op == 0x9B {
        Some(IR::Wait)
    } else if op == 0xC3 || op == 0xCB {
        Some(IR::Ret { src: None })
    } else if op == 0xCC {
        Some(IR::Int { int_type: 3 })
    } else if op == 0xCE {
        Some(IR::Into)
    } else if op == 0xCF {
        Some(IR::Iret)
    } else if op == 0xEC {
        Some(
            IR::In {
                dest: Operand::Register(Register::AL),
                src: Operand::Register(Register::DX),
            },
        )
    } else if op == 0xF0 {
        Some(IR::Lock)
    } else if op == 0xF4 {
        Some(IR::Hlt)
    } else if op == 0xF5 {
        Some(IR::Cmc)
    } else if op == 0xF8 {
        Some(IR::Clc)
    } else if op == 0xF9 {
        Some(IR::Stc)
    } else if op == 0xFA {
        Some(IR::Cli)
    } else if op == 0xFB {
        Some(IR::Sti)
    } else if op == 0xFC {
        Some(IR::Cld)
    } else if op == 0xFD {
        Some(IR::Std)
    } else {
        string_op(op)
    }
}

/// The instructions with the direction and width bits in their opcode, a
/// ModR/M byte and nothing else; or those on the accumulator and an
/// immediate; among the opcodes below 0x40.
pub open spec fn decode_arithmetic(bytes: Seq<u8>) -> Decoded {
    let op = bytes[0];
    if op <= 0x03 {
        reg_and_rm(bytes, |dest: Operand, src: Operand| IR::Add { dest, src })
    } else if op <= 0x05 {
        acc_and_imm(bytes, |dest: Operand, src: Operand| IR::Add { dest, src })
    } else if 0x08 <= op <= 0x0B {
        reg_and_rm(bytes, |dest: Operand, src: Operand| IR::Or { dest, src })
    } else if 0x0C <= op <= 0x0D {
        acc_and_imm(bytes, |dest: Operand, src: Operand| IR::Or { dest, src })
    } else if 0x0E <= op <= 0x0F {
        acc_and_imm(bytes, |dest: Operand, src: Operand| IR::Ssb { dest, src })
    } else if 0x10 <= op <= 0x13 {
        reg_and_rm(bytes, |dest: Operand, src: Operand| IR::Adc { dest, src })
    } else if 0x14 <= op <= 0x15 {
        acc_and_imm(bytes, |dest: Operand, src: Operand| IR::Adc { dest, src })
    } else if 0x18 <= op <= 0x1B {
        reg_and_rm(bytes, |dest: Operand, src: Operand| IR::Ssb { dest, src })
    } else if 0x20 <= op <= 0x23 {
        reg_and_rm(bytes, |dest: Operand, src: Operand| IR::And { dest, src })
    } else if 0x24 <= op <= 0x25 {
        acc_and_imm(bytes, |dest: Operand, src: Operand| IR::And { dest, src })
    } else if 0x28 <= op <= 0x2B {
        reg_and_rm(bytes, |dest: Operand, src: Operand| IR::Sub { dest, src })
    } else if 0x2C <= op <= 0x2D {
        acc_and_imm(bytes, |dest: Operand, src: Operand| IR::Sub { dest, src })
    } else if 0x30 <= op <= 0x33 {
        reg_and_rm(bytes, |dest: Operand, src: Operand| IR::Xor { dest, src })
    } else if 0x34 <= op <= 0x35 {
        acc_and_imm(bytes, |dest: Operand, src: Operand| IR::Xor { dest, src })
    } else if 0x38 <= op <= 0x3B {
        reg_and_rm(bytes, |dest: Operand, src: Operand| IR::Cmp { dest, src, byte: !bit_w(op) })
    } else if 0x3C <= op <= 0x3D {
        acc_and_imm(bytes, |dest: Operand, src: Operand| IR::Cmp { dest, src, byte: !bit_w(op) })
    } else {
        Err(DisassemblerError::InvalidOpcode(op))
    }
}

/// The instructions that move data, among the opcodes that take operands.
pub open spec fn decode_transfer(bytes: Seq<u8>) -> Decoded {
    let op = bytes[0];
    let w = bit_w(op);
    if 0x84 <= op <= 0x85 {
        with_modrm(bytes, w, |reg: Operand, rm: Operand| IR::Test { dest: rm, src: reg, byte: !w })
    } else if 0x86 <= op <= 0x87 {
        with_modrm(bytes, w, |reg: Operand, rm: Operand| IR::Xchg { dest: rm, src: reg })
    } else if 0x88 <= op <= 0x8B {
        reg_and_rm(bytes, |dest: Operand, src: Operand| IR::Mov { dest, src, byte: false })
    } else if op == 0x8C {
        with_modrm(
            bytes,
            false,
            |reg: Operand, rm: Operand| IR::Mov { dest: rm, src: reg, byte: true },
        )
    } else if op == 0x8D {
        with_modrm(bytes, true, |reg: Operand, rm: Operand| IR::Lea { dest: reg, src: rm })
    } else if op == 0x8E {
        with_modrm(
            bytes,
            false,
            |reg: Operand, rm: Operand| IR::Mov { dest: reg, src: rm, byte: true },
        )
    } else if op == 0x8F {
        with_modrm(bytes, true, |reg: Operand, rm: Operand| IR::Pop { dest: rm })
    } else if 0xA0 <= op <= 0xA1 {
        fixed(
            bytes,
            3,
            IR::Mov { dest: accumulator(w), src: immediate_at(bytes, 1, true), byte: !w },
        )
    } else if 0xA2 <= op <= 0xA3 {
        fixed(
            bytes,
            3,
            IR::Mov { dest: immediate_at(bytes, 1, true), src: accumulator(w), byte: !w },
        )
    } else if 0xA8 <= op <= 0xA9 {
        acc_and_imm(bytes, |dest: Operand, src: Operand| IR::Test { dest, src, byte: !w })
    } else if 0xB0 <= op <= 0xBF {
        let wide = (op / 8) % 2 == 1;
        fixed(
            bytes,
            1 + imm_len(wide),
            IR::Mov {
                dest: Operand::Register(Register::spec_from(op % 8, wide)),
                src: immediate_at(bytes, 1, wide),
                byte: !wide,
            },
        )
    } else if op == 0xC4 {
        with_modrm(bytes, true, |reg: Operand, rm: Operand| IR::Les { dest: reg, src: rm })
    } else if op == 0xC5 {
        with_modrm(bytes, true, |reg: Operand, rm: Operand| IR::Lds { dest: reg, src: rm })
    } else if 0xC6 <= op <= 0xC7 {
        with_modrm_and_imm(
            bytes,
            w,
            imm_len(w),
            |sub: u8, rm: Operand, at: int|
                IR::Mov { dest: rm, src: immediate_at(bytes, at, w), byte: !w },
        )
    } else if 0xE4 <= op <= 0xE5 {
        fixed(bytes, 2, IR::In { dest: accumulator(w), src: Operand::Immediate(bytes[1]) })
    } else {
        Err(DisassemblerError::InvalidOpcode(op))
    }
}

/// The instructions whose ModR/M byte holds a sub-opcode, and the other
/// opcodes with a second byte of their own.
pub open spec fn decode_group(bytes: Seq<u8>) -> Decoded {
    let op = bytes[0];
    let w = bit_w(op);
    if 0x80 <= op <= 0x83 {
        with_modrm_and_imm(
            bytes,
            w,
            imm_len(w && !bit_d(op)),
            |sub: u8, rm: Operand, at: int| arithmetic(sub, rm, group_immediate(bytes, at), !w),
        )
    } else if 0xD0 <= op <= 0xD3 {
        let count = if bit_d(op) {
            Operand::Register(Register::CL)
        } else {
            Operand::Immediate(1)
        };
        grouped(bytes, w, |sub: u8, rm: Operand| shift(sub, rm, count))
    } else if 0xF6 <= op <= 0xF7 {
        if has_modrm(bytes, 1) && modrm_reg(bytes[1]) == 0 {
            with_modrm_and_imm(
                bytes,
                w,
                imm_len(w),
                |sub: u8, rm: Operand, at: int|
                    IR::Test { dest: rm, src: immediate_at(bytes, at, w), byte: !w },
            )
        } else {
            grouped(bytes, w, |sub: u8, rm: Operand| unary(sub, rm))
        }
    } else if op == 0xFF {
        grouped(bytes, true, |sub: u8, rm: Operand| indirect(sub, rm))
    } else if 0xD8 <= op <= 0xDF {
        with_modrm(bytes, true, |reg: Operand, rm: Operand| IR::Esc { dest: rm })
    } else if 0xD4 <= op <= 0xD5 {
        if bytes.len() < 2 {
            Err(DisassemblerError::UnexpectedEOF)
        } else if bytes[1] != 0x0A {
            Err(DisassemblerError::InvalidOpcode(op))
        } else if w {
            Ok((IR::Aad, 2))
        } else {
            Ok((IR::Aam, 2))
        }
    } else if 0xF2 <= op <= 0xF3 {
        if bytes.len() < 2 {
            Err(DisassemblerError::UnexpectedEOF)
        } else {
            match string_op(bytes[1]) {
                Some(ir) => Ok((IR::Rep { z: w, string_ir: Box::new(ir) }, 2)),
                None => Err(DisassemblerError::InvalidOpcode(bytes[1])),
            }
        }
    } else if op == 0xC2 {
        fixed(bytes, 3, IR::Ret { src: Some(immediate_at(bytes, 1, true)) })
    } else if op == 0xCD {
        fixed(bytes, 2, IR::Int { int_type: bytes[1] })
    } else {
        decode_transfer(bytes)
    }
}

/// The instruction at the start of `bytes`, which stand at code offset
/// `ip`, and the number of bytes it takes.
///
/// No bytes at all, or fewer than the instruction needs, give
/// `UnexpectedEOF`. An opcode that begins no instruction gives
/// `InvalidOpcode` with that opcode; a sub-opcode that is not in use gives
/// `InvalidOpcode` with the ModR/M byte. The offset matters to branches
/// only: their operand is the absolute target.
#[verifier::opaque]
pub open spec fn decode(bytes: Seq<u8>, ip: int) -> Decoded {
    if bytes.len() == 0 {
        Err(DisassemblerError::UnexpectedEOF)
    } else {
        let op = bytes[0];
        if single_byte(op) is Some {
            Ok((single_byte(op)->0, 1))
        } else if short_branch(op, short_target(bytes, ip)) is Some {
            fixed(bytes, 2, short_branch(op, short_target(bytes, ip))->0)
        } else if op == 0xE8 {
            fixed(bytes, 3, IR::Call { dest: near_target(bytes, ip) })
        } else if op == 0xE9 {
            fixed(bytes, 3, IR::Jmp { dest: near_target(bytes, ip), short: false })
        } else if op < 0x40 {
            decode_arithmetic(bytes)
        } else {
            decode_group(bytes)
        }
    }
}

/// Whether an opcode below 0x40 stands for an arithmetic instruction with
/// operands, if it stands for anything.
pub open spec fn arithmetic_opcode(op: u8) -> bool {
    op < 0x40 && op != 0x27 && op != 0x2F && op != 0x37 && op != 0x3F
}

/// Whether an opcode belongs to the table of groups.
pub open spec fn group_opcode(op: u8) -> bool {
    ||| 0x80 <= op <= 0x83
    ||| 0xD0 <= op <= 0xD5
    ||| 0xD8 <= op <= 0xDF
    ||| 0xF2 <= op <= 0xF3
    ||| 0xF6 <= op <= 0xF7
    ||| op == 0xFF
    ||| op == 0xC2
    ||| op == 0xCD
}

/// Whether an opcode belongs to the table of transfers.
pub open spec fn transfer_opcode(op: u8) -> bool {
    ||| 0x84 <= op <= 0x8F
    ||| 0xA0 <= op <= 0xA3
    ||| 0xA8 <= op <= 0xA9
    ||| 0xB0 <= op <= 0xBF
    ||| 0xC4 <= op <= 0xC7
    ||| 0xE4 <= op <= 0xE5
}

/// Which table decides what the bytes decode to, by their opcode.
#[verifier::rlimit(50)]
pub proof fn lemma_decode_by_opcode(bytes: Seq<u8>, ip: int)
    ensures
        bytes.len() > 0 ==> {
            &&& single_byte(bytes[0]) matches Some(ir) ==> decode(bytes, ip) == Ok::<
                (IR, int),
                DisassemblerError,
            >((ir, 1))
            &&& short_branch(bytes[0], short_target(bytes, ip)) matches Some(ir) ==> decode(
                bytes,
                ip,
            ) == fixed(bytes, 2, ir)
            &&& bytes[0] == 0xE8 ==> decode(bytes, ip) == fixed(
                bytes,
                3,
                IR::Call { dest: near_target(bytes, ip) },
            )
            &&& bytes[0] == 0xE9 ==> decode(bytes, ip) == fixed(
                bytes,
                3,
                IR::Jmp { dest: near_target(bytes, ip), short: false },
            )
            &&& arithmetic_opcode(bytes[0]) ==> decode(bytes, ip) == decode_arithmetic(bytes)
            &&& group_opcode(bytes[0]) ==> decode(bytes, ip) == decode_group(bytes)
            &&& transfer_opcode(bytes[0]) ==> decode(bytes, ip) == decode_transfer(bytes)
        },
{
    reveal(decode);
}

/// A decoded instruction is never longer than the bytes it came from, nor
/// longer than six bytes.
#[verifier::rlimit(50)]
pub proof fn lemma_decode_len(bytes: Seq<u8>, ip: int)
    ensures
        decode(bytes, ip) matches Ok((_, n)) ==> 1 <= n <= MAX_ENCODED_LEN && n <= bytes.len(),
{
    reveal(decode);
}

} // verus!
