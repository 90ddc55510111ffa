//! The canonical encoding of an instruction, and the proof that decoding
//! undoes it.
//!
//! Several byte sequences may decode to one instruction: a register can
//! stand in either field of a ModR/M byte, a small displacement can take
//! one byte or two, the accumulator and the word registers have short
//! forms of their own. `encode` picks one of them: the register in the
//! middle field where both operands are registers, one displacement byte
//! where one suffices, the short form where there is one.

use vstd::prelude::*;
use crate::word::{
    i16_of, i8_of, le_word, lemma_byte_congruent, lemma_word_congruent, lemma_word_of,
    lemma_word_of_word, u16_of, u8_of, word_excess,
};
use crate::x86::displacement::Displacement;
use crate::x86::instruction::IR;
use crate::x86::operand::Operand;
use crate::x86::register::{lemma_code_injective, Register};
use crate::disassembler::encoding::{
    accumulator, arithmetic, bit_d, bit_w, decode, decode_arithmetic, decode_group,
    decode_transfer, disp_len, has_modrm, immediate_at, lemma_decode_by_opcode, modrm_mod,
    modrm_reg, modrm_rm, near_target, reg_at, rm_at, rm_operand, rm_size, shift, short_branch,
    short_target, single_byte, unary,
};
use crate::disassembler::error::DisassemblerError;

verus! {

/// The two bytes of a word, low byte first.
pub open spec fn word_bytes(v: u16) -> Seq<u8> {
    seq![(v % 0x100) as u8, (v / 0x100) as u8]
}

/// The one or two bytes of a byte or word immediate; nothing for any
/// other operand.
pub open spec fn immediate_bytes(operand: Operand) -> Seq<u8> {
    match operand {
        Operand::Immediate(v) => seq![v],
        Operand::LongImmediate(v) => word_bytes(v),
        _ => Seq::empty(),
    }
}

/// The `r/m` field that selects a pair of base and index, if one does.
pub open spec fn rm_of(base: Option<Register>, index: Option<Register>) -> Option<u8> {
    match (base, index) {
        (Some(Register::BX), Some(Register::SI)) => Some(0u8),
        (Some(Register::BX), Some(Register::DI)) => Some(1u8),
        (Some(Register::BP), Some(Register::SI)) => Some(2u8),
        (Some(Register::BP), Some(Register::DI)) => Some(3u8),
        (None, Some(Register::SI)) => Some(4u8),
        (None, Some(Register::DI)) => Some(5u8),
        (Some(Register::BP), None) => Some(6u8),
        (Some(Register::BX), None) => Some(7u8),
        _ => None,
    }
}

/// How a ModR/M byte selects an operand: the mode, the `r/m` field and
/// the displacement bytes.
pub struct RmCode {
    pub mode: u8,
    pub rm: u8,
    pub disp: Seq<u8>,
}

/// How a ModR/M byte selects `operand` at width `w`, if it can.
///
/// A register needs the width `w`. A displacement alone is a direct
/// address. A displacement beside registers takes one byte where it fits
/// and two where it does not; `BP` alone needs a displacement, which
/// decoding then shows.
#[verifier::opaque]
pub open spec fn rm_code(operand: Operand, w: bool) -> Option<RmCode> {
    match operand {
        Operand::Register(r) => if r.spec_is_word() == w {
            Some(RmCode { mode: 3, rm: (r.code() % 8) as u8, disp: Seq::empty() })
        } else {
            None
        },
        Operand::MemoryAddress(a) => match (a.base, a.index, a.disp) {
            (None, None, Some(Displacement::Long(d))) => Some(
                RmCode { mode: 0, rm: 6, disp: word_bytes(u16_of(d as int)) },
            ),
            (base, index, None) => match rm_of(base, index) {
                Some(rm) => if rm == 6 {
                    None
                } else {
                    Some(RmCode { mode: 0, rm, disp: Seq::empty() })
                },
                None => None,
            },
            (base, index, Some(Displacement::Long(d))) => match rm_of(base, index) {
                Some(rm) => if -0x80 <= d <= 0x7F {
                    Some(RmCode { mode: 1, rm, disp: seq![u8_of(d as int)] })
                } else {
                    Some(RmCode { mode: 2, rm, disp: word_bytes(u16_of(d as int)) })
                },
                None => None,
            },
            _ => None,
        },
        _ => None,
    }
}

/// The ModR/M byte with the given fields.
pub open spec fn modrm_byte(mode: u8, reg: u8, rm: u8) -> u8 {
    (mode * 64 + reg * 8 + rm) as u8
}

/// An opcode, a ModR/M byte that selects `operand` and holds `reg` in its
/// middle field, the displacement, and the immediate bytes.
#[verifier::opaque]
pub open spec fn with_rm(opcode: u8, reg: u8, operand: Operand, w: bool, imm: Seq<u8>) -> Option<
    Seq<u8>,
> {
    match rm_code(operand, w) {
        Some(code) => Some(seq![opcode, modrm_byte(code.mode, reg, code.rm)] + code.disp + imm),
        None => None,
    }
}

/// An opcode with the width in bit 0, then a ModR/M byte whose width is
/// that of the register `reg_operand` in its middle field.
pub open spec fn reg_with_rm(opcode: u8, reg_operand: Operand, operand: Operand) -> Option<
    Seq<u8>,
> {
    match reg_operand {
        Operand::Register(r) => with_rm(
            (opcode + if r.spec_is_word() { 1int } else { 0int }) as u8,
            (r.code() % 8) as u8,
            operand,
            r.spec_is_word(),
            Seq::empty(),
        ),
        _ => None,
    }
}

/// The bytes of an arithmetic instruction. `base` is its first opcode,
/// `acc` the opcode of its form with the accumulator and a byte
/// immediate, `sub` its sub-opcode in the immediate group. Where the
/// instruction carries a width, `byte`, the operands must have it.
pub open spec fn encode_arith(
    base: u8,
    acc: u8,
    sub: u8,
    dest: Operand,
    src: Operand,
    byte: Option<bool>,
) -> Option<Seq<u8>> {
    match src {
        Operand::Register(r) => if byte is Some && byte->0 == r.spec_is_word() {
            None
        } else {
            reg_with_rm(base, src, dest)
        },
        Operand::MemoryAddress(_) => match dest {
            Operand::Register(r) => if byte is Some && byte->0 == r.spec_is_word() {
                None
            } else {
                reg_with_rm((base + 2) as u8, dest, src)
            },
            _ => None,
        },
        Operand::Immediate(v) => if byte is Some && !byte->0 {
            None
        } else if dest == accumulator(false) {
            Some(seq![acc, v])
        } else {
            with_rm(0x80, sub, dest, false, seq![v])
        },
        Operand::LongImmediate(v) => if byte is Some && byte->0 {
            None
        } else if dest == accumulator(true) {
            Some(seq![(acc + 1) as u8] + word_bytes(v))
        } else {
            with_rm(0x81, sub, dest, true, word_bytes(v))
        },
        Operand::SignExtendedImmediate(v) => if byte is Some && byte->0 {
            None
        } else {
            with_rm(0x83, sub, dest, true, seq![u8_of(v as int)])
        },
        _ => None,
    }
}

/// The bytes of TEST.
pub open spec fn encode_test(dest: Operand, src: Operand, byte: bool) -> Option<Seq<u8>> {
    match src {
        Operand::Register(r) => if byte == r.spec_is_word() {
            None
        } else {
            reg_with_rm(0x84, src, dest)
        },
        Operand::Immediate(v) => if !byte {
            None
        } else if dest == accumulator(false) {
            Some(seq![0xA8u8, v])
        } else {
            with_rm(0xF6, 0, dest, false, seq![v])
        },
        Operand::LongImmediate(v) => if byte {
            None
        } else if dest == accumulator(true) {
            Some(seq![0xA9u8] + word_bytes(v))
        } else {
            with_rm(0xF7, 0, dest, true, word_bytes(v))
        },
        _ => None,
    }
}

/// The bytes of MOV.
pub open spec fn encode_mov(dest: Operand, src: Operand, byte: bool) -> Option<Seq<u8>> {
    if !byte {
        match (dest, src) {
            (Operand::LongImmediate(a), Operand::Register(r)) => if src == accumulator(true) {
                Some(seq![0xA3u8] + word_bytes(a))
            } else {
                None
            },
            (_, Operand::Register(r)) => reg_with_rm(0x88, src, dest),
            (Operand::Register(r), Operand::MemoryAddress(_)) => reg_with_rm(0x8A, dest, src),
            (Operand::Register(r), Operand::LongImmediate(v)) => if r.spec_is_word() {
                Some(seq![(0xB8 + r.code() % 8) as u8] + word_bytes(v))
            } else {
                None
            },
            (Operand::MemoryAddress(_), Operand::LongImmediate(v)) => with_rm(
                0xC7,
                0,
                dest,
                true,
                word_bytes(v),
            ),
            _ => None,
        }
    } else {
        match (dest, src) {
            (Operand::Register(r), Operand::Immediate(v)) => if r.spec_is_word() {
                None
            } else {
                Some(seq![(0xB0 + r.code() % 8) as u8, v])
            },
            (Operand::MemoryAddress(_), Operand::Immediate(v)) => with_rm(
                0xC6,
                0,
                dest,
                false,
                seq![v],
            ),
            (Operand::Register(r), Operand::LongImmediate(a)) => if dest == accumulator(false) {
                Some(seq![0xA0u8] + word_bytes(a))
            } else {
                None
            },
            (Operand::LongImmediate(a), Operand::Register(r)) => if src == accumulator(false) {
                Some(seq![0xA2u8] + word_bytes(a))
            } else {
                None
            },
            (_, Operand::Register(r)) => if r.spec_is_word() {
                None
            } else {
                with_rm(0x8C, (r.code() % 8) as u8, dest, false, Seq::empty())
            },
            (Operand::Register(r), Operand::MemoryAddress(_)) => if r.spec_is_word() {
                None
            } else {
                with_rm(0x8E, (r.code() % 8) as u8, src, false, Seq::empty())
            },
            _ => None,
        }
    }
}

/// The bytes of an instruction on one operand that has a form of one
/// byte for a word register, `short` plus the code of the register, and
/// a form with a ModR/M byte for memory.
pub open spec fn encode_reg_or_rm(short: u8, opcode: u8, sub: u8, operand: Operand) -> Option<
    Seq<u8>,
> {
    match operand {
        Operand::Register(r) => if r.spec_is_word() {
            Some(seq![(short + r.code() % 8) as u8])
        } else {
            None
        },
        Operand::MemoryAddress(_) => with_rm(opcode, sub, operand, true, Seq::empty()),
        _ => None,
    }
}

/// The bytes of an instruction of the unary group, or of a shift, on a
/// register or on memory: the width is that of the register, and a word
/// for memory. `opcode` is the opcode of the byte-wide form.
pub open spec fn encode_grouped(opcode: u8, sub: u8, operand: Operand) -> Option<Seq<u8>> {
    match operand {
        Operand::Register(r) => with_rm(
            (opcode + if r.spec_is_word() { 1int } else { 0int }) as u8,
            sub,
            operand,
            r.spec_is_word(),
            Seq::empty(),
        ),
        Operand::MemoryAddress(_) => with_rm((opcode + 1) as u8, sub, operand, true, Seq::empty()),
        _ => None,
    }
}

/// The bytes of a shift or rotate: by one, or by `CL`.
pub open spec fn encode_shift(sub: u8, dest: Operand, src: Operand) -> Option<Seq<u8>> {
    if src == Operand::Immediate(1) {
        encode_grouped(0xD0, sub, dest)
    } else if src == Operand::Register(Register::CL) {
        encode_grouped(0xD2, sub, dest)
    } else {
        None
    }
}

/// The bytes of a short branch at offset `ip`: the opcode and the
/// distance to the target from the end of the branch, where that is a
/// signed byte.
pub open spec fn encode_short(opcode: u8, dest: Operand, ip: int) -> Option<Seq<u8>> {
    match dest {
        Operand::Displacement(Displacement::Long(t)) => if -0x80 <= i16_of(t - ip - 2) <= 0x7F {
            Some(seq![opcode, u8_of(t - ip - 2)])
        } else {
            None
        },
        _ => None,
    }
}

/// The bytes of a near branch at offset `ip`: the opcode and the distance
/// to the target from the end of the branch.
pub open spec fn encode_near(opcode: u8, dest: Operand, ip: int) -> Option<Seq<u8>> {
    match dest {
        Operand::Displacement(Displacement::Long(t)) => Some(
            seq![opcode] + word_bytes(u16_of(t - ip - 3)),
        ),
        _ => None,
    }
}

/// The bytes of a jump or call to a target or through a register or
/// memory.
pub open spec fn encode_transfer(near: u8, sub: u8, dest: Operand, ip: int) -> Option<Seq<u8>> {
    match dest {
        Operand::Displacement(_) => encode_near(near, dest, ip),
        Operand::Register(r) => if r.spec_is_word() {
            with_rm(0xFF, sub, dest, true, Seq::empty())
        } else {
            None
        },
        Operand::MemoryAddress(_) => with_rm(0xFF, sub, dest, true, Seq::empty()),
        _ => None,
    }
}

/// The opcode of a string instruction.
pub open spec fn string_code(ir: IR) -> Option<u8> {
    match ir {
        IR::Movs { word } => Some(if word { 0xA5u8 } else { 0xA4u8 }),
        IR::Cmps { word } => Some(if word { 0xA7u8 } else { 0xA6u8 }),
        IR::Stos { word } => Some(if word { 0xABu8 } else { 0xAAu8 }),
        IR::Lods { word } => Some(if word { 0xADu8 } else { 0xACu8 }),
        IR::Scas { word } => Some(if word { 0xAFu8 } else { 0xAEu8 }),
        _ => None,
    }
}

/// The bytes of a load of a word register from a register or memory
/// operand: LEA, LDS, LES.
pub open spec fn encode_load(opcode: u8, dest: Operand, src: Operand) -> Option<Seq<u8>> {
    match dest {
        Operand::Register(r) => if r.spec_is_word() {
            with_rm(opcode, (r.code() % 8) as u8, src, true, Seq::empty())
        } else {
            None
        },
        _ => None,
    }
}

/// The canonical bytes of the instruction `ir` at code offset `ip`;
/// nothing where no bytes decode to `ir`.
pub open spec fn encode(ir: IR, ip: int) -> Option<Seq<u8>> {
    match ir {
        IR::Add { dest, src } => encode_arith(0x00, 0x04, 0, dest, src, None),
        IR::Or { dest, src } => encode_arith(0x08, 0x0C, 1, dest, src, None),
        IR::Adc { dest, src } => encode_arith(0x10, 0x14, 2, dest, src, None),
        IR::Ssb { dest, src } => encode_arith(0x18, 0x0E, 3, dest, src, None),
        IR::And { dest, src } => encode_arith(0x20, 0x24, 4, dest, src, None),
        IR::Sub { dest, src } => encode_arith(0x28, 0x2C, 5, dest, src, None),
        IR::Xor { dest, src } => encode_arith(0x30, 0x34, 6, dest, src, None),
        IR::Cmp { dest, src, byte } => encode_arith(0x38, 0x3C, 7, dest, src, Some(byte)),
        IR::Test { dest, src, byte } => encode_test(dest, src, byte),
        IR::Mov { dest, src, byte } => encode_mov(dest, src, byte),
        IR::Xchg { dest, src } => match dest {
            Operand::Register(r) => if src == accumulator(true) && r.spec_is_word() {
                Some(seq![(0x90 + r.code() % 8) as u8])
            } else {
                reg_with_rm(0x86, src, dest)
            },
            _ => reg_with_rm(0x86, src, dest),
        },
        IR::Push { src } => encode_reg_or_rm(0x50, 0xFF, 6, src),
        IR::Pop { dest } => encode_reg_or_rm(0x58, 0x8F, 0, dest),
        IR::Inc { dest } => encode_reg_or_rm(0x40, 0xFF, 0, dest),
        IR::Dec { dest } => encode_reg_or_rm(0x48, 0xFF, 1, dest),
        IR::Not { dest } => encode_grouped(0xF6, 2, dest),
        IR::Neg { dest } => encode_grouped(0xF6, 3, dest),
        IR::Mul { dest } => encode_grouped(0xF6, 4, dest),
        IR::Imul { dest } => encode_grouped(0xF6, 5, dest),
        IR::Div { dest } => encode_grouped(0xF6, 6, dest),
        IR::Idiv { dest } => encode_grouped(0xF6, 7, dest),
        IR::Rol { dest, src } => encode_shift(0, dest, src),
        IR::Ror { dest, src } => encode_shift(1, dest, src),
        IR::Rcl { dest, src } => encode_shift(2, dest, src),
        IR::Rcr { dest, src } => encode_shift(3, dest, src),
        IR::Shl { dest, src } => encode_shift(4, dest, src),
        IR::Shr { dest, src } => encode_shift(5, dest, src),
        IR::Sar { dest, src } => encode_shift(7, dest, src),
        IR::Lea { dest, src } => encode_load(0x8D, dest, src),
        IR::Les { dest, src } => encode_load(0xC4, dest, src),
        IR::Lds { dest, src } => encode_load(0xC5, dest, src),
        IR::Esc { dest } => match dest {
            Operand::Register(r) => if r.spec_is_word() {
                with_rm(0xD8, 0, dest, true, Seq::empty())
            } else {
                None
            },
            _ => with_rm(0xD8, 0, dest, true, Seq::empty()),
        },
        IR::Call { dest } => encode_transfer(0xE8, 2, dest, ip),
        IR::Jmp { dest, short } => if short {
            encode_short(0xEB, dest, ip)
        } else {
            encode_transfer(0xE9, 4, dest, ip)
        },
        IR::Jo { dest } => encode_short(0x70, dest, ip),
        IR::Jno { dest } => encode_short(0x71, dest, ip),
        IR::Jb { dest } => encode_short(0x72, dest, ip),
        IR::Jnb { dest } => encode_short(0x73, dest, ip),
        IR::Je { dest } => encode_short(0x74, dest, ip),
        IR::Jne { dest } => encode_short(0x75, dest, ip),
        IR::Jbe { dest } => encode_short(0x76, dest, ip),
        IR::Jnbe { dest } => encode_short(0x77, dest, ip),
        IR::Js { dest } => encode_short(0x78, dest, ip),
        IR::Jns { dest } => encode_short(0x79, dest, ip),
        IR::Jp { dest } => encode_short(0x7A, dest, ip),
        IR::Jnp { dest } => encode_short(0x7B, dest, ip),
        IR::Jl { dest } => encode_short(0x7C, dest, ip),
        IR::Jnl { dest } => encode_short(0x7D, dest, ip),
        IR::Jle { dest } => encode_short(0x7E, dest, ip),
        IR::Jnle { dest } => encode_short(0x7F, dest, ip),
        IR::Loopnz { dest } => encode_short(0xE0, dest, ip),
        IR::Loopz { dest } => encode_short(0xE1, dest, ip),
        IR::Loop { dest } => encode_short(0xE2, dest, ip),
        IR::Jcxz { dest } => encode_short(0xE3, dest, ip),
        IR::Ret { src } => match src {
            None => Some(seq![0xC3u8]),
            Some(Operand::LongImmediate(v)) => Some(seq![0xC2u8] + word_bytes(v)),
            _ => None,
        },
        IR::Int { int_type } => if int_type == 3 {
            Some(seq![0xCCu8])
        } else {
            Some(seq![0xCDu8, int_type])
        },
        IR::In { dest, src } => match src {
            Operand::Immediate(port) => if dest == accumulator(false) {
                Some(seq![0xE4u8, port])
            } else if dest == accumulator(true) {
                Some(seq![0xE5u8, port])
            } else {
                None
            },
            Operand::Register(Register::DX) => if dest == accumulator(false) {
                Some(seq![0xECu8])
            } else {
                None
            },
            _ => None,
        },
        IR::Rep { z, string_ir } => match string_code(*string_ir) {
            Some(code) => Some(seq![if z { 0xF3u8 } else { 0xF2u8 }, code]),
            None => None,
        },
        IR::Movs { word } => Some(seq![string_code(ir)->0]),
        IR::Cmps { word } => Some(seq![string_code(ir)->0]),
        IR::Stos { word } => Some(seq![string_code(ir)->0]),
        IR::Lods { word } => Some(seq![string_code(ir)->0]),
        IR::Scas { word } => Some(seq![string_code(ir)->0]),
        IR::Baa => Some(seq![0x27u8]),
        IR::Das => Some(seq![0x2Fu8]),
        IR::Aaa => Some(seq![0x37u8]),
        IR::Aas => Some(seq![0x3Fu8]),
        IR::Cbw => Some(seq![0x98u8]),
        IR::Cwd => Some(seq![0x99u8]),
        IR::Wait => Some(seq![0x9Bu8]),
        IR::Into => Some(seq![0xCEu8]),
        IR::Iret => Some(seq![0xCFu8]),
        IR::Aam => Some(seq![0xD4u8, 0x0Au8]),
        IR::Aad => Some(seq![0xD5u8, 0x0Au8]),
        IR::Lock => Some(seq![0xF0u8]),
        IR::Hlt => Some(seq![0xF4u8]),
        IR::Cmc => Some(seq![0xF5u8]),
        IR::Clc => Some(seq![0xF8u8]),
        IR::Stc => Some(seq![0xF9u8]),
        IR::Cli => Some(seq![0xFAu8]),
        IR::Sti => Some(seq![0xFBu8]),
        IR::Cld => Some(seq![0xFCu8]),
        IR::Std => Some(seq![0xFDu8]),
        _ => None,
    }
}

/// Whether `bytes` decode at offset `ip` to `ir` and to nothing less than
/// all of them.
pub open spec fn decodes(bytes: Seq<u8>, ip: int, ir: IR) -> bool {
    decode(bytes, ip) == Ok::<(IR, int), DisassemblerError>((ir, bytes.len() as int))
}

/// The fields of a ModR/M byte are those it was made of.
pub proof fn lemma_modrm_fields(mode: u8, reg: u8, rm: u8)
    requires
        mode <= 3,
        reg <= 7,
        rm <= 7,
    ensures
        modrm_mod(modrm_byte(mode, reg, rm)) == mode,
        modrm_reg(modrm_byte(mode, reg, rm)) == reg,
        modrm_rm(modrm_byte(mode, reg, rm)) == rm,
{
}

/// The `r/m` field that selects a pair of base and index selects that
/// pair.
pub proof fn lemma_rm_of(base: Option<Register>, index: Option<Register>)
    requires
        rm_of(base, index) is Some,
    ensures
        rm_of(base, index)->0 <= 7,
        Register::spec_base(rm_of(base, index)->0) == base,
        Register::spec_index(rm_of(base, index)->0) == index,
{
}

/// A word is the word of its two bytes, and a signed word the signed
/// reading of its bit pattern.
pub proof fn lemma_word_bytes(v: u16, d: i16)
    ensures
        word_bytes(v).len() == 2,
        le_word(word_bytes(v)[0], word_bytes(v)[1]) == v,
        i16_of(u16_of(d as int) as int) == d,
        -0x80 <= d <= 0x7F ==> i8_of(u8_of(d as int) as int) as i16 == d,
{
}

/// The mode, the `r/m` field and the displacement that select an operand
/// decode to that operand.
#[verifier::rlimit(50)]
pub proof fn lemma_rm_operand(operand: Operand, w: bool, d0: u8, d1: u8)
    requires
        rm_code(operand, w) is Some,
        rm_code(operand, w)->0.disp.len() >= 1 ==> d0 == rm_code(operand, w)->0.disp[0],
        rm_code(operand, w)->0.disp.len() >= 2 ==> d1 == rm_code(operand, w)->0.disp[1],
    ensures
        rm_code(operand, w)->0.mode <= 3,
        rm_code(operand, w)->0.rm <= 7,
        rm_code(operand, w)->0.disp.len() == disp_len(
            rm_code(operand, w)->0.mode,
            rm_code(operand, w)->0.rm,
        ),
        rm_operand(rm_code(operand, w)->0.mode, rm_code(operand, w)->0.rm, w, d0, d1) == operand,
{
    reveal(rm_code);
    let code = rm_code(operand, w)->0;
    match operand {
        Operand::Register(r) => {
            lemma_code_injective(r, Register::spec_from(code.rm, w));
        },
        Operand::MemoryAddress(a) => {
            match a.disp {
                Some(Displacement::Long(d)) => {
                    lemma_word_bytes(u16_of(d as int), d);
                    if a.base is None && a.index is None {
                    } else {
                        lemma_rm_of(a.base, a.index);
                    }
                },
                Some(Displacement::Short(_)) => {},
                None => {
                    lemma_rm_of(a.base, a.index);
                },
            }
        },
        _ => {},
    }
}

/// The ModR/M byte and displacement that select an operand decode to that
/// operand, wherever they stand among the bytes of an instruction.
#[verifier::rlimit(50)]
pub proof fn lemma_rm_code(bytes: Seq<u8>, reg: u8, operand: Operand, w: bool, imm: Seq<u8>)
    requires
        reg <= 7,
        rm_code(operand, w) is Some,
        bytes.len() >= 2,
        bytes[1] == modrm_byte(rm_code(operand, w)->0.mode, reg, rm_code(operand, w)->0.rm),
        bytes.subrange(2, bytes.len() as int) == rm_code(operand, w)->0.disp + imm,
    ensures
        has_modrm(bytes, 1),
        modrm_reg(bytes[1]) == reg,
        rm_at(bytes, 1, w) == operand,
        rm_size(bytes, 1) == 1 + rm_code(operand, w)->0.disp.len(),
        bytes.len() == 2 + rm_code(operand, w)->0.disp.len() + imm.len(),
        forall|k: int|
            0 <= k < imm.len() ==> bytes[1 + rm_size(bytes, 1) + k] == #[trigger] imm[k],
{
    reveal(rm_code);
    let code = rm_code(operand, w)->0;
    let tail = bytes.subrange(2, bytes.len() as int);
    assert(tail.len() == code.disp.len() + imm.len());
    if code.disp.len() >= 1 {
        assert(bytes[2] == tail[0]);
        assert(tail[0] == code.disp[0]);
    }
    if code.disp.len() >= 2 {
        assert(bytes[3] == tail[1]);
        assert(tail[1] == code.disp[1]);
    }
    lemma_rm_operand(operand, w, bytes[2], bytes[3]);
    lemma_modrm_fields(code.mode, reg, code.rm);
    assert forall|k: int| 0 <= k < imm.len() implies bytes[1 + rm_size(bytes, 1) + k]
        == #[trigger] imm[k] by {
        assert(bytes[2 + (code.disp.len() + k)] == tail[code.disp.len() + k]);
        assert(tail[code.disp.len() + k] == imm[k]);
    }
}

/// The bytes that `with_rm` gives decode to the operand, hold the
/// sub-opcode or register in the middle field, and end with the immediate.
#[verifier::rlimit(50)]
pub proof fn lemma_with_rm(opcode: u8, reg: u8, operand: Operand, w: bool, imm: Seq<u8>)
    requires
        reg <= 7,
        with_rm(opcode, reg, operand, w, imm) is Some,
    ensures
        ({
            let bytes = with_rm(opcode, reg, operand, w, imm)->0;
            &&& bytes.len() >= 2
            &&& bytes[0] == opcode
            &&& has_modrm(bytes, 1)
            &&& modrm_reg(bytes[1]) == reg
            &&& rm_at(bytes, 1, w) == operand
            &&& bytes.len() == 1 + rm_size(bytes, 1) + imm.len()
            &&& imm.len() >= 1 ==> bytes[1 + rm_size(bytes, 1)] == imm[0]
            &&& imm.len() >= 2 ==> bytes[2 + rm_size(bytes, 1)] == imm[1]
        }),
{
    reveal(with_rm);
    let code = rm_code(operand, w)->0;
    let bytes = with_rm(opcode, reg, operand, w, imm)->0;
    assert(bytes == seq![opcode, modrm_byte(code.mode, reg, code.rm)] + code.disp + imm);
    assert(bytes.len() >= 2);
    assert(bytes[0] == opcode);
    assert(bytes[1] == modrm_byte(code.mode, reg, code.rm));
    assert(bytes.subrange(2, bytes.len() as int) =~= code.disp + imm);
    lemma_rm_code(bytes, reg, operand, w, imm);
    if imm.len() >= 1 {
        assert(bytes[1 + rm_size(bytes, 1) + 0] == imm[0]);
    }
    if imm.len() >= 2 {
        assert(bytes[1 + rm_size(bytes, 1) + 1] == imm[1]);
    }
}

/// The bytes that `reg_with_rm` gives hold the register in the middle
/// field and the width of the register in bit 0 of the opcode, and decode
/// to the operand.
#[verifier::rlimit(50)]
pub proof fn lemma_reg_with_rm(opcode: u8, reg_operand: Operand, operand: Operand)
    requires
        opcode % 2 == 0,
        opcode < 0xFF,
        reg_with_rm(opcode, reg_operand, operand) is Some,
    ensures
        ({
            let bytes = reg_with_rm(opcode, reg_operand, operand)->0;
            let w = bit_w(bytes[0]);
            &&& bytes.len() >= 2
            &&& bytes[0] == opcode || bytes[0] == opcode + 1
            &&& bit_d(bytes[0]) == bit_d(opcode)
            &&& has_modrm(bytes, 1)
            &&& reg_at(bytes, 1, w) == reg_operand
            &&& rm_at(bytes, 1, w) == operand
            &&& bytes.len() == 1 + rm_size(bytes, 1)
        }),
{
    let r = reg_operand->Register_0;
    let w = r.spec_is_word();
    let op = (opcode + if w { 1int } else { 0int }) as u8;
    lemma_with_rm(op, (r.code() % 8) as u8, operand, w, Seq::empty());
    lemma_code_injective(r, Register::spec_from((r.code() % 8) as u8, w));
}

/// Whether the opcodes and the sub-opcode are those of one arithmetic
/// instruction.
pub open spec fn arith_row(base: u8, acc: u8, sub: u8) -> bool {
    ||| (base == 0x00 && acc == 0x04 && sub == 0)
    ||| (base == 0x08 && acc == 0x0C && sub == 1)
    ||| (base == 0x10 && acc == 0x14 && sub == 2)
    ||| (base == 0x18 && acc == 0x0E && sub == 3)
    ||| (base == 0x20 && acc == 0x24 && sub == 4)
    ||| (base == 0x28 && acc == 0x2C && sub == 5)
    ||| (base == 0x30 && acc == 0x34 && sub == 6)
    ||| (base == 0x38 && acc == 0x3C && sub == 7)
}

/// An arithmetic instruction between a register and a register or memory
/// operand decodes from its canonical bytes.
#[verifier::rlimit(50)]
proof fn lemma_arith_registers(
    base: u8,
    acc: u8,
    sub: u8,
    dest: Operand,
    src: Operand,
    byte: bool,
    ip: int,
)
    requires
        arith_row(base, acc, sub),
        src is Register || src is MemoryAddress,
        encode_arith(base, acc, sub, dest, src, if sub == 7 { Some(byte) } else { None }) is Some,
    ensures
        decodes(
            encode_arith(base, acc, sub, dest, src, if sub == 7 { Some(byte) } else { None })->0,
            ip,
            arithmetic(sub, dest, src, byte),
        ),
{
    let width = if sub == 7 {
        Some(byte)
    } else {
        None
    };
    let encoded = encode_arith(base, acc, sub, dest, src, width)->0;
    lemma_decode_by_opcode(encoded, ip);
    if src is Register {
        lemma_reg_with_rm(base, src, dest);
    } else {
        lemma_reg_with_rm((base + 2) as u8, dest, src);
    }
}

/// An arithmetic instruction with an immediate, in the form of the
/// immediate group, decodes from its bytes.
#[verifier::rlimit(50)]
proof fn lemma_arith_group(sub: u8, dest: Operand, src: Operand, byte: bool, ip: int)
    requires
        sub <= 7,
        src is Immediate || src is LongImmediate || src is SignExtendedImmediate,
        sub == 7 ==> byte == (src is Immediate),
        with_rm(
            if src is Immediate {
                0x80u8
            } else if src is LongImmediate {
                0x81u8
            } else {
                0x83u8
            },
            sub,
            dest,
            !(src is Immediate),
            if src is SignExtendedImmediate {
                seq![u8_of(src->SignExtendedImmediate_0 as int)]
            } else {
                immediate_bytes(src)
            },
        ) is Some,
    ensures
        decodes(
            with_rm(
                if src is Immediate {
                    0x80u8
                } else if src is LongImmediate {
                    0x81u8
                } else {
                    0x83u8
                },
                sub,
                dest,
                !(src is Immediate),
                if src is SignExtendedImmediate {
                    seq![u8_of(src->SignExtendedImmediate_0 as int)]
                } else {
                    immediate_bytes(src)
                },
            )->0,
            ip,
            arithmetic(sub, dest, src, byte),
        ),
{
    match src {
        Operand::Immediate(v) => {
            lemma_with_rm(0x80, sub, dest, false, seq![v]);
            let bytes = with_rm(0x80, sub, dest, false, seq![v])->0;
            assert(bytes[1 + rm_size(bytes, 1)] == seq![v][0]);
            assert(decodes(
                with_rm(0x80, sub, dest, false, seq![v])->0,
                ip,
                arithmetic(sub, dest, src, byte),
            )) by {
                lemma_decode_by_opcode(bytes, ip);
            }
        },
        Operand::LongImmediate(v) => {
            lemma_word_bytes(v, 0);
            lemma_with_rm(0x81, sub, dest, true, word_bytes(v));
            let bytes = with_rm(0x81, sub, dest, true, word_bytes(v))->0;
            assert(bytes[1 + rm_size(bytes, 1)] == word_bytes(v)[0]);
            assert(bytes[1 + rm_size(bytes, 1) + 1] == word_bytes(v)[1]);
            assert(immediate_at(bytes, 1 + rm_size(bytes, 1), true) == src);
            assert(decodes(
                with_rm(0x81, sub, dest, true, word_bytes(v))->0,
                ip,
                arithmetic(sub, dest, src, byte),
            )) by {
                lemma_decode_by_opcode(bytes, ip);
            }
        },
        Operand::SignExtendedImmediate(v) => {
            lemma_with_rm(0x83, sub, dest, true, seq![u8_of(v as int)]);
            let bytes = with_rm(0x83, sub, dest, true, seq![u8_of(v as int)])->0;
            assert(bytes[1 + rm_size(bytes, 1)] == seq![u8_of(v as int)][0]);
            assert(i8_of(u8_of(v as int) as int) == v);
            assert(decodes(
                with_rm(0x83, sub, dest, true, seq![u8_of(v as int)])->0,
                ip,
                arithmetic(sub, dest, src, byte),
            )) by {
                lemma_decode_by_opcode(bytes, ip);
            }
        },
        _ => {},
    }
}

/// An arithmetic instruction on the accumulator and an immediate, in its
/// short form, decodes from its bytes.
#[verifier::rlimit(50)]
proof fn lemma_arith_accumulator(base: u8, acc: u8, sub: u8, src: Operand, byte: bool, ip: int)
    requires
        arith_row(base, acc, sub),
        src is Immediate || src is LongImmediate,
        sub == 7 ==> byte == (src is Immediate),
    ensures
        decodes(
            seq![(acc + if src is Immediate { 0int } else { 1int }) as u8] + immediate_bytes(src),
            ip,
            arithmetic(
                sub,
                accumulator(src is LongImmediate),
                src,
                byte,
            ),
        ),
{
    let op = (acc + if src is Immediate { 0int } else { 1int }) as u8;
    let bytes = seq![op] + immediate_bytes(src);
    let ir = arithmetic(
        sub,
        accumulator(src is LongImmediate),
        src,
        byte,
    );
    match src {
        Operand::LongImmediate(v) => {
            lemma_word_bytes(v, 0);
        },
        _ => {},
    }
    assert(bytes[0] == op);
    assert(bytes.len() == 1 + immediate_bytes(src).len());
    assert(immediate_at(bytes, 1, src is LongImmediate) == src);
    if sub == 0 {
        assert(decodes(bytes, ip, ir)) by {
            lemma_decode_by_opcode(bytes, ip);
        }
    } else if sub == 1 {
        assert(decodes(bytes, ip, ir)) by {
            lemma_decode_by_opcode(bytes, ip);
        }
    } else if sub == 2 {
        assert(decodes(bytes, ip, ir)) by {
            lemma_decode_by_opcode(bytes, ip);
        }
    } else if sub == 3 {
        assert(decodes(bytes, ip, ir)) by {
            lemma_decode_by_opcode(bytes, ip);
        }
    } else if sub == 4 {
        assert(decodes(bytes, ip, ir)) by {
            lemma_decode_by_opcode(bytes, ip);
        }
    } else if sub == 5 {
        assert(decodes(bytes, ip, ir)) by {
            lemma_decode_by_opcode(bytes, ip);
        }
    } else if sub == 6 {
        assert(decodes(bytes, ip, ir)) by {
            lemma_decode_by_opcode(bytes, ip);
        }
    } else {
        assert(decodes(bytes, ip, ir)) by {
            lemma_decode_by_opcode(bytes, ip);
        }
    }
}

/// An arithmetic instruction with an immediate decodes from its canonical
/// bytes.
#[verifier::rlimit(50)]
proof fn lemma_arith_immediates(
    base: u8,
    acc: u8,
    sub: u8,
    dest: Operand,
    src: Operand,
    byte: bool,
    ip: int,
)
    requires
        arith_row(base, acc, sub),
        !(src is Register || src is MemoryAddress),
        encode_arith(base, acc, sub, dest, src, if sub == 7 { Some(byte) } else { None }) is Some,
    ensures
        decodes(
            encode_arith(base, acc, sub, dest, src, if sub == 7 { Some(byte) } else { None })->0,
            ip,
            arithmetic(sub, dest, src, byte),
        ),
{
    match src {
        Operand::Immediate(v) => {
            if dest == accumulator(false) {
                lemma_arith_accumulator(base, acc, sub, src, byte, ip);
                assert(seq![acc, v] =~= seq![acc] + immediate_bytes(src));
            } else {
                lemma_arith_group(sub, dest, src, byte, ip);
            }
        },
        Operand::LongImmediate(v) => {
            if dest == accumulator(true) {
                lemma_arith_accumulator(base, acc, sub, src, byte, ip);
            } else {
                lemma_arith_group(sub, dest, src, byte, ip);
            }
        },
        Operand::SignExtendedImmediate(v) => {
            lemma_arith_group(sub, dest, src, byte, ip);
        },
        _ => {},
    }
}

/// TEST decodes from its canonical bytes.
#[verifier::rlimit(50)]
proof fn lemma_test_forms(dest: Operand, src: Operand, byte: bool, ip: int)
    requires
        encode_test(dest, src, byte) is Some,
    ensures
        decodes(encode_test(dest, src, byte)->0, ip, IR::Test { dest, src, byte }),
{
    let encoded = encode_test(dest, src, byte)->0;
    lemma_decode_by_opcode(encoded, ip);
    match src {
        Operand::Register(r) => {
            lemma_reg_with_rm(0x84, src, dest);
        },
        Operand::Immediate(v) => {
            if dest != accumulator(false) {
                lemma_with_rm(0xF6, 0, dest, false, seq![v]);
            }
        },
        Operand::LongImmediate(v) => {
            lemma_word_bytes(v, 0);
            if dest != accumulator(true) {
                lemma_with_rm(0xF7, 0, dest, true, word_bytes(v));
            }
        },
        _ => {},
    }
}

/// A word-wide MOV decodes from its canonical bytes.
#[verifier::rlimit(50)]
proof fn lemma_mov_words(dest: Operand, src: Operand, ip: int)
    requires
        encode_mov(dest, src, false) is Some,
    ensures
        decodes(encode_mov(dest, src, false)->0, ip, IR::Mov { dest, src, byte: false }),
{
    let encoded = encode_mov(dest, src, false)->0;
    lemma_decode_by_opcode(encoded, ip);
    match (dest, src) {
        (Operand::LongImmediate(a), Operand::Register(r)) => {
            lemma_word_bytes(a, 0);
        },
        (_, Operand::Register(r)) => {
            lemma_reg_with_rm(0x88, src, dest);
        },
        (Operand::Register(r), Operand::MemoryAddress(_)) => {
            lemma_reg_with_rm(0x8A, dest, src);
        },
        (Operand::Register(r), Operand::LongImmediate(v)) => {
            lemma_word_bytes(v, 0);
            lemma_code_injective(
                r,
                Register::spec_from((r.code() % 8) as u8, true),
            );
        },
        (Operand::MemoryAddress(_), Operand::LongImmediate(v)) => {
            lemma_word_bytes(v, 0);
            lemma_with_rm(0xC7, 0, dest, true, word_bytes(v));
        },
        _ => {},
    }
}

/// A byte-wide MOV of an immediate decodes from its canonical bytes.
#[verifier::rlimit(50)]
proof fn lemma_mov_byte_immediate(dest: Operand, src: Operand, ip: int)
    requires
        src is Immediate,
        encode_mov(dest, src, true) is Some,
    ensures
        decodes(encode_mov(dest, src, true)->0, ip, IR::Mov { dest, src, byte: true }),
{
    let bytes = encode_mov(dest, src, true)->0;
    let ir = IR::Mov { dest, src, byte: true };
    let v = src->Immediate_0;
    match dest {
        Operand::Register(r) => {
            lemma_code_injective(
                r,
                Register::spec_from((r.code() % 8) as u8, false),
            );
            assert(bytes == seq![(0xB0 + r.code() % 8) as u8, v]);
            assert(0xB0 <= bytes[0] <= 0xB7 && bytes.len() == 2 && bytes[1] == v);
            assert(bytes[0] % 8 == r.code() % 8);
            assert(decodes(bytes, ip, ir)) by {
                lemma_decode_by_opcode(bytes, ip);
            }
        },
        _ => {
            lemma_with_rm(0xC6, 0, dest, false, seq![v]);
            assert(bytes[1 + rm_size(bytes, 1)] == seq![v][0]);
            assert(immediate_at(bytes, 1 + rm_size(bytes, 1), false) == src);
            assert(decodes(bytes, ip, ir)) by {
                lemma_decode_by_opcode(bytes, ip);
            }
        },
    }
}

/// A byte-wide MOV between the accumulator and a direct address decodes
/// from its canonical bytes.
#[verifier::rlimit(50)]
proof fn lemma_mov_byte_direct(dest: Operand, src: Operand, ip: int)
    requires
        dest is LongImmediate || src is LongImmediate,
        encode_mov(dest, src, true) is Some,
    ensures
        decodes(encode_mov(dest, src, true)->0, ip, IR::Mov { dest, src, byte: true }),
{
    let bytes = encode_mov(dest, src, true)->0;
    let ir = IR::Mov { dest, src, byte: true };
    match (dest, src) {
        (Operand::Register(r), Operand::LongImmediate(a)) => {
            lemma_word_bytes(a, 0);
            assert(bytes == seq![0xA0u8] + word_bytes(a));
            assert(bytes[0] == 0xA0 && bytes.len() == 3);
            assert(immediate_at(bytes, 1, true) == src);
            assert(decodes(bytes, ip, ir)) by {
                lemma_decode_by_opcode(bytes, ip);
            }
        },
        (Operand::LongImmediate(a), Operand::Register(r)) => {
            lemma_word_bytes(a, 0);
            assert(bytes == seq![0xA2u8] + word_bytes(a));
            assert(bytes[0] == 0xA2 && bytes.len() == 3);
            assert(immediate_at(bytes, 1, true) == dest);
            assert(decodes(bytes, ip, ir)) by {
                lemma_decode_by_opcode(bytes, ip);
            }
        },
        _ => {},
    }
}

/// A byte-wide MOV between a byte register and a register or memory
/// operand decodes from its canonical bytes.
#[verifier::rlimit(50)]
proof fn lemma_mov_byte_registers(dest: Operand, src: Operand, ip: int)
    requires
        !(src is Immediate),
        !(dest is LongImmediate || src is LongImmediate),
        encode_mov(dest, src, true) is Some,
    ensures
        decodes(encode_mov(dest, src, true)->0, ip, IR::Mov { dest, src, byte: true }),
{
    let bytes = encode_mov(dest, src, true)->0;
    let ir = IR::Mov { dest, src, byte: true };
    match src {
        Operand::Register(r) => {
            lemma_with_rm(0x8C, (r.code() % 8) as u8, dest, false, Seq::empty());
            lemma_code_injective(
                r,
                Register::spec_from((r.code() % 8) as u8, false),
            );
            assert(reg_at(bytes, 1, false) == src);
            assert(decodes(bytes, ip, ir)) by {
                lemma_decode_by_opcode(bytes, ip);
            }
        },
        _ => {
            let r = dest->Register_0;
            lemma_with_rm(0x8E, (r.code() % 8) as u8, src, false, Seq::empty());
            lemma_code_injective(
                r,
                Register::spec_from((r.code() % 8) as u8, false),
            );
            assert(reg_at(bytes, 1, false) == dest);
            assert(decodes(bytes, ip, ir)) by {
                lemma_decode_by_opcode(bytes, ip);
            }
        },
    }
}

/// A byte-wide MOV decodes from its canonical bytes.
proof fn lemma_mov_bytes(dest: Operand, src: Operand, ip: int)
    requires
        encode_mov(dest, src, true) is Some,
    ensures
        decodes(encode_mov(dest, src, true)->0, ip, IR::Mov { dest, src, byte: true }),
{
    if src is Immediate {
        lemma_mov_byte_immediate(dest, src, ip);
    } else if dest is LongImmediate || src is LongImmediate {
        lemma_mov_byte_direct(dest, src, ip);
    } else {
        lemma_mov_byte_registers(dest, src, ip);
    }
}

/// XCHG decodes from its canonical bytes.
#[verifier::rlimit(50)]
proof fn lemma_xchg_forms(dest: Operand, src: Operand, ip: int)
    requires
        encode(IR::Xchg { dest, src }, ip) is Some,
    ensures
        decodes(encode(IR::Xchg { dest, src }, ip)->0, ip, IR::Xchg { dest, src }),
{
    let bytes = encode(IR::Xchg { dest, src }, ip)->0;
    let ir = IR::Xchg { dest, src };
    let short = dest matches Operand::Register(r) && src == accumulator(true) && r.spec_is_word();
    if short {
        let r = dest->Register_0;
        lemma_code_injective(
            r,
            Register::spec_from((r.code() % 8) as u8, true),
        );
        assert(0x90 <= bytes[0] <= 0x97 && bytes.len() == 1);
        assert(decodes(bytes, ip, ir)) by {
            lemma_decode_by_opcode(bytes, ip);
        }
    } else {
        assert(bytes == reg_with_rm(0x86, src, dest)->0);
        lemma_reg_with_rm(0x86, src, dest);
        if bytes[0] == 0x86 {
            assert(decodes(bytes, ip, ir)) by {
                lemma_decode_by_opcode(bytes, ip);
            }
        } else {
            assert(decodes(bytes, ip, ir)) by {
                lemma_decode_by_opcode(bytes, ip);
            }
        }
    }
}

/// Whether the opcodes and the sub-opcode are those of PUSH, POP, INC or
/// DEC, and `ir` is that instruction on `operand`.
pub open spec fn reg_or_rm_row(short: u8, opcode: u8, sub: u8, operand: Operand, ir: IR) -> bool {
    ||| (short == 0x50 && opcode == 0xFF && sub == 6 && ir == IR::Push { src: operand })
    ||| (short == 0x58 && opcode == 0x8F && sub == 0 && ir == IR::Pop { dest: operand })
    ||| (short == 0x40 && opcode == 0xFF && sub == 0 && ir == IR::Inc { dest: operand })
    ||| (short == 0x48 && opcode == 0xFF && sub == 1 && ir == IR::Dec { dest: operand })
}

/// PUSH, POP, INC and DEC decode from their canonical bytes.
#[verifier::rlimit(50)]
proof fn lemma_reg_or_rm_forms(short: u8, opcode: u8, sub: u8, operand: Operand, ir: IR, ip: int)
    requires
        reg_or_rm_row(short, opcode, sub, operand, ir),
        encode_reg_or_rm(short, opcode, sub, operand) is Some,
    ensures
        decodes(encode_reg_or_rm(short, opcode, sub, operand)->0, ip, ir),
{
    let encoded = encode_reg_or_rm(short, opcode, sub, operand)->0;
    lemma_decode_by_opcode(encoded, ip);
    match operand {
        Operand::Register(r) => {
            lemma_code_injective(
                r,
                Register::spec_from((r.code() % 8) as u8, true),
            );
        },
        _ => {
            lemma_with_rm(opcode, sub, operand, true, Seq::empty());
        },
    }
}

/// The bytes that `encode_grouped` gives hold the sub-opcode and decode
/// to the operand.
#[verifier::rlimit(50)]
proof fn lemma_grouped_forms(opcode: u8, sub: u8, operand: Operand)
    requires
        opcode == 0xF6 || opcode == 0xD0 || opcode == 0xD2,
        sub <= 7,
        encode_grouped(opcode, sub, operand) is Some,
    ensures
        ({
            let bytes = encode_grouped(opcode, sub, operand)->0;
            let w = bit_w(bytes[0]);
            &&& bytes.len() >= 2
            &&& bytes[0] == opcode || bytes[0] == opcode + 1
            &&& has_modrm(bytes, 1)
            &&& modrm_reg(bytes[1]) == sub
            &&& rm_at(bytes, 1, w) == operand
            &&& bytes.len() == 1 + rm_size(bytes, 1)
        }),
{
    match operand {
        Operand::Register(r) => {
            let w = r.spec_is_word();
            let wide = (opcode + if w { 1int } else { 0int }) as u8;
            lemma_with_rm(wide, sub, operand, w, Seq::empty());
        },
        _ => {
            lemma_with_rm((opcode + 1) as u8, sub, operand, true, Seq::empty());
        },
    }
}

/// NOT, NEG, MUL, IMUL, DIV and IDIV decode from their canonical bytes.
#[verifier::rlimit(50)]
proof fn lemma_unary_forms(sub: u8, operand: Operand, ip: int)
    requires
        2 <= sub <= 7,
        encode_grouped(0xF6, sub, operand) is Some,
    ensures
        unary(sub, operand) is Some,
        decodes(
            encode_grouped(0xF6, sub, operand)->0,
            ip,
            unary(sub, operand)->0,
        ),
{
    let encoded = encode_grouped(0xF6, sub, operand)->0;
    lemma_decode_by_opcode(encoded, ip);
    lemma_grouped_forms(0xF6, sub, operand);
}

/// The shifts and rotates decode from their canonical bytes.
#[verifier::rlimit(50)]
proof fn lemma_shift_forms(sub: u8, dest: Operand, src: Operand, ip: int)
    requires
        sub <= 7,
        sub != 6,
        encode_shift(sub, dest, src) is Some,
    ensures
        shift(sub, dest, src) is Some,
        decodes(
            encode_shift(sub, dest, src)->0,
            ip,
            shift(sub, dest, src)->0,
        ),
{
    let encoded = encode_shift(sub, dest, src)->0;
    lemma_decode_by_opcode(encoded, ip);
    if src == Operand::Immediate(1) {
        lemma_grouped_forms(0xD0, sub, dest);
    } else {
        lemma_grouped_forms(0xD2, sub, dest);
    }
}

/// LEA, LDS and LES decode from their canonical bytes.
#[verifier::rlimit(50)]
proof fn lemma_load_forms(opcode: u8, dest: Operand, src: Operand, ir: IR, ip: int)
    requires
        ({
            ||| (opcode == 0x8D && ir == IR::Lea { dest, src })
            ||| (opcode == 0xC4 && ir == IR::Les { dest, src })
            ||| (opcode == 0xC5 && ir == IR::Lds { dest, src })
        }),
        encode_load(opcode, dest, src) is Some,
    ensures
        decodes(encode_load(opcode, dest, src)->0, ip, ir),
{
    let encoded = encode_load(opcode, dest, src)->0;
    lemma_decode_by_opcode(encoded, ip);
    let r = dest->Register_0;
    lemma_with_rm(opcode, (r.code() % 8) as u8, src, true, Seq::empty());
    lemma_code_injective(r, Register::spec_from((r.code() % 8) as u8, true));
}

/// ESC decodes from its canonical bytes.
#[verifier::rlimit(50)]
proof fn lemma_esc_forms(dest: Operand, ip: int)
    requires
        encode(IR::Esc { dest }, ip) is Some,
    ensures
        decodes(encode(IR::Esc { dest }, ip)->0, ip, IR::Esc { dest }),
{
    let encoded = encode(IR::Esc { dest }, ip)->0;
    lemma_decode_by_opcode(encoded, ip);
    lemma_with_rm(0xD8, 0, dest, true, Seq::empty());
}

/// The distance that `encode_short` stores leads back to the target.
proof fn lemma_short_distance(t: i16, ip: int)
    requires
        -0x80 <= i16_of(t - ip - 2) <= 0x7F,
    ensures
        i16_of(ip + 2 + i8_of(u8_of(t - ip - 2) as int)) == t,
{
    let x = t - ip - 2;
    let d = i16_of(x);
    let j = word_excess(x);
    lemma_word_of(x);
    lemma_byte_congruent(x, d as int, 0x100 * j);
    assert(i8_of(x) == d);
    assert(i8_of(u8_of(x) as int) == i8_of(x));
    lemma_word_congruent(ip + 2 + d, t as int, -j);
    lemma_word_of_word(t, 0, 0, 0);
}

/// The distance that `encode_near` stores leads back to the target.
proof fn lemma_near_distance(t: i16, ip: int)
    ensures
        i16_of(ip + 3 + i16_of(u16_of(t - ip - 3) as int)) == t,
{
    let x = t - ip - 3;
    let d = i16_of(x);
    let j = word_excess(x);
    lemma_word_of(x);
    lemma_word_congruent(ip + 3 + d, t as int, -j);
    lemma_word_of_word(t, 0, 0, 0);
}

/// A short branch decodes from its canonical bytes.
#[verifier::rlimit(50)]
proof fn lemma_short_forms(opcode: u8, dest: Operand, ip: int)
    requires
        short_branch(opcode, dest) is Some,
        encode_short(opcode, dest, ip) is Some,
    ensures
        decodes(
            encode_short(opcode, dest, ip)->0,
            ip,
            short_branch(opcode, dest)->0,
        ),
{
    let encoded = encode_short(opcode, dest, ip)->0;
    lemma_decode_by_opcode(encoded, ip);
    let t = dest->Displacement_0->Long_0;
    lemma_short_distance(t, ip);
    let bytes = encode_short(opcode, dest, ip)->0;
    assert(short_target(bytes, ip) == dest);
}

/// CALL and the near JMP decode from their canonical bytes.
#[verifier::rlimit(50)]
proof fn lemma_transfer_forms(near: u8, sub: u8, dest: Operand, ir: IR, ip: int)
    requires
        ({
            ||| (near == 0xE8 && sub == 2 && ir == IR::Call { dest })
            ||| (near == 0xE9 && sub == 4 && ir == IR::Jmp { dest, short: false })
        }),
        encode_transfer(near, sub, dest, ip) is Some,
    ensures
        decodes(encode_transfer(near, sub, dest, ip)->0, ip, ir),
{
    let encoded = encode_transfer(near, sub, dest, ip)->0;
    lemma_decode_by_opcode(encoded, ip);
    match dest {
        Operand::Displacement(Displacement::Long(t)) => {
            lemma_near_distance(t, ip);
            lemma_word_bytes(u16_of(t - ip - 3), 0);
            let bytes = encode_transfer(near, sub, dest, ip)->0;
            assert(near_target(bytes, ip) == dest);
        },
        Operand::Displacement(_) => {},
        _ => {
            lemma_with_rm(0xFF, sub, dest, true, Seq::empty());
        },
    }
}

/// The instructions without a ModR/M byte and without a target decode
/// from their canonical bytes.
#[verifier::rlimit(50)]
proof fn lemma_plain_forms(ir: IR, ip: int)
    requires
        encode(ir, ip) is Some,
        ir is Ret || ir is Int || ir is In || ir is Rep || string_code(ir) is Some || ir is Baa
            || ir is Das || ir is Aaa || ir is Aas || ir is Cbw || ir is Cwd || ir is Wait
            || ir is Into || ir is Iret || ir is Aam || ir is Aad || ir is Lock || ir is Hlt
            || ir is Cmc || ir is Clc || ir is Stc || ir is Cli || ir is Sti || ir is Cld
            || ir is Std,
    ensures
        decodes(encode(ir, ip)->0, ip, ir),
{
    let encoded = encode(ir, ip)->0;
    lemma_decode_by_opcode(encoded, ip);
    match ir {
        IR::Ret { src: Some(Operand::LongImmediate(v)) } => {
            lemma_word_bytes(v, 0);
        },
        _ => {},
    }
}

/// Decoding undoes encoding: the canonical bytes of an instruction decode
/// to that instruction, and to nothing less than all of them.
#[verifier::rlimit(50)]
pub proof fn lemma_encode_then_decode(ir: IR, ip: int)
    requires
        encode(ir, ip) is Some,
    ensures
        decode(encode(ir, ip)->0, ip) == Ok::<(IR, int), DisassemblerError>(
            (ir, encode(ir, ip)->0.len() as int),
        ),
{
    match ir {
        IR::Add { dest, src } => lemma_arith(0x00, 0x04, 0, dest, src, false, ip),
        IR::Or { dest, src } => lemma_arith(0x08, 0x0C, 1, dest, src, false, ip),
        IR::Adc { dest, src } => lemma_arith(0x10, 0x14, 2, dest, src, false, ip),
        IR::Ssb { dest, src } => lemma_arith(0x18, 0x0E, 3, dest, src, false, ip),
        IR::And { dest, src } => lemma_arith(0x20, 0x24, 4, dest, src, false, ip),
        IR::Sub { dest, src } => lemma_arith(0x28, 0x2C, 5, dest, src, false, ip),
        IR::Xor { dest, src } => lemma_arith(0x30, 0x34, 6, dest, src, false, ip),
        IR::Cmp { dest, src, byte } => lemma_arith(0x38, 0x3C, 7, dest, src, byte, ip),
        IR::Test { dest, src, byte } => lemma_test_forms(dest, src, byte, ip),
        IR::Mov { dest, src, byte } => if byte {
            lemma_mov_bytes(dest, src, ip)
        } else {
            lemma_mov_words(dest, src, ip)
        },
        IR::Xchg { dest, src } => lemma_xchg_forms(dest, src, ip),
        IR::Push { src } => lemma_reg_or_rm_forms(0x50, 0xFF, 6, src, ir, ip),
        IR::Pop { dest } => lemma_reg_or_rm_forms(0x58, 0x8F, 0, dest, ir, ip),
        IR::Inc { dest } => lemma_reg_or_rm_forms(0x40, 0xFF, 0, dest, ir, ip),
        IR::Dec { dest } => lemma_reg_or_rm_forms(0x48, 0xFF, 1, dest, ir, ip),
        IR::Not { dest } => lemma_unary_forms(2, dest, ip),
        IR::Neg { dest } => lemma_unary_forms(3, dest, ip),
        IR::Mul { dest } => lemma_unary_forms(4, dest, ip),
        IR::Imul { dest } => lemma_unary_forms(5, dest, ip),
        IR::Div { dest } => lemma_unary_forms(6, dest, ip),
        IR::Idiv { dest } => lemma_unary_forms(7, dest, ip),
        IR::Rol { dest, src } => lemma_shift_forms(0, dest, src, ip),
        IR::Ror { dest, src } => lemma_shift_forms(1, dest, src, ip),
        IR::Rcl { dest, src } => lemma_shift_forms(2, dest, src, ip),
        IR::Rcr { dest, src } => lemma_shift_forms(3, dest, src, ip),
        IR::Shl { dest, src } => lemma_shift_forms(4, dest, src, ip),
        IR::Shr { dest, src } => lemma_shift_forms(5, dest, src, ip),
        IR::Sar { dest, src } => lemma_shift_forms(7, dest, src, ip),
        IR::Lea { dest, src } => lemma_load_forms(0x8D, dest, src, ir, ip),
        IR::Les { dest, src } => lemma_load_forms(0xC4, dest, src, ir, ip),
        IR::Lds { dest, src } => lemma_load_forms(0xC5, dest, src, ir, ip),
        IR::Esc { dest } => lemma_esc_forms(dest, ip),
        IR::Call { dest } => lemma_transfer_forms(0xE8, 2, dest, ir, ip),
        IR::Jmp { dest, short } => if short {
            lemma_short_forms(0xEB, dest, ip)
        } else {
            lemma_transfer_forms(0xE9, 4, dest, ir, ip)
        },
        IR::Jo { dest } => lemma_short_forms(0x70, dest, ip),
        IR::Jno { dest } => lemma_short_forms(0x71, dest, ip),
        IR::Jb { dest } => lemma_short_forms(0x72, dest, ip),
        IR::Jnb { dest } => lemma_short_forms(0x73, dest, ip),
        IR::Je { dest } => lemma_short_forms(0x74, dest, ip),
        IR::Jne { dest } => lemma_short_forms(0x75, dest, ip),
        IR::Jbe { dest } => lemma_short_forms(0x76, dest, ip),
        IR::Jnbe { dest } => lemma_short_forms(0x77, dest, ip),
        IR::Js { dest } => lemma_short_forms(0x78, dest, ip),
        IR::Jns { dest } => lemma_short_forms(0x79, dest, ip),
        IR::Jp { dest } => lemma_short_forms(0x7A, dest, ip),
        IR::Jnp { dest } => lemma_short_forms(0x7B, dest, ip),
        IR::Jl { dest } => lemma_short_forms(0x7C, dest, ip),
        IR::Jnl { dest } => lemma_short_forms(0x7D, dest, ip),
        IR::Jle { dest } => lemma_short_forms(0x7E, dest, ip),
        IR::Jnle { dest } => lemma_short_forms(0x7F, dest, ip),
        IR::Loopnz { dest } => lemma_short_forms(0xE0, dest, ip),
        IR::Loopz { dest } => lemma_short_forms(0xE1, dest, ip),
        IR::Loop { dest } => lemma_short_forms(0xE2, dest, ip),
        IR::Jcxz { dest } => lemma_short_forms(0xE3, dest, ip),
        _ => lemma_plain_forms(ir, ip),
    }
}

/// The two halves of the round trip for an arithmetic instruction.
proof fn lemma_arith(base: u8, acc: u8, sub: u8, dest: Operand, src: Operand, byte: bool, ip: int)
    requires
        arith_row(base, acc, sub),
        encode_arith(base, acc, sub, dest, src, if sub == 7 { Some(byte) } else { None }) is Some,
    ensures
        decodes(
            encode_arith(base, acc, sub, dest, src, if sub == 7 { Some(byte) } else { None })->0,
            ip,
            arithmetic(sub, dest, src, byte),
        ),
{
    if src is Register || src is MemoryAddress {
        lemma_arith_registers(base, acc, sub, dest, src, byte, ip);
    } else {
        lemma_arith_immediates(base, acc, sub, dest, src, byte, ip);
    }
}


/// Whatever operand a ModR/M byte selects, a ModR/M byte can select: the
/// operand at a width has a code at that width, and a memory operand at
/// either.
pub proof fn lemma_rm_operand_has_code(mode: u8, rm: u8, w: bool, d0: u8, d1: u8)
    requires
        mode <= 3,
        rm <= 7,
    ensures
        rm_code(rm_operand(mode, rm, w, d0, d1), w) is Some,
        rm_operand(mode, rm, w, d0, d1) is MemoryAddress ==> rm_code(
            rm_operand(mode, rm, w, d0, d1),
            !w,
        ) is Some,
        rm_operand(mode, rm, w, d0, d1) is Register || rm_operand(mode, rm, w, d0, d1)
            is MemoryAddress,
        rm_operand(mode, rm, w, d0, d1) matches Operand::Register(r) ==> r.spec_is_word() == w,
{
    reveal(rm_code);
}

/// The operands that the ModR/M byte at index 1 selects have codes.
proof fn lemma_operands_have_codes(bytes: Seq<u8>, w: bool)
    ensures
        rm_code(rm_at(bytes, 1, w), w) is Some,
        rm_at(bytes, 1, w) is MemoryAddress ==> rm_code(rm_at(bytes, 1, w), !w) is Some,
        rm_at(bytes, 1, w) is Register || rm_at(bytes, 1, w) is MemoryAddress,
        rm_at(bytes, 1, w) matches Operand::Register(r) ==> r.spec_is_word() == w,
        reg_at(bytes, 1, w) matches Operand::Register(r) && r.spec_is_word() == w,
        rm_code(reg_at(bytes, 1, w), w) is Some,
        modrm_reg(bytes[1]) <= 7,
{
    reveal(rm_code);
    lemma_rm_operand_has_code(modrm_mod(bytes[1]), modrm_rm(bytes[1]), w, bytes[2], bytes[3]);
}

/// An arithmetic instruction on the operands of a ModR/M byte, in either
/// direction, has canonical bytes; so has one on the accumulator and an
/// immediate.
#[verifier::rlimit(50)]
proof fn lemma_arith_operands_have_bytes(
    base: u8,
    acc: u8,
    sub: u8,
    bytes: Seq<u8>,
    w: bool,
    byte: Option<bool>,
)
    requires
        byte is Some ==> byte->0 == !w,
    ensures
        encode_arith(base, acc, sub, rm_at(bytes, 1, w), reg_at(bytes, 1, w), byte) is Some,
        encode_arith(base, acc, sub, reg_at(bytes, 1, w), rm_at(bytes, 1, w), byte) is Some,
        encode_arith(base, acc, sub, accumulator(w), immediate_at(bytes, 1, w), byte) is Some,
{
    reveal(with_rm);
    lemma_operands_have_codes(bytes, w);
}

/// Every arithmetic instruction that bytes decode to has canonical bytes.
#[verifier::rlimit(50)]
proof fn lemma_arithmetic_has_bytes(bytes: Seq<u8>, ip: int)
    requires
        bytes.len() > 0,
        decode_arithmetic(bytes) is Ok,
    ensures
        encode(decode_arithmetic(bytes)->Ok_0.0, ip) is Some,
{
    let op = bytes[0];
    let w = bit_w(op);
    if op <= 0x05 {
        lemma_arith_operands_have_bytes(0x00, 0x04, 0, bytes, w, None);
    } else if op <= 0x0D {
        lemma_arith_operands_have_bytes(0x08, 0x0C, 1, bytes, w, None);
    } else if op <= 0x0F {
        lemma_arith_operands_have_bytes(0x18, 0x0E, 3, bytes, w, None);
    } else if op <= 0x15 {
        lemma_arith_operands_have_bytes(0x10, 0x14, 2, bytes, w, None);
    } else if op <= 0x1B {
        lemma_arith_operands_have_bytes(0x18, 0x0E, 3, bytes, w, None);
    } else if op <= 0x25 {
        lemma_arith_operands_have_bytes(0x20, 0x24, 4, bytes, w, None);
    } else if op <= 0x2D {
        lemma_arith_operands_have_bytes(0x28, 0x2C, 5, bytes, w, None);
    } else if op <= 0x35 {
        lemma_arith_operands_have_bytes(0x30, 0x34, 6, bytes, w, None);
    } else {
        lemma_arith_operands_have_bytes(0x38, 0x3C, 7, bytes, w, Some(!w));
    }
}

/// Every instruction of the transfer table that bytes decode to has
/// canonical bytes.
#[verifier::rlimit(50)]
proof fn lemma_transfer_has_bytes(bytes: Seq<u8>, ip: int)
    requires
        bytes.len() > 0,
        decode_transfer(bytes) is Ok,
    ensures
        encode(decode_transfer(bytes)->Ok_0.0, ip) is Some,
{
    reveal(with_rm);
    lemma_operands_have_codes(bytes, bit_w(bytes[0]));
    lemma_operands_have_codes(bytes, true);
    lemma_operands_have_codes(bytes, false);
}

/// Every instruction of the group table that bytes decode to has
/// canonical bytes.
#[verifier::rlimit(50)]
proof fn lemma_group_has_bytes(bytes: Seq<u8>, ip: int)
    requires
        bytes.len() > 0,
        decode_group(bytes) is Ok,
    ensures
        encode(decode_group(bytes)->Ok_0.0, ip) is Some,
{
    reveal(with_rm);
    let op = bytes[0];
    lemma_operands_have_codes(bytes, bit_w(op));
    lemma_operands_have_codes(bytes, true);
    if 0x80 <= op <= 0x83 || 0xD0 <= op <= 0xD3 || 0xF6 <= op <= 0xF7 || op == 0xFF || 0xD8 <= op
        <= 0xDF || 0xD4 <= op <= 0xD5 || 0xF2 <= op <= 0xF3 || op == 0xC2 || op == 0xCD {
    } else {
        lemma_transfer_has_bytes(bytes, ip);
    }
}

/// The target of a short branch is within reach of the shortest bytes.
proof fn lemma_short_target_in_reach(opcode: u8, bytes: Seq<u8>, ip: int)
    ensures
        encode_short(opcode, short_target(bytes, ip), ip) is Some,
{
    let d = i8_of(bytes[1] as int);
    let y = ip + 2 + d;
    let t = i16_of(y);
    lemma_word_of(y);
    lemma_word_congruent(t - ip - 2, d as int, -word_excess(y));
    assert(i16_of(t - ip - 2) == i16_of(d as int));
    assert(i16_of(d as int) == d);
}

/// The canonical bytes of a short branch are those of its opcode and
/// target.
#[verifier::rlimit(50)]
proof fn lemma_encode_of_short_branch(opcode: u8, dest: Operand, ip: int)
    requires
        short_branch(opcode, dest) is Some,
    ensures
        encode(short_branch(opcode, dest)->0, ip) == encode_short(
            opcode,
            dest,
            ip,
        ),
{
    if opcode == 0x70 {
        assert(encode(IR::Jo { dest }, ip) == encode_short(0x70, dest, ip));
    } else if opcode == 0x71 {
        assert(encode(IR::Jno { dest }, ip) == encode_short(0x71, dest, ip));
    } else if opcode == 0x72 {
        assert(encode(IR::Jb { dest }, ip) == encode_short(0x72, dest, ip));
    } else if opcode == 0x73 {
        assert(encode(IR::Jnb { dest }, ip) == encode_short(0x73, dest, ip));
    } else if opcode == 0x74 {
        assert(encode(IR::Je { dest }, ip) == encode_short(0x74, dest, ip));
    } else if opcode == 0x75 {
        assert(encode(IR::Jne { dest }, ip) == encode_short(0x75, dest, ip));
    } else if opcode == 0x76 {
        assert(encode(IR::Jbe { dest }, ip) == encode_short(0x76, dest, ip));
    } else if opcode == 0x77 {
        assert(encode(IR::Jnbe { dest }, ip) == encode_short(0x77, dest, ip));
    } else if opcode == 0x78 {
        assert(encode(IR::Js { dest }, ip) == encode_short(0x78, dest, ip));
    } else if opcode == 0x79 {
        assert(encode(IR::Jns { dest }, ip) == encode_short(0x79, dest, ip));
    } else if opcode == 0x7A {
        assert(encode(IR::Jp { dest }, ip) == encode_short(0x7A, dest, ip));
    } else if opcode == 0x7B {
        assert(encode(IR::Jnp { dest }, ip) == encode_short(0x7B, dest, ip));
    } else if opcode == 0x7C {
        assert(encode(IR::Jl { dest }, ip) == encode_short(0x7C, dest, ip));
    } else if opcode == 0x7D {
        assert(encode(IR::Jnl { dest }, ip) == encode_short(0x7D, dest, ip));
    } else if opcode == 0x7E {
        assert(encode(IR::Jle { dest }, ip) == encode_short(0x7E, dest, ip));
    } else if opcode == 0x7F {
        assert(encode(IR::Jnle { dest }, ip) == encode_short(0x7F, dest, ip));
    } else if opcode == 0xE0 {
        assert(encode(IR::Loopnz { dest }, ip) == encode_short(0xE0, dest, ip));
    } else if opcode == 0xE1 {
        assert(encode(IR::Loopz { dest }, ip) == encode_short(0xE1, dest, ip));
    } else if opcode == 0xE2 {
        assert(encode(IR::Loop { dest }, ip) == encode_short(0xE2, dest, ip));
    } else if opcode == 0xE3 {
        assert(encode(IR::Jcxz { dest }, ip) == encode_short(0xE3, dest, ip));
    } else {
        assert(encode(IR::Jmp { dest, short: true }, ip) == encode_short(0xEB, dest, ip));
    }
}

/// A short branch, a near jump and a near call that bytes decode to have
/// canonical bytes.
proof fn lemma_branch_has_bytes(bytes: Seq<u8>, ip: int)
    requires
        bytes.len() >= 2,
    ensures
        short_branch(bytes[0], short_target(bytes, ip)) is Some
            ==> encode(
            short_branch(bytes[0], short_target(bytes, ip))->0,
            ip,
        ) is Some,
        encode(IR::Call { dest: near_target(bytes, ip) }, ip) is Some,
        encode(IR::Jmp { dest: near_target(bytes, ip), short: false }, ip) is Some,
{
    lemma_short_target_in_reach(bytes[0], bytes, ip);
    if short_branch(bytes[0], short_target(bytes, ip)) is Some {
        lemma_encode_of_short_branch(bytes[0], short_target(bytes, ip), ip);
    }
}

/// Every instruction of one byte has canonical bytes.
proof fn lemma_single_byte_has_bytes(op: u8, ip: int)
    requires
        single_byte(op) is Some,
    ensures
        encode(single_byte(op)->0, ip) is Some,
{
}

/// Every instruction that bytes decode to has canonical bytes: encoding
/// is defined wherever decoding leads.
#[verifier::rlimit(50)]
pub proof fn lemma_decoded_has_bytes(bytes: Seq<u8>, ip: int)
    requires
        decode(bytes, ip) is Ok,
    ensures
        encode(decode(bytes, ip)->Ok_0.0, ip) is Some,
{
    let op = bytes[0];
    assert(bytes.len() > 0) by {
        reveal(decode);
    }
    if single_byte(op) is Some {
        lemma_single_byte_has_bytes(op, ip);
        assert(decode(bytes, ip)->Ok_0.0 == single_byte(op)->0) by {
            lemma_decode_by_opcode(bytes, ip);
        }
    } else if short_branch(op, short_target(bytes, ip)) is Some {
        assert(bytes.len() >= 2 && decode(bytes, ip)->Ok_0.0
            == short_branch(op, short_target(bytes, ip))->0) by {
            lemma_decode_by_opcode(bytes, ip);
        }
        lemma_branch_has_bytes(bytes, ip);
    } else if op == 0xE8 || op == 0xE9 {
        assert(bytes.len() >= 3 && decode(bytes, ip)->Ok_0.0 == (if op == 0xE8 {
            IR::Call { dest: near_target(bytes, ip) }
        } else {
            IR::Jmp { dest: near_target(bytes, ip), short: false }
        })) by {
            lemma_decode_by_opcode(bytes, ip);
        }
        lemma_branch_has_bytes(bytes, ip);
    } else if op < 0x40 {
        assert(decode(bytes, ip) == decode_arithmetic(bytes)) by {
            reveal(decode);
        }
        lemma_arithmetic_has_bytes(bytes, ip);
    } else {
        assert(decode(bytes, ip) == decode_group(bytes)) by {
            reveal(decode);
        }
        lemma_group_has_bytes(bytes, ip);
    }
}

} // verus!
