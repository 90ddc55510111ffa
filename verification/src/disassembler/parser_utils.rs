//! The pieces of an instruction: ModR/M operands, immediates, branch
//! targets.

use vstd::prelude::*;
use crate::word::{byte_to_i8, sign_extend, word_from_le, word_to_i16, wrap_i16};
use crate::x86::address::Address;
use crate::x86::displacement::Displacement;
use crate::x86::instruction::IR;
use crate::x86::operand::Operand;
use crate::x86::register::Register;
use crate::disassembler::error::DisassemblerError;
use crate::disassembler::encoding::{
    accumulator, bit_d, bit_w, disp_len, has_modrm, imm_len, immediate_at, near_target, reg_at,
    rm_at, rm_operand, rm_size, short_target, string_op,
};

verus! {

/// What reading a ModR/M byte gives: the register operand, the register
/// or memory operand, and the number of bytes taken.
pub type ModRm = Result<(Operand, Operand, usize), DisassemblerError>;

/// What reading the ModR/M byte at index `at` gives.
pub open spec fn spec_modrm_at(bytes: Seq<u8>, at: int, w: bool) -> ModRm {
    if !has_modrm(bytes, at) {
        Err(DisassemblerError::UnexpectedEOF)
    } else {
        Ok((reg_at(bytes, at, w), rm_at(bytes, at, w), rm_size(bytes, at) as usize))
    }
}

/// What `parse_dw_mod_reg_rm_bytes` gives: destination, source and the
/// number of bytes taken, the opcode included.
pub open spec fn spec_dw_mod_reg_rm(bytes: Seq<u8>) -> ModRm {
    match spec_modrm_at(bytes, 1, bit_w(bytes[0])) {
        Ok((reg, rm, n)) => if bit_d(bytes[0]) {
            Ok((reg, rm, (n + 1) as usize))
        } else {
            Ok((rm, reg, (n + 1) as usize))
        },
        Err(e) => Err(e),
    }
}

/// The operand for the given fields, read from `bytes` where the ModR/M
/// byte stands at index `at`. The displacement must be there.
fn read_rm(mod_: u8, rm: u8, bytes: &[u8], at: usize, w: bool) -> (operand: Operand)
    requires
        mod_ <= 3,
        rm <= 7,
        at + 1 + disp_len(mod_, rm) <= bytes@.len(),
    ensures
        operand == rm_operand(mod_, rm, w, bytes@[at + 1], bytes@[at + 2]),
{
    let len = bytes.len();
    if mod_ == 3 {
        Operand::Register(Register::from(rm, w))
    } else if mod_ == 0 && rm == 6 {
        let disp = word_to_i16(word_from_le(bytes[at + 1], bytes[at + 2]));
        Operand::MemoryAddress(Address::new(None, None, Some(Displacement::Long(disp))))
    } else if mod_ == 0 {
        Operand::MemoryAddress(Address::new(Register::get_base(rm), Register::get_index(rm), None))
    } else if mod_ == 1 {
        let disp = sign_extend(bytes[at + 1]);
        Operand::MemoryAddress(
            Address::new(
                Register::get_base(rm),
                Register::get_index(rm),
                Some(Displacement::Long(disp)),
            ),
        )
    } else {
        let disp = word_to_i16(word_from_le(bytes[at + 1], bytes[at + 2]));
        Operand::MemoryAddress(
            Address::new(
                Register::get_base(rm),
                Register::get_index(rm),
                Some(Displacement::Long(disp)),
            ),
        )
    }
}

/// The number of displacement bytes for the given fields.
fn disp_size(mod_: u8, rm: u8) -> (n: usize)
    ensures
        n == disp_len(mod_, rm),
{
    if mod_ == 0 {
        if rm == 6 {
            2
        } else {
            0
        }
    } else if mod_ == 1 {
        1
    } else if mod_ == 2 {
        2
    } else {
        0
    }
}

/// Reads the ModR/M byte at index `at` and the displacement after it.
pub fn modrm_at(bytes: &[u8], at: usize, w: bool) -> (res: ModRm)
    ensures
        res == spec_modrm_at(bytes@, at as int, w),
{
    if bytes.len() <= at {
        return Err(DisassemblerError::UnexpectedEOF);
    }
    let b = bytes[at];
    let mod_ = b / 64;
    let rm = b % 8;
    let size = 1 + disp_size(mod_, rm);
    if bytes.len() - at < size {
        return Err(DisassemblerError::UnexpectedEOF);
    }
    let reg = Operand::Register(Register::from((b / 8) % 8, w));
    Ok((reg, read_rm(mod_, rm, bytes, at, w), size))
}

impl Operand {
    /// What `parse_modrm` gives for the fields `mod_` and `rm` of the
    /// ModR/M byte `bytes[0]`: the operand and the number of displacement
    /// bytes.
    ///
    /// A field out of its range gives `InvalidModRM`; a displacement that
    /// is not all there gives `UnexpectedEOF`.
    pub open spec fn spec_parse_modrm(mod_: u8, rm: u8, bytes: Seq<u8>, w: bool) -> Result<
        (Operand, usize),
        DisassemblerError,
    > {
        if mod_ > 3 || rm > 7 {
            Err(DisassemblerError::InvalidModRM)
        } else if disp_len(mod_, rm) > 0 && bytes.len() < 1 + disp_len(mod_, rm) {
            Err(DisassemblerError::UnexpectedEOF)
        } else {
            Ok((rm_operand(mod_, rm, w, bytes[1], bytes[2]), disp_len(mod_, rm) as usize))
        }
    }

    /// Decodes the register or memory operand of a ModR/M byte.
    ///
    /// `bytes` begins with the ModR/M byte itself; the displacement, where
    /// the mode has one, follows it.
    pub fn parse_modrm(mod_: u8, rm: u8, bytes: &[u8], w: bool) -> (res: Result<
        (Operand, usize),
        DisassemblerError,
    >)
        ensures
            res == Operand::spec_parse_modrm(mod_, rm, bytes@, w),
    {
        if mod_ > 3 || rm > 7 {
            return Err(DisassemblerError::InvalidModRM);
        }
        let size = disp_size(mod_, rm);
        if size > 0 && bytes.len() < 1 + size {
            return Err(DisassemblerError::UnexpectedEOF);
        }
        if size == 0 {
            if mod_ == 3 {
                Ok((Operand::Register(Register::from(rm, w)), 0))
            } else {
                Ok(
                    (
                        Operand::MemoryAddress(
                            Address::new(Register::get_base(rm), Register::get_index(rm), None),
                        ),
                        0,
                    ),
                )
            }
        } else {
            Ok((read_rm(mod_, rm, bytes, 0, w), size))
        }
    }
}

/// Decodes a ModR/M byte and its displacement: `bytes` begins with the
/// ModR/M byte. Gives the register operand, the register or memory
/// operand, and the number of bytes taken.
pub fn parse_mod_reg_rm_bytes(bytes: &[u8], w: bool) -> (res: ModRm)
    ensures
        res == spec_modrm_at(bytes@, 0, w),
{
    modrm_at(bytes, 0, w)
}

/// Decodes an opcode with the width in bit 0, then a ModR/M byte. Gives
/// the register operand, the register or memory operand, and the number of
/// bytes taken, the opcode included.
pub fn _parse_w_mod_reg_rm_bytes(bytes: &[u8]) -> (res: ModRm)
    ensures
        res == match spec_modrm_at(bytes@, 1, bit_w(bytes@[0])) {
            Ok((reg, rm, n)) => Ok::<_, DisassemblerError>((reg, rm, (n + 1) as usize)),
            Err(e) => Err(e),
        },
{
    if bytes.len() < 2 {
        return Err(DisassemblerError::UnexpectedEOF);
    }
    let w = bytes[0] % 2 == 1;
    match modrm_at(bytes, 1, w) {
        Ok((reg, rm, n)) => Ok((reg, rm, n + 1)),
        Err(e) => Err(e),
    }
}

/// Decodes an opcode with the direction in bit 1 and the width in bit 0,
/// then a ModR/M byte. Gives destination, source and the number of bytes
/// taken, the opcode included: the register is the destination when the
/// direction bit is set.
pub fn parse_dw_mod_reg_rm_bytes(bytes: &[u8]) -> (res: ModRm)
    ensures
        res == spec_dw_mod_reg_rm(bytes@),
{
    if bytes.len() < 2 {
        return Err(DisassemblerError::UnexpectedEOF);
    }
    let d = (bytes[0] / 2) % 2 == 1;
    let w = bytes[0] % 2 == 1;
    match modrm_at(bytes, 1, w) {
        Ok((reg, rm, n)) => {
            if d {
                Ok((reg, rm, n + 1))
            } else {
                Ok((rm, reg, n + 1))
            }
        },
        Err(e) => Err(e),
    }
}

/// The offset `ip` reduced modulo 2^16, as a signed 32-bit value.
fn offset_word(ip: usize) -> (r: i64)
    ensures
        r as int == (ip as int) % 0x10000,
{
    (ip % 0x10000) as i64
}

/// Decodes a short branch: an opcode and one displacement byte. Gives the
/// absolute target and the two bytes taken.
pub fn parse_disp_bytes(bytes: &[u8], ip: usize) -> (res: Result<
    (Operand, usize),
    DisassemblerError,
>)
    ensures
        res == if bytes@.len() < 2 {
            Err::<(Operand, usize), _>(DisassemblerError::UnexpectedEOF)
        } else {
            Ok((short_target(bytes@, ip as int), 2usize))
        },
{
    if bytes.len() < 2 {
        return Err(DisassemblerError::UnexpectedEOF);
    }
    let target = wrap_i16(offset_word(ip) + 2 + byte_to_i8(bytes[1]) as i64);
    Ok((Operand::Displacement(Displacement::Long(target)), 2))
}

/// Decodes a near branch: an opcode and a displacement word. Gives the
/// absolute target and the three bytes taken.
pub fn parse_word_disp_bytes(bytes: &[u8], ip: usize) -> (res: Result<
    (Operand, usize),
    DisassemblerError,
>)
    ensures
        res == if bytes@.len() < 3 {
            Err::<(Operand, usize), _>(DisassemblerError::UnexpectedEOF)
        } else {
            Ok((near_target(bytes@, ip as int), 3usize))
        },
{
    if bytes.len() < 3 {
        return Err(DisassemblerError::UnexpectedEOF);
    }
    let disp = word_to_i16(word_from_le(bytes[1], bytes[2]));
    let target = wrap_i16(offset_word(ip) + 3 + disp as i64);
    Ok((Operand::Displacement(Displacement::Long(target)), 3))
}

/// Reads the immediate of the given width at index `at`.
pub fn read_immediate(bytes: &[u8], at: usize, w: bool) -> (operand: Operand)
    requires
        at + imm_len(w) <= bytes@.len(),
    ensures
        operand == immediate_at(bytes@, at as int, w),
{
    if w {
        Operand::LongImmediate(word_from_le(bytes[at], bytes[at + 1]))
    } else {
        Operand::Immediate(bytes[at])
    }
}

/// The accumulator of the given width.
pub fn accumulator_of(w: bool) -> (operand: Operand)
    ensures
        operand == accumulator(w),
{
    if w {
        Operand::Register(Register::AX)
    } else {
        Operand::Register(Register::AL)
    }
}

/// Decodes an opcode with the width in bit 0, then an immediate of that
/// width. Gives the immediate, the accumulator of that width, the width,
/// and the number of bytes taken.
pub fn parse_accumulator(data: &[u8]) -> (res: Result<
    (Operand, Operand, bool, usize),
    DisassemblerError,
>)
    ensures
        res == if data@.len() < 1 + imm_len(bit_w(data@[0])) {
            Err::<(Operand, Operand, bool, usize), _>(DisassemblerError::UnexpectedEOF)
        } else {
            Ok(
                (
                    immediate_at(data@, 1, bit_w(data@[0])),
                    accumulator(bit_w(data@[0])),
                    bit_w(data@[0]),
                    (1 + imm_len(bit_w(data@[0]))) as usize,
                ),
            )
        },
{
    if data.len() < 2 {
        return Err(DisassemblerError::UnexpectedEOF);
    }
    let w = data[0] % 2 == 1;
    if w && data.len() < 3 {
        return Err(DisassemblerError::UnexpectedEOF);
    }
    let n: usize = if w {
        3
    } else {
        2
    };
    Ok((read_immediate(data, 1, w), accumulator_of(w), w, n))
}

/// The string instruction with the given opcode; `InvalidOpcode` with the
/// byte where it is none.
pub fn parse_string_manipulation_ir_from(byte: u8) -> (res: Result<IR, DisassemblerError>)
    ensures
        res == match string_op(byte) {
            Some(ir) => Ok::<IR, DisassemblerError>(ir),
            None => Err(DisassemblerError::InvalidOpcode(byte)),
        },
{
    let word = byte % 2 == 1;
    match byte / 2 {
        0x52 => Ok(IR::Movs { word }),
        0x53 => Ok(IR::Cmps { word }),
        0x55 => Ok(IR::Stos { word }),
        0x56 => Ok(IR::Lods { word }),
        0x57 => Ok(IR::Scas { word }),
        _ => Err(DisassemblerError::InvalidOpcode(byte)),
    }
}

} // verus!
