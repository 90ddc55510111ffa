//! The decoder: one instruction from the start of a byte slice.

use vstd::prelude::*;
use vstd::slice::slice_to_vec;
use crate::word::byte_to_i8;
use crate::x86::instruction::{Instruction, IR};
use crate::x86::operand::Operand;
use crate::x86::register::Register;
use crate::disassembler::error::DisassemblerError;
use crate::disassembler::encoding::{decode, MAX_ENCODED_LEN};
use crate::disassembler::parser_utils::{
    accumulator_of, modrm_at, parse_accumulator, parse_disp_bytes, parse_dw_mod_reg_rm_bytes,
    parse_string_manipulation_ir_from, parse_word_disp_bytes, read_immediate,
};

verus! {

/// Whether `res` is what the encoding gives for `bytes` at offset `ip`.
pub open spec fn decodes_to(
    bytes: Seq<u8>,
    ip: int,
    res: Result<(IR, usize), DisassemblerError>,
) -> bool {
    match res {
        Ok((ir, n)) => decode(bytes, ip) == Ok::<(IR, int), DisassemblerError>((ir, n as int)),
        Err(e) => decode(bytes, ip) == Err::<(IR, int), DisassemblerError>(e),
    }
}

/// Decodes the instruction at the start of `bytes`, which stand at code
/// offset `ip`. Gives the instruction and the number of bytes it takes.
#[verifier::rlimit(50)]
pub fn decode_ir(bytes: &[u8], ip: usize) -> (res: Result<(IR, usize), DisassemblerError>)
    ensures
        decodes_to(bytes@, ip as int, res),
        res matches Ok((_, n)) ==> 1 <= n <= MAX_ENCODED_LEN && n <= bytes@.len(),
{
    proof {
        reveal(decode);
    }
    if bytes.len() == 0 {
        return Err(DisassemblerError::UnexpectedEOF);
    }
    let opcode = bytes[0];
    let w = opcode % 2 == 1;
    match opcode {
        // ADD between register and register or memory
        0x00..=0x03 => {
            let (dest, src, n) = parse_dw_mod_reg_rm_bytes(bytes)?;
            Ok((IR::Add { dest, src }, n))
        },
        // OR between register and register or memory
        0x08..=0x0B => {
            let (dest, src, n) = parse_dw_mod_reg_rm_bytes(bytes)?;
            Ok((IR::Or { dest, src }, n))
        },
        // ADC between register and register or memory
        0x10..=0x13 => {
            let (dest, src, n) = parse_dw_mod_reg_rm_bytes(bytes)?;
            Ok((IR::Adc { dest, src }, n))
        },
        // SBB between register and register or memory
        0x18..=0x1B => {
            let (dest, src, n) = parse_dw_mod_reg_rm_bytes(bytes)?;
            Ok((IR::Ssb { dest, src }, n))
        },
        // AND between register and register or memory
        0x20..=0x23 => {
            let (dest, src, n) = parse_dw_mod_reg_rm_bytes(bytes)?;
            Ok((IR::And { dest, src }, n))
        },
        // SUB between register and register or memory
        0x28..=0x2B => {
            let (dest, src, n) = parse_dw_mod_reg_rm_bytes(bytes)?;
            Ok((IR::Sub { dest, src }, n))
        },
        // XOR between register and register or memory
        0x30..=0x33 => {
            let (dest, src, n) = parse_dw_mod_reg_rm_bytes(bytes)?;
            Ok((IR::Xor { dest, src }, n))
        },
        // ADD of an immediate to the accumulator
        0x04 | 0x05 => {
            let (data, dest, _, n) = parse_accumulator(bytes)?;
            Ok((IR::Add { dest, src: data }, n))
        },
        // OR of an immediate to the accumulator
        0x0C | 0x0D => {
            let (data, dest, _, n) = parse_accumulator(bytes)?;
            Ok((IR::Or { dest, src: data }, n))
        },
        // SBB of an immediate to the accumulator
        0x0E | 0x0F => {
            let (data, dest, _, n) = parse_accumulator(bytes)?;
            Ok((IR::Ssb { dest, src: data }, n))
        },
        // ADC of an immediate to the accumulator
        0x14 | 0x15 => {
            let (data, dest, _, n) = parse_accumulator(bytes)?;
            Ok((IR::Adc { dest, src: data }, n))
        },
        // AND of an immediate to the accumulator
        0x24 | 0x25 => {
            let (data, dest, _, n) = parse_accumulator(bytes)?;
            Ok((IR::And { dest, src: data }, n))
        },
        // SUB of an immediate to the accumulator
        0x2C | 0x2D => {
            let (data, dest, _, n) = parse_accumulator(bytes)?;
            Ok((IR::Sub { dest, src: data }, n))
        },
        // XOR of an immediate to the accumulator
        0x34 | 0x35 => {
            let (data, dest, _, n) = parse_accumulator(bytes)?;
            Ok((IR::Xor { dest, src: data }, n))
        },
        // CMP between register and register or memory
        0x38..=0x3B => {
            let (dest, src, n) = parse_dw_mod_reg_rm_bytes(bytes)?;
            Ok((IR::Cmp { dest, src, byte: !w }, n))
        },
        // CMP of an immediate with the accumulator
        0x3C | 0x3D => {
            let (data, dest, _, n) = parse_accumulator(bytes)?;
            Ok((IR::Cmp { dest, src: data, byte: !w }, n))
        },
        0x27 => Ok((IR::Baa, 1)),
        0x2F => Ok((IR::Das, 1)),
        0x37 => Ok((IR::Aaa, 1)),
        0x3F => Ok((IR::Aas, 1)),
        0x98 => Ok((IR::Cbw, 1)),
        0x99 => Ok((IR::Cwd, 1)),
        0x9B => Ok((IR::Wait, 1)),
        0xCE => Ok((IR::Into, 1)),
        0xCF => Ok((IR::Iret, 1)),
        0xF0 => Ok((IR::Lock, 1)),
        0xF4 => Ok((IR::Hlt, 1)),
        0xF5 => Ok((IR::Cmc, 1)),
        0xF8 => Ok((IR::Clc, 1)),
        0xF9 => Ok((IR::Stc, 1)),
        0xFA => Ok((IR::Cli, 1)),
        0xFB => Ok((IR::Sti, 1)),
        0xFC => Ok((IR::Cld, 1)),
        0xFD => Ok((IR::Std, 1)),
        // INC of a word register
        0x40..=0x47 => Ok(
            (IR::Inc { dest: Operand::Register(Register::from(opcode % 8, true)) }, 1),
        ),
        // DEC of a word register
        0x48..=0x4F => Ok(
            (IR::Dec { dest: Operand::Register(Register::from(opcode % 8, true)) }, 1),
        ),
        // PUSH of a word register
        0x50..=0x57 => Ok(
            (IR::Push { src: Operand::Register(Register::from(opcode % 8, true)) }, 1),
        ),
        // POP of a word register
        0x58..=0x5F => Ok(
            (IR::Pop { dest: Operand::Register(Register::from(opcode % 8, true)) }, 1),
        ),
        0x70 => {
            let (dest, n) = parse_disp_bytes(bytes, ip)?;
            Ok((IR::Jo { dest }, n))
        },
        0x71 => {
            let (dest, n) = parse_disp_bytes(bytes, ip)?;
            Ok((IR::Jno { dest }, n))
        },
        0x72 => {
            let (dest, n) = parse_disp_bytes(bytes, ip)?;
            Ok((IR::Jb { dest }, n))
        },
        0x73 => {
            let (dest, n) = parse_disp_bytes(bytes, ip)?;
            Ok((IR::Jnb { dest }, n))
        },
        0x74 => {
            let (dest, n) = parse_disp_bytes(bytes, ip)?;
            Ok((IR::Je { dest }, n))
        },
        0x75 => {
            let (dest, n) = parse_disp_bytes(bytes, ip)?;
            Ok((IR::Jne { dest }, n))
        },
        0x76 => {
            let (dest, n) = parse_disp_bytes(bytes, ip)?;
            Ok((IR::Jbe { dest }, n))
        },
        0x77 => {
            let (dest, n) = parse_disp_bytes(bytes, ip)?;
            Ok((IR::Jnbe { dest }, n))
        },
        0x78 => {
            let (dest, n) = parse_disp_bytes(bytes, ip)?;
            Ok((IR::Js { dest }, n))
        },
        0x79 => {
            let (dest, n) = parse_disp_bytes(bytes, ip)?;
            Ok((IR::Jns { dest }, n))
        },
        0x7A => {
            let (dest, n) = parse_disp_bytes(bytes, ip)?;
            Ok((IR::Jp { dest }, n))
        },
        0x7B => {
            let (dest, n) = parse_disp_bytes(bytes, ip)?;
            Ok((IR::Jnp { dest }, n))
        },
        0x7C => {
            let (dest, n) = parse_disp_bytes(bytes, ip)?;
            Ok((IR::Jl { dest }, n))
        },
        0x7D => {
            let (dest, n) = parse_disp_bytes(bytes, ip)?;
            Ok((IR::Jnl { dest }, n))
        },
        0x7E => {
            let (dest, n) = parse_disp_bytes(bytes, ip)?;
            Ok((IR::Jle { dest }, n))
        },
        0x7F => {
            let (dest, n) = parse_disp_bytes(bytes, ip)?;
            Ok((IR::Jnle { dest }, n))
        },
        0xE0 => {
            let (dest, n) = parse_disp_bytes(bytes, ip)?;
            Ok((IR::Loopnz { dest }, n))
        },
        0xE1 => {
            let (dest, n) = parse_disp_bytes(bytes, ip)?;
            Ok((IR::Loopz { dest }, n))
        },
        0xE2 => {
            let (dest, n) = parse_disp_bytes(bytes, ip)?;
            Ok((IR::Loop { dest }, n))
        },
        0xE3 => {
            let (dest, n) = parse_disp_bytes(bytes, ip)?;
            Ok((IR::Jcxz { dest }, n))
        },
        // An immediate to register or memory: the sub-opcode selects the
        // operation, the sign and width bits the size of the immediate
        0x80..=0x83 => {
            let s = (opcode / 2) % 2 == 1;
            let (_, rm, size) = modrm_at(bytes, 1, w)?;
            let at = 1 + size;
            let data = if w && !s {
                if bytes.len() < at + 2 {
                    return Err(DisassemblerError::UnexpectedEOF);
                }
                Operand::LongImmediate(crate::word::word_from_le(bytes[at], bytes[at + 1]))
            } else {
                if bytes.len() < at + 1 {
                    return Err(DisassemblerError::UnexpectedEOF);
                }
                if w {
                    Operand::SignExtendedImmediate(byte_to_i8(bytes[at]))
                } else {
                    Operand::Immediate(bytes[at])
                }
            };
            let n = if w && !s {
                at + 2
            } else {
                at + 1
            };
            let ir = match (bytes[1] / 8) % 8 {
                0 => IR::Add { dest: rm, src: data },
                1 => IR::Or { dest: rm, src: data },
                2 => IR::Adc { dest: rm, src: data },
                3 => IR::Ssb { dest: rm, src: data },
                4 => IR::And { dest: rm, src: data },
                5 => IR::Sub { dest: rm, src: data },
                6 => IR::Xor { dest: rm, src: data },
                _ => IR::Cmp { dest: rm, src: data, byte: !w },
            };
            Ok((ir, n))
        },
        // TEST between register and register or memory
        0x84 | 0x85 => {
            let (reg, rm, size) = modrm_at(bytes, 1, w)?;
            Ok((IR::Test { dest: rm, src: reg, byte: !w }, 1 + size))
        },
        // XCHG between register and register or memory
        0x86 | 0x87 => {
            let (reg, rm, size) = modrm_at(bytes, 1, w)?;
            Ok((IR::Xchg { dest: rm, src: reg }, 1 + size))
        },
        // MOV between register and register or memory
        0x88..=0x8B => {
            let (dest, src, n) = parse_dw_mod_reg_rm_bytes(bytes)?;
            Ok((IR::Mov { dest, src, byte: false }, n))
        },
        // MOV of a segment register to register or memory
        0x8C => {
            let (reg, rm, size) = modrm_at(bytes, 1, false)?;
            Ok((IR::Mov { dest: rm, src: reg, byte: true }, 1 + size))
        },
        // LEA
        0x8D => {
            let (reg, rm, size) = modrm_at(bytes, 1, true)?;
            Ok((IR::Lea { dest: reg, src: rm }, 1 + size))
        },
        // MOV of register or memory to a segment register
        0x8E => {
            let (reg, rm, size) = modrm_at(bytes, 1, false)?;
            Ok((IR::Mov { dest: reg, src: rm, byte: true }, 1 + size))
        },
        // POP to register or memory
        0x8F => {
            let (_, rm, size) = modrm_at(bytes, 1, true)?;
            Ok((IR::Pop { dest: rm }, 1 + size))
        },
        // XCHG of a word register with the accumulator
        0x90..=0x97 => Ok(
            (
                IR::Xchg {
                    dest: Operand::Register(Register::from(opcode % 8, true)),
                    src: Operand::Register(Register::AX),
                },
                1,
            ),
        ),
        // MOV of a direct address to the accumulator
        0xA0 | 0xA1 => {
            if bytes.len() < 3 {
                return Err(DisassemblerError::UnexpectedEOF);
            }
            Ok(
                (
                    IR::Mov {
                        dest: accumulator_of(w),
                        src: read_immediate(bytes, 1, true),
                        byte: !w,
                    },
                    3,
                ),
            )
        },
        // MOV of the accumulator to a direct address
        0xA2 | 0xA3 => {
            if bytes.len() < 3 {
                return Err(DisassemblerError::UnexpectedEOF);
            }
            Ok(
                (
                    IR::Mov {
                        dest: read_immediate(bytes, 1, true),
                        src: accumulator_of(w),
                        byte: !w,
                    },
                    3,
                ),
            )
        },
        // String instructions
        0xA4..=0xA7 | 0xAA..=0xAF => {
            let ir = parse_string_manipulation_ir_from(opcode)?;
            Ok((ir, 1))
        },
        // TEST of an immediate with the accumulator
        0xA8 | 0xA9 => {
            let (data, dest, _, n) = parse_accumulator(bytes)?;
            Ok((IR::Test { dest, src: data, byte: !w }, n))
        },
        // MOV of an immediate to a register
        0xB0..=0xBF => {
            let wide = (opcode / 8) % 2 == 1;
            let n: usize = if wide {
                3
            } else {
                2
            };
            if bytes.len() < n {
                return Err(DisassemblerError::UnexpectedEOF);
            }
            Ok(
                (
                    IR::Mov {
                        dest: Operand::Register(Register::from(opcode % 8, wide)),
                        src: read_immediate(bytes, 1, wide),
                        byte: !wide,
                    },
                    n,
                ),
            )
        },
        // RET that releases an immediate number of bytes
        0xC2 => {
            if bytes.len() < 3 {
                return Err(DisassemblerError::UnexpectedEOF);
            }
            Ok((IR::Ret { src: Some(read_immediate(bytes, 1, true)) }, 3))
        },
        // RET
        0xC3 | 0xCB => Ok((IR::Ret { src: None }, 1)),
        // LES
        0xC4 => {
            let (reg, rm, size) = modrm_at(bytes, 1, true)?;
            Ok((IR::Les { dest: reg, src: rm }, 1 + size))
        },
        // LDS
        0xC5 => {
            let (reg, rm, size) = modrm_at(bytes, 1, true)?;
            Ok((IR::Lds { dest: reg, src: rm }, 1 + size))
        },
        // MOV of an immediate to register or memory
        0xC6 | 0xC7 => {
            let (_, rm, size) = modrm_at(bytes, 1, w)?;
            let at = 1 + size;
            let n = if w {
                at + 2
            } else {
                at + 1
            };
            if bytes.len() < n {
                return Err(DisassemblerError::UnexpectedEOF);
            }
            Ok((IR::Mov { dest: rm, src: read_immediate(bytes, at, w), byte: !w }, n))
        },
        // INT 3
        0xCC => Ok((IR::Int { int_type: 3 }, 1)),
        // INT with its type in the next byte
        0xCD => {
            if bytes.len() < 2 {
                return Err(DisassemblerError::UnexpectedEOF);
            }
            Ok((IR::Int { int_type: bytes[1] }, 2))
        },
        // Shifts and rotates, by one or by CL
        0xD0..=0xD3 => {
            let by_cl = (opcode / 2) % 2 == 1;
            let src = if by_cl {
                Operand::Register(Register::CL)
            } else {
                Operand::Immediate(1)
            };
            let (_, rm, size) = modrm_at(bytes, 1, w)?;
            let n = 1 + size;
            match (bytes[1] / 8) % 8 {
                0 => Ok((IR::Rol { dest: rm, src }, n)),
                1 => Ok((IR::Ror { dest: rm, src }, n)),
                2 => Ok((IR::Rcl { dest: rm, src }, n)),
                3 => Ok((IR::Rcr { dest: rm, src }, n)),
                4 => Ok((IR::Shl { dest: rm, src }, n)),
                5 => Ok((IR::Shr { dest: rm, src }, n)),
                7 => Ok((IR::Sar { dest: rm, src }, n)),
                _ => Err(DisassemblerError::InvalidOpcode(bytes[1])),
            }
        },
        // AAM and AAD, which need 0x0A as their second byte
        0xD4 | 0xD5 => {
            if bytes.len() < 2 {
                return Err(DisassemblerError::UnexpectedEOF);
            }
            if bytes[1] != 0x0A {
                return Err(DisassemblerError::InvalidOpcode(opcode));
            }
            if w {
                Ok((IR::Aad, 2))
            } else {
                Ok((IR::Aam, 2))
            }
        },
        // ESC
        0xD8..=0xDF => {
            let (_, rm, size) = modrm_at(bytes, 1, true)?;
            Ok((IR::Esc { dest: rm }, 1 + size))
        },
        // IN from a fixed port
        0xE4 | 0xE5 => {
            if bytes.len() < 2 {
                return Err(DisassemblerError::UnexpectedEOF);
            }
            Ok((IR::In { dest: accumulator_of(w), src: Operand::Immediate(bytes[1]) }, 2))
        },
        // CALL of a near target
        0xE8 => {
            let (dest, n) = parse_word_disp_bytes(bytes, ip)?;
            Ok((IR::Call { dest }, n))
        },
        // JMP to a near target
        0xE9 => {
            let (dest, n) = parse_word_disp_bytes(bytes, ip)?;
            Ok((IR::Jmp { dest, short: false }, n))
        },
        // JMP to a short target
        0xEB => {
            let (dest, n) = parse_disp_bytes(bytes, ip)?;
            Ok((IR::Jmp { dest, short: true }, n))
        },
        // IN from the port in DX
        0xEC => Ok(
            (
                IR::In {
                    dest: Operand::Register(Register::AL),
                    src: Operand::Register(Register::DX),
                },
                1,
            ),
        ),
        // REP before a string instruction
        0xF2 | 0xF3 => {
            if bytes.len() < 2 {
                return Err(DisassemblerError::UnexpectedEOF);
            }
            let ir = parse_string_manipulation_ir_from(bytes[1])?;
            Ok((IR::Rep { z: w, string_ir: Box::new(ir) }, 2))
        },
        // TEST with an immediate, NOT, NEG, MUL, IMUL, DIV, IDIV
        0xF6 | 0xF7 => {
            let (_, rm, size) = modrm_at(bytes, 1, w)?;
            let at = 1 + size;
            match (bytes[1] / 8) % 8 {
                0 => {
                    let n = if w {
                        at + 2
                    } else {
                        at + 1
                    };
                    if bytes.len() < n {
                        return Err(DisassemblerError::UnexpectedEOF);
                    }
                    Ok((IR::Test { dest: rm, src: read_immediate(bytes, at, w), byte: !w }, n))
                },
                2 => Ok((IR::Not { dest: rm }, at)),
                3 => Ok((IR::Neg { dest: rm }, at)),
                4 => Ok((IR::Mul { dest: rm }, at)),
                5 => Ok((IR::Imul { dest: rm }, at)),
                6 => Ok((IR::Div { dest: rm }, at)),
                7 => Ok((IR::Idiv { dest: rm }, at)),
                _ => Err(DisassemblerError::InvalidOpcode(bytes[1])),
            }
        },
        // INC, DEC, CALL, JMP, PUSH of register or memory
        0xFF => {
            let (_, rm, size) = modrm_at(bytes, 1, true)?;
            let n = 1 + size;
            match (bytes[1] / 8) % 8 {
                0 => Ok((IR::Inc { dest: rm }, n)),
                1 => Ok((IR::Dec { dest: rm }, n)),
                2 | 3 => Ok((IR::Call { dest: rm }, n)),
                4 | 5 => Ok((IR::Jmp { dest: rm, short: false }, n)),
                6 => Ok((IR::Push { src: rm }, n)),
                _ => Err(DisassemblerError::InvalidOpcode(bytes[1])),
            }
        },
        _ => Err(DisassemblerError::InvalidOpcode(opcode)),
    }
}

/// Decodes the instruction at the start of `bytes`, which stand at code
/// offset `ip`.
///
/// Gives the instruction with the bytes it was decoded from, and their
/// number; or `UnexpectedEOF` where the bytes end too early, or
/// `InvalidOpcode` where they begin no instruction.
pub fn parse_instruction(bytes: &[u8], ip: usize) -> (res: Result<
    (Instruction, usize),
    DisassemblerError,
>)
    ensures
        match res {
            Ok((ins, n)) => {
                &&& decode(bytes@, ip as int) == Ok::<(IR, int), DisassemblerError>(
                    (ins.ir, n as int),
                )
                &&& ins.raw@ == bytes@.subrange(0, n as int)
                &&& 1 <= n <= MAX_ENCODED_LEN
                &&& n <= bytes@.len()
            },
            Err(e) => decode(bytes@, ip as int) == Err::<(IR, int), DisassemblerError>(e),
        },
{
    match decode_ir(bytes, ip) {
        Ok((ir, n)) => {
            let raw = slice_to_vec(&bytes[0..n]);
            Ok((Instruction::new(ir, raw), n))
        },
        Err(e) => Err(e),
    }
}

} // verus!
