//! What each instruction does to the state of the machine.
//!
//! Every function here takes a state and gives the state after the
//! instruction, with the error that ended it where there is one. An
//! instruction that cannot take its operands fails with `InvalidOperand`
//! and changes nothing. Operands are read before anything is written, the
//! source before the destination, and flags follow the write-back.

use vstd::prelude::*;
use crate::text::{dec_digits, hex_bytes, hex_padded, pad_right};
use crate::word::{i16_of, i8_of, u16_of};
use crate::x86::instruction::IR;
use crate::x86::operand::Operand;
use crate::x86::register::Register;
use crate::disassembler::encoding::decode;
use crate::interpreter::error::{InterpreterError, OpcodeExecErrors};
use crate::interpreter::flag_set::{Flag, FlagSet};
use crate::interpreter::state::{writable, VmState};

verus! {

/// The state after an instruction, and how the instruction ended.
pub struct Outcome {
    pub state: VmState,
    pub result: Result<(), OpcodeExecErrors>,
}

impl Outcome {
    /// Whether the instruction left the state `state` and ended with
    /// `result`.
    pub open spec fn is(self, state: VmState, result: Result<(), OpcodeExecErrors>) -> bool {
        self.state == state && self.result == result
    }
}

/// The instruction completed in state `s`.
pub open spec fn done(s: VmState) -> Outcome {
    Outcome { state: s, result: Ok(()) }
}

/// The instruction ended with error `e` in state `s`.
pub open spec fn failed(s: VmState, e: OpcodeExecErrors) -> Outcome {
    Outcome { state: s, result: Err(e) }
}

/// The state with other flags.
pub open spec fn with_flags(s: VmState, flags: FlagSet) -> VmState {
    VmState { flags, ..s }
}

/// The state with a register changed.
pub open spec fn with_reg(s: VmState, reg: Register, value: u16) -> VmState {
    VmState { regs: s.regs.spec_set(reg, value), ..s }
}

/// The state with the instruction pointer at `ip`.
pub open spec fn with_ip(s: VmState, ip: u16) -> VmState {
    VmState { ip, ..s }
}

/// Whether `x` lies outside the signed words.
pub open spec fn overflows(x: int) -> bool {
    x < -0x8000 || x > 0x7FFF
}

/// Whether `x` lies outside the signed bytes.
pub open spec fn overflows_byte(x: int) -> bool {
    x < -0x80 || x > 0x7F
}

/// The low four bits of a word.
pub open spec fn low_nibble(v: i16) -> int {
    (u16_of(v as int) % 0x10) as int
}

/// The value of an operand in a byte-wide instruction: its low eight
/// bits, sign-extended. In a word-wide instruction, the value itself.
pub open spec fn narrow(v: i16, byte: bool) -> i16 {
    if byte {
        i8_of(v as int) as i16
    } else {
        v
    }
}

/// Bit `k` of a word; no bit outside the sixteen is set.
pub open spec fn bit(v: u16, k: int) -> bool {
    0 <= k < 16 && (v >> (k as u16)) & 1 == 1
}

/// The arithmetic and logical instructions with two operands that write
/// their result to the first.
#[derive(Debug, Copy, Clone, PartialEq, Eq)]
pub enum Arith {
    Add,
    Adc,
    Sub,
    Sbb,
    And,
    Or,
    Xor,
}

/// The result of an addition or subtraction before it is reduced to a
/// word; `c` is the carry flag going in, as a number.
pub open spec fn arith_exact(kind: Arith, a: i16, b: i16, c: int) -> int {
    match kind {
        Arith::Add => a + b,
        Arith::Adc => a + b + c,
        Arith::Sub => a - b,
        Arith::Sbb => a - b - c,
        _ => 0,
    }
}

/// The result of an arithmetic or logical instruction on `a` and `b`.
pub open spec fn arith_result(kind: Arith, a: i16, b: i16, c: int) -> i16 {
    match kind {
        Arith::And => a & b,
        Arith::Or => a | b,
        Arith::Xor => a ^ b,
        _ => i16_of(arith_exact(kind, a, b, c)),
    }
}

/// The flags after an arithmetic or logical instruction.
///
/// Addition sets `Overflow` when the exact sum is no signed word, `Carry`
/// when the result is below the first operand, `Aux` when the low
/// nibbles carry. Subtraction sets `Overflow` likewise and `Carry` when
/// the first operand is above the second. The logical instructions clear
/// both. All set `Zero`, `Sign` and `Parity` from the result.
pub open spec fn arith_flags(kind: Arith, f: FlagSet, a: i16, b: i16, c: int) -> FlagSet {
    let r = arith_result(kind, a, b, c);
    match kind {
        Arith::Add | Arith::Adc => f.spec_set(
            Flag::Overflow,
            overflows(arith_exact(kind, a, b, c)),
        ).spec_set(Flag::Carry, r < a).spec_szp(r).spec_set(
            Flag::Aux,
            low_nibble(a) + low_nibble(b) > 0xF,
        ),
        Arith::Sub | Arith::Sbb => f.spec_set(
            Flag::Overflow,
            overflows(arith_exact(kind, a, b, c)),
        ).spec_set(Flag::Carry, a > b).spec_szp(r),
        _ => f.spec_set(Flag::Overflow, false).spec_set(Flag::Carry, false).spec_szp(r),
    }
}

/// The carry flag as a number.
pub open spec fn carry_in(f: FlagSet) -> int {
    if f.carry {
        1
    } else {
        0
    }
}

/// ADD, ADC, SUB, SBB, AND, OR, XOR: the result goes to `dest`.
pub open spec fn arith(s: VmState, kind: Arith, dest: Operand, src: Operand) -> Outcome {
    if !writable(dest) {
        failed(s, OpcodeExecErrors::InvalidOperand)
    } else {
        let b = s.value_of(src);
        let a = s.value_of(dest);
        let c = carry_in(s.flags);
        let read = s.after_read(src).after_read(dest);
        let written = read.after_write(dest, u16_of(arith_result(kind, a, b, c) as int));
        done(with_flags(written, arith_flags(kind, s.flags, a, b, c)))
    }
}

/// MOV: `dest` takes the value of `src`.
pub open spec fn mov(s: VmState, dest: Operand, src: Operand, byte: bool) -> Outcome {
    if !writable(dest) {
        failed(s, OpcodeExecErrors::InvalidOperand)
    } else {
        done(s.after_read(src).after_write(dest, u16_of(narrow(s.value_of(src), byte) as int)))
    }
}

/// CMP: the flags of a subtraction, which is not written anywhere. The
/// byte-wide form subtracts bytes.
pub open spec fn compare(s: VmState, dest: Operand, src: Operand, byte: bool) -> Outcome {
    let b = narrow(s.value_of(src), byte);
    let a = narrow(s.value_of(dest), byte);
    let r = narrow(i16_of(a - b), byte);
    let overflow = if byte {
        overflows_byte(a - b)
    } else {
        overflows(a - b)
    };
    done(
        with_flags(
            s.after_read(src).after_read(dest),
            s.flags.spec_set(Flag::Overflow, overflow).spec_set(Flag::Carry, a > b).spec_szp(r),
        ),
    )
}

/// TEST: the flags of an AND, which is not written anywhere.
pub open spec fn test(s: VmState, dest: Operand, src: Operand, byte: bool) -> Outcome {
    let b = narrow(s.value_of(src), byte);
    let a = narrow(s.value_of(dest), byte);
    done(
        with_flags(
            s.after_read(src).after_read(dest),
            s.flags.spec_set(Flag::Carry, false).spec_set(Flag::Overflow, false).spec_szp(a & b),
        ),
    )
}

/// The instructions with one operand that write their result back to it.
#[derive(Debug, Copy, Clone, PartialEq, Eq)]
pub enum Unary {
    Inc,
    Dec,
    Neg,
    Not,
}

/// The result of a one-operand instruction on `a`.
pub open spec fn unary_result(kind: Unary, a: i16) -> i16 {
    match kind {
        Unary::Inc => i16_of(a + 1),
        Unary::Dec => i16_of(a - 1),
        Unary::Neg => i16_of(-a),
        Unary::Not => (-a - 1) as i16,
    }
}

/// The flags after a one-operand instruction. INC and DEC clear
/// `Overflow` and leave `Carry`; NEG sets `Carry` unless the operand was
/// zero, and `Overflow` when the operand has no negative; NOT changes no
/// flag.
pub open spec fn unary_flags(kind: Unary, f: FlagSet, a: i16) -> FlagSet {
    let r = unary_result(kind, a);
    match kind {
        Unary::Inc | Unary::Dec => f.spec_set(Flag::Overflow, false).spec_szp(r),
        Unary::Neg => f.spec_set(Flag::Carry, a != 0).spec_set(
            Flag::Overflow,
            a == -0x8000,
        ).spec_szp(r),
        Unary::Not => f,
    }
}

/// INC, DEC, NEG, NOT.
pub open spec fn unary(s: VmState, kind: Unary, dest: Operand) -> Outcome {
    if !writable(dest) {
        failed(s, OpcodeExecErrors::InvalidOperand)
    } else {
        let a = s.value_of(dest);
        let written = s.after_read(dest).after_write(dest, u16_of(unary_result(kind, a) as int));
        done(with_flags(written, unary_flags(kind, s.flags, a)))
    }
}

/// The shifts.
#[derive(Debug, Copy, Clone, PartialEq, Eq)]
pub enum Shift {
    Shl,
    Shr,
    Sar,
}

/// The result of shifting the word `a` by `count` bits. A count of
/// sixteen or more shifts every bit out.
pub open spec fn shift_result(kind: Shift, a: u16, count: u16) -> u16 {
    match kind {
        Shift::Shl => if count < 16 {
            (((a as u32) << (count as u32)) % 0x10000) as u16
        } else {
            0
        },
        Shift::Shr => if count < 16 {
            a >> count
        } else {
            0
        },
        Shift::Sar => if count < 16 {
            u16_of((i16_of(a as int) >> count) as int)
        } else if a >= 0x8000 {
            0xFFFF
        } else {
            0
        },
    }
}

/// The last bit that a shift moves out of the word, if there is one.
pub open spec fn shift_carry(kind: Shift, a: u16, count: u16) -> bool {
    match kind {
        Shift::Shl => bit(a, 16 - count),
        Shift::Shr => bit(a, count - 1),
        Shift::Sar => if count >= 16 {
            a >= 0x8000
        } else {
            bit(a, count - 1)
        },
    }
}

/// The flags after a shift: `Carry` is the last bit shifted out; a left
/// shift by one sets `Overflow` to the top bit of the operand; `Zero`,
/// `Sign` and `Parity` follow the result.
pub open spec fn shift_flags(kind: Shift, f: FlagSet, a: u16, count: u16) -> FlagSet {
    let carried = f.spec_set(Flag::Carry, shift_carry(kind, a, count));
    let overflowed = if kind is Shl && count == 1 {
        carried.spec_set(Flag::Overflow, bit(a, 15))
    } else {
        carried
    };
    overflowed.spec_szp(i16_of(shift_result(kind, a, count) as int))
}

/// SHL, SHR, SAR: `dest` shifted by the value of `src`, which counts as
/// unsigned and is not reduced.
pub open spec fn shift(s: VmState, kind: Shift, dest: Operand, src: Operand) -> Outcome {
    if !writable(dest) {
        failed(s, OpcodeExecErrors::InvalidOperand)
    } else {
        let count = u16_of(s.value_of(src) as int);
        let a = u16_of(s.value_of(dest) as int);
        let read = s.after_read(src).after_read(dest);
        let written = read.after_write(dest, shift_result(kind, a, count));
        done(with_flags(written, shift_flags(kind, s.flags, a, count)))
    }
}

/// The rotates.
#[derive(Debug, Copy, Clone, PartialEq, Eq)]
pub enum Rotate {
    Rol,
    Ror,
    Rcl,
    Rcr,
}

/// A word and the carry flag after a rotate by one bit. ROL and ROR
/// rotate the word alone and copy the bit that went round into the carry
/// flag; RCL and RCR rotate the word and the carry flag together.
pub open spec fn rotate_once(kind: Rotate, v: u16, carry: bool) -> (u16, bool) {
    let c: int = if carry { 1 } else { 0 };
    match kind {
        Rotate::Rol => (u16_of(v * 2 + v / 0x8000), v >= 0x8000),
        Rotate::Ror => ((v / 2 + (v % 2) * 0x8000) as u16, v % 2 == 1),
        Rotate::Rcl => (u16_of(v * 2 + c), v >= 0x8000),
        Rotate::Rcr => ((v / 2 + c * 0x8000) as u16, v % 2 == 1),
    }
}

/// A word and the carry flag after `count` rotates by one bit.
#[verifier::opaque]
pub open spec fn rotated(kind: Rotate, v: u16, carry: bool, count: nat) -> (u16, bool)
    decreases count,
{
    if count == 0 {
        (v, carry)
    } else {
        let before = rotated(kind, v, carry, (count - 1) as nat);
        rotate_once(kind, before.0, before.1)
    }
}

/// The word that a rotate by `count` bits leaves.
pub open spec fn rotate_result(kind: Rotate, a: u16, carry: bool, count: u16) -> u16 {
    rotated(kind, a, carry, count as nat).0
}

/// The carry flag that a rotate by `count` bits leaves.
pub open spec fn rotate_carry(kind: Rotate, a: u16, carry: bool, count: u16) -> bool {
    rotated(kind, a, carry, count as nat).1
}

/// The flags after a rotate: `Carry` as the rotation leaves it; after a
/// rotate by one bit, `Overflow` says whether the top bit changed.
pub open spec fn rotate_flags(kind: Rotate, f: FlagSet, a: u16, count: u16) -> FlagSet {
    let carried = f.spec_set(Flag::Carry, rotate_carry(kind, a, f.carry, count));
    if count == 1 {
        carried.spec_set(
            Flag::Overflow,
            (rotate_result(kind, a, f.carry, count) >= 0x8000) != (a >= 0x8000),
        )
    } else {
        carried
    }
}

/// ROL, ROR, RCL, RCR: `dest` rotated by the value of `src`, which counts
/// as unsigned.
pub open spec fn rotate(s: VmState, kind: Rotate, dest: Operand, src: Operand) -> Outcome {
    if !writable(dest) {
        failed(s, OpcodeExecErrors::InvalidOperand)
    } else {
        let count = u16_of(s.value_of(src) as int);
        let a = u16_of(s.value_of(dest) as int);
        let read = s.after_read(src).after_read(dest);
        let written = read.after_write(dest, rotate_result(kind, a, s.flags.carry, count));
        done(with_flags(written, rotate_flags(kind, s.flags, a, count)))
    }
}

/// Whether an operand is a byte register, which makes a multiplication
/// byte-wide.
pub open spec fn byte_wide(operand: Operand) -> bool {
    operand matches Operand::Register(r) && !r.spec_is_word()
}

/// The state with `Carry` and `Overflow` both set to `value`.
pub open spec fn with_carry_overflow(s: VmState, value: bool) -> VmState {
    with_flags(s, s.flags.spec_set(Flag::Carry, value).spec_set(Flag::Overflow, value))
}

/// The product of the accumulator `ax` and the value `v`: of the low
/// bytes of both in a byte-wide multiplication, of the words otherwise;
/// both read with sign or both without.
pub open spec fn product_of(ax: u16, v: i16, byte: bool, signed: bool) -> int {
    if byte {
        if signed {
            i8_of(ax as int) * i8_of(v as int)
        } else {
            (ax % 0x100) * (u16_of(v as int) % 0x100)
        }
    } else {
        if signed {
            i16_of(ax as int) * v
        } else {
            ax * u16_of(v as int)
        }
    }
}

/// The product that MUL or IMUL forms. The multiplication is byte-wide
/// when the operand is a byte register.
pub open spec fn product(s: VmState, operand: Operand, signed: bool) -> int {
    product_of(s.regs.ax, s.value_of(operand), byte_wide(operand), signed)
}

/// MUL and IMUL. The byte-wide product goes to `AX`; the word-wide
/// product goes to `DX` and `AX`, high word in `DX`. `Carry` and
/// `Overflow` say whether the upper half holds anything but zero.
pub open spec fn multiply(s: VmState, operand: Operand, signed: bool) -> Outcome {
    let p = product(s, operand, signed);
    let read = s.after_read(operand);
    if byte_wide(operand) {
        let ax = u16_of(p);
        done(with_carry_overflow(with_reg(read, Register::AX, ax), ax / 0x100 != 0))
    } else {
        let ax = u16_of(p);
        let dx = u16_of(p / 0x10000);
        done(
            with_carry_overflow(
                with_reg(with_reg(read, Register::AX, ax), Register::DX, dx),
                dx != 0,
            ),
        )
    }
}

/// The double word in `DX` and `AX`, without sign.
pub open spec fn dividend(s: VmState) -> int {
    s.regs.dx * 0x10000 + s.regs.ax
}

/// The double word in `DX` and `AX`, with sign.
pub open spec fn signed_dividend(s: VmState) -> int {
    if s.regs.dx >= 0x8000 {
        dividend(s) - 0x1_0000_0000
    } else {
        dividend(s)
    }
}

/// The magnitude of an integer.
pub open spec fn magnitude(x: int) -> int {
    if x < 0 {
        -x
    } else {
        x
    }
}

/// The quotient of `n` by `d`, rounded towards zero.
pub open spec fn quotient(n: int, d: int) -> int {
    if (n < 0) == (d < 0) {
        magnitude(n) / magnitude(d)
    } else {
        -(magnitude(n) / magnitude(d))
    }
}

/// The remainder of `n` by `d` that goes with the quotient rounded
/// towards zero: it has the sign of `n`.
pub open spec fn remainder(n: int, d: int) -> int {
    if n < 0 {
        -(magnitude(n) % magnitude(d))
    } else {
        magnitude(n) % magnitude(d)
    }
}

/// DIV: `DX:AX` divided by the operand, all without sign. The quotient
/// goes to `AX`, the remainder to `DX`. Division by zero, and a quotient
/// that is no word, give `DivideError` and change no register.
pub open spec fn divide(s: VmState, operand: Operand) -> Outcome {
    let d = u16_of(s.value_of(operand) as int) as int;
    let read = s.after_read(operand);
    if d == 0 || dividend(s) / d > 0xFFFF {
        failed(read, OpcodeExecErrors::DivideError)
    } else {
        done(
            with_reg(
                with_reg(read, Register::AX, (dividend(s) / d) as u16),
                Register::DX,
                (dividend(s) % d) as u16,
            ),
        )
    }
}

/// IDIV: `DX:AX` divided by the operand, all with sign; the quotient is
/// rounded towards zero and the remainder has the sign of the dividend.
/// Division by zero, and a quotient that is no signed word, give
/// `DivideError` and change no register.
pub open spec fn divide_signed(s: VmState, operand: Operand) -> Outcome {
    let d = s.value_of(operand) as int;
    let n = signed_dividend(s);
    let read = s.after_read(operand);
    if d == 0 || overflows(quotient(n, d)) {
        failed(read, OpcodeExecErrors::DivideError)
    } else {
        done(
            with_reg(
                with_reg(read, Register::AX, u16_of(quotient(n, d))),
                Register::DX,
                u16_of(remainder(n, d)),
            ),
        )
    }
}

/// CBW: `AX` takes `AL`, sign-extended.
pub open spec fn cbw(s: VmState) -> Outcome {
    done(with_reg(s, Register::AX, u16_of(i8_of(s.regs.ax as int) as int)))
}

/// CWD: `DX` takes the sign of `AX`: all ones when `AX` is negative, zero
/// otherwise.
pub open spec fn cwd(s: VmState) -> Outcome {
    done(
        with_reg(
            s,
            Register::DX,
            if s.regs.ax >= 0x8000 {
                0xFFFFu16
            } else {
                0u16
            },
        ),
    )
}

/// PUSH: the stack pointer goes down by two, then the value is stored
/// where it points.
pub open spec fn push(s: VmState, src: Operand) -> Outcome {
    let sp = u16_of(s.regs.sp - 2);
    done(with_reg(s.after_read(src).store(sp, u16_of(s.value_of(src) as int)), Register::SP, sp))
}

/// POP: the word at the stack pointer goes to `dest`, after the stack
/// pointer went up by two.
pub open spec fn pop(s: VmState, dest: Operand) -> Outcome {
    if !writable(dest) {
        failed(s, OpcodeExecErrors::InvalidOperand)
    } else {
        done(
            with_reg(s, Register::SP, u16_of(s.regs.sp + 2)).after_write(dest, s.load(s.regs.sp)),
        )
    }
}

/// CALL: the offset of the next instruction is pushed, then execution
/// goes on at the value of `dest`.
pub open spec fn call(s: VmState, dest: Operand) -> Outcome {
    let sp = u16_of(s.regs.sp - 2);
    done(
        with_ip(
            with_reg(s.after_read(dest).store(sp, s.ip), Register::SP, sp),
            u16_of(s.value_of(dest) as int),
        ),
    )
}

/// The number of bytes that RET releases besides the return address, for
/// the operands that RET can take.
pub open spec fn released(src: Option<Operand>) -> Option<u16> {
    match src {
        None => Some(0u16),
        Some(Operand::Immediate(v)) => Some(v as u16),
        Some(Operand::LongImmediate(v)) => Some(v),
        _ => None,
    }
}

/// RET: execution goes on at the word on top of the stack; the stack
/// pointer goes up by two and by the immediate.
pub open spec fn ret(s: VmState, src: Option<Operand>) -> Outcome {
    match released(src) {
        Some(n) => done(
            with_ip(with_reg(s, Register::SP, u16_of(s.regs.sp + 2 + n)), s.load(s.regs.sp)),
        ),
        None => failed(s, OpcodeExecErrors::InvalidOperand),
    }
}

/// JMP: execution goes on at the value of `dest`.
pub open spec fn jump(s: VmState, dest: Operand) -> Outcome {
    done(with_ip(s.after_read(dest), u16_of(s.value_of(dest) as int)))
}

/// What a conditional jump tests.
#[derive(Debug, Copy, Clone, PartialEq, Eq)]
pub enum Condition {
    Equal,
    NotEqual,
    Below,
    NotBelow,
    BelowOrEqual,
    NotBelowOrEqual,
    Less,
    LessOrEqual,
    NotLess,
    NotLessOrEqual,
    Sign,
    NotSign,
    Overflow,
    NotOverflow,
    Parity,
    NotParity,
}

/// Whether a condition holds of the flags.
pub open spec fn holds(c: Condition, f: FlagSet) -> bool {
    match c {
        Condition::Equal => f.zero,
        Condition::NotEqual => !f.zero,
        Condition::Below => f.carry,
        Condition::NotBelow => !f.carry,
        Condition::BelowOrEqual => f.carry || f.zero,
        Condition::NotBelowOrEqual => !f.carry && !f.zero,
        Condition::Less => f.sign != f.overflow,
        Condition::LessOrEqual => f.zero || f.sign != f.overflow,
        Condition::NotLess => f.sign == f.overflow,
        Condition::NotLessOrEqual => !f.zero && f.sign == f.overflow,
        Condition::Sign => f.sign,
        Condition::NotSign => !f.sign,
        Condition::Overflow => f.overflow,
        Condition::NotOverflow => !f.overflow,
        Condition::Parity => f.parity,
        Condition::NotParity => !f.parity,
    }
}

/// A conditional jump: a jump where the condition holds, nothing
/// otherwise.
pub open spec fn jump_if(s: VmState, c: Condition, dest: Operand) -> Outcome {
    if holds(c, s.flags) {
        jump(s, dest)
    } else {
        done(s)
    }
}

/// What a loop instruction asks of the zero flag.
#[derive(Debug, Copy, Clone, PartialEq, Eq)]
pub enum LoopKind {
    Always,
    WhileZero,
    WhileNotZero,
}

/// LOOP, LOOPZ, LOOPNZ: `CX` goes down by one; execution goes on at the
/// value of `dest` unless `CX` is now zero or the zero flag is not as the
/// instruction asks.
pub open spec fn loop_step(s: VmState, kind: LoopKind, dest: Operand) -> Outcome {
    let cx = u16_of(s.regs.cx - 1);
    let counted = with_reg(s.after_read(dest), Register::CX, cx);
    let again = cx != 0 && match kind {
        LoopKind::Always => true,
        LoopKind::WhileZero => s.flags.zero,
        LoopKind::WhileNotZero => !s.flags.zero,
    };
    if again {
        done(with_ip(counted, u16_of(s.value_of(dest) as int)))
    } else {
        done(counted)
    }
}

/// JCXZ: a jump where `CX` is zero.
pub open spec fn jump_if_cx_zero(s: VmState, dest: Operand) -> Outcome {
    if s.regs.cx == 0 {
        jump(s, dest)
    } else {
        done(s)
    }
}

/// LEA: the register `dest` takes the address of the memory operand
/// `src`, not the word there.
pub open spec fn lea(s: VmState, dest: Operand, src: Operand) -> Outcome {
    match (dest, src) {
        (Operand::Register(r), Operand::MemoryAddress(a)) => done(
            with_reg(s.note(s.effective_address(a)), r, s.effective_address(a)),
        ),
        _ => failed(s, OpcodeExecErrors::InvalidOperand),
    }
}

/// XCHG: the two operands change places.
pub open spec fn exchange(s: VmState, dest: Operand, src: Operand) -> Outcome {
    if !writable(dest) || !writable(src) {
        failed(s, OpcodeExecErrors::InvalidOperand)
    } else {
        let a = s.value_of(dest);
        let b = s.value_of(src);
        done(
            s.after_read(dest).after_read(src).after_write(dest, u16_of(b as int)).after_write(
                src,
                u16_of(a as int),
            ),
        )
    }
}

/// What IN reads from every port.
pub const PORT_VALUE: u16 = 0x42;

/// IN: `dest` takes a fixed value, whatever the port.
pub open spec fn input(s: VmState, dest: Operand, src: Operand) -> Outcome {
    if !writable(dest) {
        failed(s, OpcodeExecErrors::InvalidOperand)
    } else {
        done(s.after_read(src).after_write(dest, PORT_VALUE))
    }
}

/// CLC, STC, CLD, STD, CLI, STI: one flag takes one value.
pub open spec fn set_flag(s: VmState, flag: Flag, value: bool) -> Outcome {
    done(with_flags(s, s.flags.spec_set(flag, value)))
}

/// CMC: the carry flag turns over.
pub open spec fn complement_carry(s: VmState) -> Outcome {
    done(with_flags(s, s.flags.spec_set(Flag::Carry, !s.flags.carry)))
}

/// The interrupt number of a system call.
pub const SYSCALL_INTERRUPT: u8 = 0x20;

/// The word of the system call message at `offset` bytes from its start,
/// to which `BX` points.
pub open spec fn message_word(s: VmState, offset: int) -> u16 {
    s.load(u16_of(s.regs.bx + offset))
}

/// The state with `value` in the type field of the message, where the
/// result of a system call goes.
pub open spec fn with_reply(s: VmState, value: u16) -> VmState {
    s.store(u16_of(s.regs.bx + 2), value)
}

/// The `count` bytes of data memory from `address` on; after the last
/// address comes address zero.
pub open spec fn span(s: VmState, address: u16, count: u16) -> Seq<u8> {
    Seq::new(count as nat, |i: int| s.data[(address + i) % 0x10000])
}

/// What the trace holds for `exit`.
pub open spec fn exit_text(status: u16) -> Seq<char> {
    "\n<exit("@ + dec_digits(status as nat) + ")>"@
}

/// What the trace holds for `write` before the bytes written.
pub open spec fn write_text(fd: u16, buffer: u16, count: u16) -> Seq<char> {
    "\n<write("@ + dec_digits(fd as nat) + ", 0x"@ + hex_padded(buffer as nat, 4) + ", "@
        + dec_digits(count as nat) + ")"@
}

/// What the trace holds for `write` after the bytes written.
pub open spec fn written_text(count: u16) -> Seq<char> {
    " => "@ + dec_digits(count as nat) + ">"@
}

/// What the trace holds for `brk`.
pub open spec fn brk_text(address: u16) -> Seq<char> {
    "\n<brk(0x"@ + hex_padded(address as nat, 4) + ") => 0>"@
}

/// What the trace holds for `ioctl`.
pub open spec fn ioctl_text(fd: u16, request: u16, data: u16) -> Seq<char> {
    "\n<ioctl("@ + dec_digits(fd as nat) + ", 0x"@ + hex_padded(request as nat, 2) + ", 0x"@
        + hex_padded(data as nat, 2) + ")>"@
}

/// `exit(status)`: the run ends.
pub open spec fn sys_exit(s: VmState) -> Outcome {
    failed(s.emit(exit_text(message_word(s, 4))), OpcodeExecErrors::ExitCatch)
}

/// `write(fd, buffer, count)`: the bytes go to standard output. `AX`
/// becomes zero and the reply is the count. With the trace on, the bytes
/// stand inside the record of the call.
pub open spec fn sys_write(s: VmState) -> Outcome {
    let fd = message_word(s, 4);
    let count = message_word(s, 6);
    let buffer = message_word(s, 10);
    let replied = with_reply(with_reg(s, Register::AX, 0), count);
    let bytes = span(replied, buffer, count);
    if s.trace {
        done(replied.emit(write_text(fd, buffer, count)).print(bytes).emit(written_text(count)))
    } else {
        done(replied.print(bytes))
    }
}

/// `brk(address)`: nothing moves; the reply is zero.
pub open spec fn sys_brk(s: VmState) -> Outcome {
    done(with_reply(s, 0).emit(brk_text(message_word(s, 10))))
}

/// `ioctl(fd, request, data)`: `AX` becomes zero and the reply is
/// 0xFFEA.
pub open spec fn sys_ioctl(s: VmState) -> Outcome {
    done(
        with_reg(
            with_reply(
                s.emit(ioctl_text(message_word(s, 4), message_word(s, 8), message_word(s, 18))),
                0xFFEA,
            ),
            Register::AX,
            0,
        ),
    )
}

/// INT: interrupt 0x20 is a system call, selected by the type field of
/// the message at `BX`; every other interrupt, and every other type, is
/// an error.
pub open spec fn interrupt(s: VmState, int_type: u8) -> Outcome {
    if int_type != SYSCALL_INTERRUPT {
        failed(s, OpcodeExecErrors::UnimplementedInterrupt(int_type as usize))
    } else {
        let kind = message_word(s, 2);
        if kind == 1 {
            sys_exit(s)
        } else if kind == 4 {
            sys_write(s)
        } else if kind == 17 {
            sys_brk(s)
        } else if kind == 54 {
            sys_ioctl(s)
        } else {
            failed(s, OpcodeExecErrors::UnimplementedSyscall(kind as usize))
        }
    }
}

/// What an instruction does. The instructions that this machine gives no
/// meaning to, among them HLT, which the run loop handles, the string
/// instructions and the decimal adjustments, leave the state as it is.
#[verifier::opaque]
pub open spec fn execute(s: VmState, ir: IR) -> Outcome {
    match ir {
        IR::Mov { dest, src, byte } => mov(s, dest, src, byte),
        IR::Int { int_type } => interrupt(s, int_type),
        IR::Add { dest, src } => arith(s, Arith::Add, dest, src),
        IR::Adc { dest, src } => arith(s, Arith::Adc, dest, src),
        IR::Sub { dest, src } => arith(s, Arith::Sub, dest, src),
        IR::Ssb { dest, src } => arith(s, Arith::Sbb, dest, src),
        IR::And { dest, src } => arith(s, Arith::And, dest, src),
        IR::Or { dest, src } => arith(s, Arith::Or, dest, src),
        IR::Xor { dest, src } => arith(s, Arith::Xor, dest, src),
        IR::Cmp { dest, src, byte } => compare(s, dest, src, byte),
        IR::Test { dest, src, byte } => test(s, dest, src, byte),
        IR::Inc { dest } => unary(s, Unary::Inc, dest),
        IR::Dec { dest } => unary(s, Unary::Dec, dest),
        IR::Neg { dest } => unary(s, Unary::Neg, dest),
        IR::Not { dest } => unary(s, Unary::Not, dest),
        IR::Shl { dest, src } => shift(s, Shift::Shl, dest, src),
        IR::Shr { dest, src } => shift(s, Shift::Shr, dest, src),
        IR::Sar { dest, src } => shift(s, Shift::Sar, dest, src),
        IR::Rol { dest, src } => rotate(s, Rotate::Rol, dest, src),
        IR::Ror { dest, src } => rotate(s, Rotate::Ror, dest, src),
        IR::Rcl { dest, src } => rotate(s, Rotate::Rcl, dest, src),
        IR::Rcr { dest, src } => rotate(s, Rotate::Rcr, dest, src),
        IR::Mul { dest } => multiply(s, dest, false),
        IR::Imul { dest } => multiply(s, dest, true),
        IR::Div { dest } => divide(s, dest),
        IR::Idiv { dest } => divide_signed(s, dest),
        IR::Cbw => cbw(s),
        IR::Cwd => cwd(s),
        IR::Push { src } => push(s, src),
        IR::Pop { dest } => pop(s, dest),
        IR::Call { dest } => call(s, dest),
        IR::Ret { src } => ret(s, src),
        IR::Jmp { dest, short } => jump(s, dest),
        IR::Je { dest } => jump_if(s, Condition::Equal, dest),
        IR::Jne { dest } => jump_if(s, Condition::NotEqual, dest),
        IR::Jb { dest } => jump_if(s, Condition::Below, dest),
        IR::Jnb { dest } => jump_if(s, Condition::NotBelow, dest),
        IR::Jbe { dest } => jump_if(s, Condition::BelowOrEqual, dest),
        IR::Jnbe { dest } => jump_if(s, Condition::NotBelowOrEqual, dest),
        IR::Jl { dest } => jump_if(s, Condition::Less, dest),
        IR::Jle { dest } => jump_if(s, Condition::LessOrEqual, dest),
        IR::Jnl { dest } => jump_if(s, Condition::NotLess, dest),
        IR::Jnle { dest } => jump_if(s, Condition::NotLessOrEqual, dest),
        IR::Js { dest } => jump_if(s, Condition::Sign, dest),
        IR::Jns { dest } => jump_if(s, Condition::NotSign, dest),
        IR::Jo { dest } => jump_if(s, Condition::Overflow, dest),
        IR::Jno { dest } => jump_if(s, Condition::NotOverflow, dest),
        IR::Jp { dest } => jump_if(s, Condition::Parity, dest),
        IR::Jnp { dest } => jump_if(s, Condition::NotParity, dest),
        IR::Loop { dest } => loop_step(s, LoopKind::Always, dest),
        IR::Loopz { dest } => loop_step(s, LoopKind::WhileZero, dest),
        IR::Loopnz { dest } => loop_step(s, LoopKind::WhileNotZero, dest),
        IR::Jcxz { dest } => jump_if_cx_zero(s, dest),
        IR::Lea { dest, src } => lea(s, dest, src),
        IR::Xchg { dest, src } => exchange(s, dest, src),
        IR::In { dest, src } => input(s, dest, src),
        IR::Clc => set_flag(s, Flag::Carry, false),
        IR::Stc => set_flag(s, Flag::Carry, true),
        IR::Cmc => complement_carry(s),
        IR::Cld => set_flag(s, Flag::Direction, false),
        IR::Std => set_flag(s, Flag::Direction, true),
        IR::Cli => set_flag(s, Flag::Interrupt, false),
        IR::Sti => set_flag(s, Flag::Interrupt, true),
        _ => done(s),
    }
}


/// The most bytes that are fetched for one instruction.
pub const MAX_INSTRUCTION_SIZE: usize = 15;

/// The most instructions that one run executes.
pub const CYCLE_LIMIT: u32 = 999_999;

/// The bytes fetched at the instruction pointer: up to fifteen, fewer at
/// the end of the code, none past it.
pub open spec fn fetched(s: VmState) -> Option<Seq<u8>> {
    if s.ip >= s.text.len() {
        None
    } else if s.text.len() - s.ip < MAX_INSTRUCTION_SIZE {
        Some(s.text.subrange(s.ip as int, s.text.len() as int))
    } else {
        Some(s.text.subrange(s.ip as int, s.ip + MAX_INSTRUCTION_SIZE))
    }
}

/// The flags as the trace shows them: a dash where parity would stand,
/// then `S`, `Z` and `C` for the flags that are set and a dash for each
/// that is clear.
pub open spec fn flags_text(f: FlagSet) -> Seq<char> {
    "-"@ + (if f.sign { "S"@ } else { "-"@ }) + (if f.zero { "Z"@ } else { "-"@ }) + (if f.carry {
        "C"@
    } else {
        "-"@
    })
}

/// One register as the trace shows it: four hexadecimal digits and a
/// space.
pub open spec fn register_text(s: VmState, reg: Register) -> Seq<char> {
    hex_padded(s.regs.spec_get(reg) as nat, 4) + " "@
}

/// The registers as the trace shows them, in the order `AX BX CX DX SP
/// BP SI DI`.
pub open spec fn registers_text(s: VmState) -> Seq<char> {
    register_text(s, Register::AX) + register_text(s, Register::BX) + register_text(
        s,
        Register::CX,
    ) + register_text(s, Register::DX) + register_text(s, Register::SP) + register_text(
        s,
        Register::BP,
    ) + register_text(s, Register::SI) + register_text(s, Register::DI)
}

/// The first line of a trace: the names of the columns.
pub open spec fn trace_header() -> Seq<char> {
    " AX   BX   CX   DX   SP   BP   SI   DI  FLAGS IP\n"@
}

/// The state of the machine as a trace line begins with it: registers,
/// flags, the instruction pointer, a colon and the bytes of the
/// instruction.
pub open spec fn trace_prefix(s: VmState, raw: Seq<u8>) -> Seq<char> {
    registers_text(s) + flags_text(s.flags) + " "@ + hex_padded(s.ip as nat, 4) + ":"@
        + hex_bytes(raw)
}

/// The trace line for an instruction about to be executed: the state,
/// filled with spaces to sixty-two characters, a space, the instruction.
/// The line is ended only after the instruction has been executed.
#[verifier::opaque]
pub open spec fn trace_line(s: VmState, ir: IR, raw: Seq<u8>) -> Seq<char> {
    pad_right(trace_prefix(s, raw), 62) + " "@ + ir.text()
}

/// How a step ended a run, where it did.
pub type Ending = Option<Result<(), InterpreterError>>;

/// A fetch, a decode and the execution of one instruction: the state
/// after it, and how the run ended if it did.
///
/// The run ends normally where the instruction pointer is past the code,
/// at HLT, and at the `exit` system call. It fails where the bytes are no
/// instruction, where the limit on the number of instructions is reached
/// and another instruction is due, and where an instruction fails. The
/// instruction pointer moves past the instruction before the instruction
/// is executed.
#[verifier::opaque]
pub open spec fn step(s: VmState) -> (VmState, Ending) {
    match fetched(s) {
        None => (s, Some(Ok(()))),
        Some(chunk) => match decode(chunk, s.ip as int) {
            Err(e) => (s, Some(Err(InterpreterError::DecodeError(e)))),
            Ok((ir, n)) => if ir is Hlt {
                (s, Some(Ok(())))
            } else if s.cycles >= CYCLE_LIMIT {
                (
                    s,
                    Some(Err(InterpreterError::CycleLimitExceeded)),
                )
            } else {
                let begun = VmState {
                    ip: u16_of(s.ip + n),
                    cycles: s.cycles + 1,
                    ..s.emit(trace_line(s, ir, chunk.subrange(0, n)))
                };
                let outcome = execute(begun, ir);
                match outcome.result {
                    Ok(_) => (outcome.state.emit("\n"@), None),
                    Err(OpcodeExecErrors::ExitCatch) => (outcome.state.emit("\n"@), Some(Ok(()))),
                    Err(e) => (
                        outcome.state,
                        Some(
                            Err(
                                InterpreterError::OpcodeExecutionError(
                                    e,
                                ),
                            ),
                        ),
                    ),
                }
            },
        },
    }
}

/// Steps from state `s` until one ends the run.
pub open spec fn run_from(s: VmState) -> (VmState, Result<
    (),
    InterpreterError,
>)
    decreases CYCLE_LIMIT - s.cycles,
{
    let (next, ending) = step(s);
    match ending {
        Some(result) => (next, result),
        None => if s.cycles < CYCLE_LIMIT && next.cycles == s.cycles + 1 {
            run_from(next)
        } else {
            (next, Ok(()))
        },
    }
}

/// A whole run: the count of instructions starts at zero, the trace
/// begins with its header, then the machine steps until a step ends the
/// run.
pub open spec fn run(s: VmState) -> (VmState, Result<
    (),
    InterpreterError,
>) {
    run_from((VmState { cycles: 0, ..s }).emit(trace_header()))
}

} // verus!
