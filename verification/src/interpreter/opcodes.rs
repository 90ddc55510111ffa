//! The executors: one method of the machine for each instruction.

use vstd::prelude::*;
use crate::word::{byte_to_i8, i16_to_word, low_byte, word_to_i16, wrap_i16, wrap_word};
use crate::word::u16_of;
use crate::x86::operand::Operand;
use crate::x86::register::Register;
use crate::interpreter::error::OpcodeExecErrors;
use crate::interpreter::flag_set::{Flag, FlagSet};
use crate::interpreter::semantics;
use crate::interpreter::semantics::{Arith, Condition, LoopKind, Rotate, Shift, Unary};
use crate::interpreter::state::{kept, writable};
use crate::interpreter::vm::VM;

verus! {

/// Whether an operand can be written to.
pub fn is_writable(operand: &Operand) -> (b: bool)
    ensures
        b == writable(*operand),
{
    match operand {
        Operand::Register(_) => true,
        Operand::MemoryAddress(_) => true,
        _ => false,
    }
}

/// The value of an operand in an instruction of the given width.
pub fn narrowed(v: i16, byte: bool) -> (r: i16)
    ensures
        r == semantics::narrow(v, byte),
{
    if byte {
        byte_to_i8(low_byte(i16_to_word(v))) as i16
    } else {
        v
    }
}

/// Bit `k` of a word.
pub fn bit_of(v: u16, k: i32) -> (b: bool)
    ensures
        b == semantics::bit(v, k as int),
{
    if 0 <= k && k < 16 {
        (v >> (k as u16)) & 1 == 1
    } else {
        false
    }
}

/// The result and the flags of an arithmetic or logical instruction.
pub fn compute_arith(kind: Arith, flags: FlagSet, a: i16, b: i16) -> (res: (i16, FlagSet))
    ensures
        res.0 == semantics::arith_result(kind, a, b, semantics::carry_in(flags)),
        res.1 == semantics::arith_flags(kind, flags, a, b, semantics::carry_in(flags)),
{
    let c: i64 = if flags.carry {
        1
    } else {
        0
    };
    let mut f = flags;
    match kind {
        Arith::Add | Arith::Adc => {
            let exact: i64 = if let Arith::Add = kind {
                a as i64 + b as i64
            } else {
                a as i64 + b as i64 + c
            };
            let r = wrap_i16(exact);
            f.set(Flag::Overflow, exact < -0x8000 || exact > 0x7FFF);
            f.set(Flag::Carry, r < a);
            f.set_szp(r);
            f.set(Flag::Aux, i16_to_word(a) % 0x10 + i16_to_word(b) % 0x10 > 0xF);
            (r, f)
        },
        Arith::Sub | Arith::Sbb => {
            let exact: i64 = if let Arith::Sub = kind {
                a as i64 - b as i64
            } else {
                a as i64 - b as i64 - c
            };
            let r = wrap_i16(exact);
            f.set(Flag::Overflow, exact < -0x8000 || exact > 0x7FFF);
            f.set(Flag::Carry, a > b);
            f.set_szp(r);
            (r, f)
        },
        Arith::And | Arith::Or | Arith::Xor => {
            let r: i16 = match kind {
                Arith::And => a & b,
                Arith::Or => a | b,
                _ => a ^ b,
            };
            f.set(Flag::Overflow, false);
            f.set(Flag::Carry, false);
            f.set_szp(r);
            (r, f)
        },
    }
}

/// The result and the flags of a one-operand instruction.
pub fn compute_unary(kind: Unary, flags: FlagSet, a: i16) -> (res: (i16, FlagSet))
    ensures
        res.0 == semantics::unary_result(kind, a),
        res.1 == semantics::unary_flags(kind, flags, a),
{
    let mut f = flags;
    match kind {
        Unary::Inc => {
            let r = wrap_i16(a as i64 + 1);
            f.set(Flag::Overflow, false);
            f.set_szp(r);
            (r, f)
        },
        Unary::Dec => {
            let r = wrap_i16(a as i64 - 1);
            f.set(Flag::Overflow, false);
            f.set_szp(r);
            (r, f)
        },
        Unary::Neg => {
            let r = wrap_i16(-(a as i64));
            f.set(Flag::Carry, a != 0);
            f.set(Flag::Overflow, a == -0x8000);
            f.set_szp(r);
            (r, f)
        },
        Unary::Not => ((-(a as i32) - 1) as i16, f),
    }
}

/// The product of two values of at most seventeen bits.
fn mul_words(x: i64, y: i64) -> (p: i64)
    requires
        -0x10000 <= x <= 0x10000,
        -0x10000 <= y <= 0x10000,
    ensures
        p == x * y,
        -0x1_0000_0000 <= p <= 0x1_0000_0000,
{
    assert(-0x1_0000_0000 <= x * y <= 0x1_0000_0000) by (nonlinear_arith)
        requires
            -0x10000 <= x <= 0x10000,
            -0x10000 <= y <= 0x10000,
    ;
    x * y
}

/// The result and the flags of a shift.
pub fn compute_shift(kind: Shift, flags: FlagSet, a: u16, count: u16) -> (res: (u16, FlagSet))
    ensures
        res.0 == semantics::shift_result(kind, a, count),
        res.1 == semantics::shift_flags(kind, flags, a, count),
{
    let r: u16 = match kind {
        Shift::Shl => if count < 16 {
            (((a as u32) << (count as u32)) % 0x10000) as u16
        } else {
            0
        },
        Shift::Shr => if count < 16 {
            a >> count
        } else {
            0
        },
        Shift::Sar => if count < 16 {
            i16_to_word(word_to_i16(a) >> count)
        } else if a >= 0x8000 {
            0xFFFF
        } else {
            0
        },
    };
    let carry = match kind {
        Shift::Shl => bit_of(a, 16 - count as i32),
        Shift::Shr => bit_of(a, count as i32 - 1),
        Shift::Sar => if count >= 16 {
            a >= 0x8000
        } else {
            bit_of(a, count as i32 - 1)
        },
    };
    let mut f = flags;
    f.set(Flag::Carry, carry);
    if count == 1 {
        if let Shift::Shl = kind {
            f.set(Flag::Overflow, bit_of(a, 15));
        }
    }
    f.set_szp(word_to_i16(r));
    (r, f)
}

/// A word and the carry flag after a rotate by one bit.
pub fn rotate_one(kind: Rotate, v: u16, carry: bool) -> (res: (u16, bool))
    ensures
        res == semantics::rotate_once(kind, v, carry),
{
    let c: u32 = if carry {
        1
    } else {
        0
    };
    match kind {
        Rotate::Rol => (wrap_word(v as u32 * 2 + (v / 0x8000) as u32), v >= 0x8000),
        Rotate::Ror => (v / 2 + (v % 2) * 0x8000, v % 2 == 1),
        Rotate::Rcl => (wrap_word(v as u32 * 2 + c), v >= 0x8000),
        Rotate::Rcr => ((v as u32 / 2 + c * 0x8000) as u16, v % 2 == 1),
    }
}

/// A word and the carry flag after `count` rotates by one bit.
pub fn compute_rotate(kind: Rotate, a: u16, carry: bool, count: u16) -> (res: (u16, bool))
    ensures
        res == semantics::rotated(kind, a, carry, count as nat),
{
    let mut v = a;
    let mut c = carry;
    let mut i: u16 = 0;
    proof {
        reveal(semantics::rotated);
    }
    while i < count
        invariant
            i <= count,
            (v, c) == semantics::rotated(kind, a, carry, i as nat),
        decreases count - i,
    {
        proof {
            reveal(semantics::rotated);
        }
        let next = rotate_one(kind, v, c);
        v = next.0;
        c = next.1;
        i = i + 1;
    }
    (v, c)
}

/// The result of a rotate and the flags after it.
pub fn compute_rotate_flags(kind: Rotate, flags: FlagSet, a: u16, count: u16) -> (res: (
    u16,
    FlagSet,
))
    ensures
        res.0 == semantics::rotate_result(kind, a, flags.carry, count),
        res.1 == semantics::rotate_flags(kind, flags, a, count),
{
    let (r, c) = compute_rotate(kind, a, flags.carry, count);
    let mut f = flags;
    f.set(Flag::Carry, c);
    if count == 1 {
        f.set(Flag::Overflow, (r >= 0x8000) != (a >= 0x8000));
    }
    (r, f)
}

/// The product of the accumulator and a value.
fn compute_product(ax: u16, v: i16, byte: bool, signed: bool) -> (p: i64)
    ensures
        p == semantics::product_of(ax, v, byte, signed),
        -0x1_0000_0000 <= p <= 0x1_0000_0000,
{
    let x: i64 = if byte {
        if signed {
            byte_to_i8(low_byte(ax)) as i64
        } else {
            (ax % 0x100) as i64
        }
    } else {
        if signed {
            word_to_i16(ax) as i64
        } else {
            ax as i64
        }
    };
    let y: i64 = if byte {
        if signed {
            byte_to_i8(low_byte(i16_to_word(v))) as i64
        } else {
            (i16_to_word(v) % 0x100) as i64
        }
    } else {
        if signed {
            v as i64
        } else {
            i16_to_word(v) as i64
        }
    };
    mul_words(x, y)
}

/// The low word of a product.
fn low_word(p: i64) -> (w: u16)
    ensures
        w == u16_of(p as int),
{
    i16_to_word(wrap_i16(p))
}

/// The high word of a product.
fn high_word(p: i64) -> (w: u16)
    requires
        -0x1_0000_0000 <= p <= 0x1_0000_0000,
    ensures
        w == u16_of(p as int / 0x10000),
{
    let shifted: i64 = (p + 0x1_0000_0000_0000) / 0x10000;
    assert(shifted as int == p as int / 0x10000 + 0x1_0000_0000) by {
        assert((p + 0x1_0000_0000_0000) / 0x10000 == p / 0x10000 + 0x1_0000_0000)
            by (nonlinear_arith)
            requires
                0x1_0000_0000_0000int == 0x1_0000_0000int * 0x10000,
        ;
    }
    i16_to_word(wrap_i16(shifted - 0x1_0000_0000))
}

impl VM {
    /// ADD, ADC, SUB, SBB, AND, OR, XOR.
    #[verifier::rlimit(50)]
    pub fn arith(&mut self, kind: Arith, dest: Operand, src: Operand) -> (res: Result<
        (),
        OpcodeExecErrors,
    >)
        requires
            old(self).wf(),
        ensures
            final(self).wf(),
            kept(old(self)@, final(self)@),
            semantics::arith(old(self)@, kind, dest, src).is(final(self)@, res),
    {
        if !is_writable(&dest) {
            return Err(OpcodeExecErrors::InvalidOperand);
        }
        let flags = self.flags;
        let b = self.peek(&src);
        let a = self.peek(&dest);
        self.trace_read(&src);
        self.trace_read(&dest);
        let (r, f) = compute_arith(kind, flags, a, b);
        let _ = self.write_value(&dest, i16_to_word(r));
        self.flags = f;
        Ok(())
    }

    /// ADD: `dest` becomes `dest + src`.
    pub fn add(&mut self, dest: Operand, src: Operand) -> (res: Result<(), OpcodeExecErrors>)
        requires
            old(self).wf(),
        ensures
            final(self).wf(),
            kept(old(self)@, final(self)@),
            semantics::arith(old(self)@, Arith::Add, dest, src).is(final(self)@, res),
    {
        self.arith(Arith::Add, dest, src)
    }

    /// MOV: `dest` takes the value of `src`.
    pub fn mov(&mut self, dest: Operand, src: Operand, byte: bool) -> (res: Result<
        (),
        OpcodeExecErrors,
    >)
        requires
            old(self).wf(),
        ensures
            final(self).wf(),
            kept(old(self)@, final(self)@),
            semantics::mov(old(self)@, dest, src, byte).is(final(self)@, res),
    {
        if !is_writable(&dest) {
            return Err(OpcodeExecErrors::InvalidOperand);
        }
        let v = narrowed(self.read_value(&src), byte);
        self.write_value(&dest, i16_to_word(v))
    }

    /// INC, DEC, NEG, NOT.
    pub fn unary(&mut self, kind: Unary, dest: Operand) -> (res: Result<(), OpcodeExecErrors>)
        requires
            old(self).wf(),
        ensures
            final(self).wf(),
            kept(old(self)@, final(self)@),
            semantics::unary(old(self)@, kind, dest).is(final(self)@, res),
    {
        if !is_writable(&dest) {
            return Err(OpcodeExecErrors::InvalidOperand);
        }
        let flags = self.flags;
        let a = self.read_value(&dest);
        let (r, f) = compute_unary(kind, flags, a);
        let _ = self.write_value(&dest, i16_to_word(r));
        self.flags = f;
        Ok(())
    }

    /// The flags of a subtraction that is written nowhere.
    #[verifier::rlimit(50)]
    pub fn compare(&mut self, dest: Operand, src: Operand, byte: bool) -> (res: Result<
        (),
        OpcodeExecErrors,
    >)
        requires
            old(self).wf(),
        ensures
            final(self).wf(),
            kept(old(self)@, final(self)@),
            semantics::compare(old(self)@, dest, src, byte).is(final(self)@, res),
    {
        let mut f = self.flags;
        let b = narrowed(self.peek(&src), byte);
        let a = narrowed(self.peek(&dest), byte);
        self.trace_read(&src);
        self.trace_read(&dest);
        let exact: i64 = a as i64 - b as i64;
        let r = narrowed(wrap_i16(exact), byte);
        let overflow = if byte {
            exact < -0x80 || exact > 0x7F
        } else {
            exact < -0x8000 || exact > 0x7FFF
        };
        f.set(Flag::Overflow, overflow);
        f.set(Flag::Carry, a > b);
        f.set_szp(r);
        self.flags = f;
        Ok(())
    }

    /// CMP: the flags of `dest - src`.
    pub fn cmp(&mut self, dest: Operand, src: Operand, byte: bool) -> (res: Result<
        (),
        OpcodeExecErrors,
    >)
        requires
            old(self).wf(),
        ensures
            final(self).wf(),
            kept(old(self)@, final(self)@),
            semantics::compare(old(self)@, dest, src, byte).is(final(self)@, res),
    {
        self.compare(dest, src, byte)
    }

    /// TEST: the flags of the bitwise and of `dest` and `src`.
    pub fn test(&mut self, dest: Operand, src: Operand, byte: bool) -> (res: Result<
        (),
        OpcodeExecErrors,
    >)
        requires
            old(self).wf(),
        ensures
            final(self).wf(),
            kept(old(self)@, final(self)@),
            semantics::test(old(self)@, dest, src, byte).is(final(self)@, res),
    {
        let mut f = self.flags;
        let b = narrowed(self.peek(&src), byte);
        let a = narrowed(self.peek(&dest), byte);
        self.trace_read(&src);
        self.trace_read(&dest);
        f.set(Flag::Carry, false);
        f.set(Flag::Overflow, false);
        f.set_szp(a & b);
        self.flags = f;
        Ok(())
    }

    /// SHL, SHR, SAR.
    #[verifier::rlimit(50)]
    pub fn shift(&mut self, kind: Shift, dest: Operand, src: Operand) -> (res: Result<
        (),
        OpcodeExecErrors,
    >)
        requires
            old(self).wf(),
        ensures
            final(self).wf(),
            kept(old(self)@, final(self)@),
            semantics::shift(old(self)@, kind, dest, src).is(final(self)@, res),
    {
        if !is_writable(&dest) {
            return Err(OpcodeExecErrors::InvalidOperand);
        }
        let flags = self.flags;
        let count = i16_to_word(self.peek(&src));
        let a = i16_to_word(self.peek(&dest));
        self.trace_read(&src);
        self.trace_read(&dest);
        let (r, f) = compute_shift(kind, flags, a, count);
        let _ = self.write_value(&dest, r);
        self.flags = f;
        Ok(())
    }

    /// ROL, ROR, RCL, RCR.
    #[verifier::rlimit(50)]
    pub fn rotate(&mut self, kind: Rotate, dest: Operand, src: Operand) -> (res: Result<
        (),
        OpcodeExecErrors,
    >)
        requires
            old(self).wf(),
        ensures
            final(self).wf(),
            kept(old(self)@, final(self)@),
            semantics::rotate(old(self)@, kind, dest, src).is(final(self)@, res),
    {
        if !is_writable(&dest) {
            return Err(OpcodeExecErrors::InvalidOperand);
        }
        let flags = self.flags;
        let count = i16_to_word(self.peek(&src));
        let a = i16_to_word(self.peek(&dest));
        self.trace_read(&src);
        self.trace_read(&dest);
        let (r, f) = compute_rotate_flags(kind, flags, a, count);
        let _ = self.write_value(&dest, r);
        self.flags = f;
        Ok(())
    }

    /// MUL and IMUL.
    #[verifier::rlimit(50)]
    pub fn multiply(&mut self, operand: Operand, signed: bool) -> (res: Result<
        (),
        OpcodeExecErrors,
    >)
        requires
            old(self).wf(),
        ensures
            final(self).wf(),
            kept(old(self)@, final(self)@),
            semantics::multiply(old(self)@, operand, signed).is(final(self)@, res),
    {
        let ax = self.regs.get(Register::AX);
        let v = self.read_value(&operand);
        let byte = match operand {
            Operand::Register(r) => !r.is_word_register(),
            _ => false,
        };
        let p = compute_product(ax, v, byte, signed);
        let low = low_word(p);
        if byte {
            self.regs.set(Register::AX, low);
            self.flags.set(Flag::Carry, low / 0x100 != 0);
            self.flags.set(Flag::Overflow, low / 0x100 != 0);
        } else {
            let high = high_word(p);
            self.regs.set(Register::AX, low);
            self.regs.set(Register::DX, high);
            self.flags.set(Flag::Carry, high != 0);
            self.flags.set(Flag::Overflow, high != 0);
        }
        Ok(())
    }

    /// DIV: `DX:AX` divided by `src` without sign.
    pub fn div(&mut self, src: Operand) -> (res: Result<(), OpcodeExecErrors>)
        requires
            old(self).wf(),
        ensures
            final(self).wf(),
            kept(old(self)@, final(self)@),
            semantics::divide(old(self)@, src).is(final(self)@, res),
    {
        let ax = self.regs.get(Register::AX);
        let dx = self.regs.get(Register::DX);
        let d = i16_to_word(self.read_value(&src)) as u32;
        let n: u32 = dx as u32 * 0x10000 + ax as u32;
        if d == 0 {
            return Err(OpcodeExecErrors::DivideError);
        }
        let q = n / d;
        if q > 0xFFFF {
            return Err(OpcodeExecErrors::DivideError);
        }
        self.regs.set(Register::AX, q as u16);
        self.regs.set(Register::DX, (n % d) as u16);
        Ok(())
    }

    /// IDIV: `DX:AX` divided by `src` with sign.
    #[verifier::rlimit(50)]
    pub fn idiv(&mut self, src: Operand) -> (res: Result<(), OpcodeExecErrors>)
        requires
            old(self).wf(),
        ensures
            final(self).wf(),
            kept(old(self)@, final(self)@),
            semantics::divide_signed(old(self)@, src).is(final(self)@, res),
    {
        let ax = self.regs.get(Register::AX);
        let dx = self.regs.get(Register::DX);
        let d: i64 = self.read_value(&src) as i64;
        let unsigned: i64 = dx as i64 * 0x10000 + ax as i64;
        let n: i64 = if dx >= 0x8000 {
            unsigned - 0x1_0000_0000
        } else {
            unsigned
        };
        if d == 0 {
            return Err(OpcodeExecErrors::DivideError);
        }
        let n_size: u64 = if n < 0 {
            (-n) as u64
        } else {
            n as u64
        };
        let d_size: u64 = if d < 0 {
            (-d) as u64
        } else {
            d as u64
        };
        let q_size: i64 = (n_size / d_size) as i64;
        let r_size: i64 = (n_size % d_size) as i64;
        let q: i64 = if (n < 0) == (d < 0) {
            q_size
        } else {
            -q_size
        };
        if q < -0x8000 || q > 0x7FFF {
            return Err(OpcodeExecErrors::DivideError);
        }
        let r: i64 = if n < 0 {
            -r_size
        } else {
            r_size
        };
        self.regs.set(Register::AX, i16_to_word(wrap_i16(q)));
        self.regs.set(Register::DX, i16_to_word(wrap_i16(r)));
        Ok(())
    }

    /// CBW: `AX` takes `AL`, sign-extended.
    pub fn cbw(&mut self) -> (res: Result<(), OpcodeExecErrors>)
        requires
            old(self).wf(),
        ensures
            final(self).wf(),
            kept(old(self)@, final(self)@),
            semantics::cbw(old(self)@).is(final(self)@, res),
    {
        let al = low_byte(self.regs.get(Register::AX));
        self.regs.set(Register::AX, i16_to_word(byte_to_i8(al) as i16));
        Ok(())
    }

    /// CWD: `DX` takes the sign of `AX`.
    pub fn cwd(&mut self) -> (res: Result<(), OpcodeExecErrors>)
        requires
            old(self).wf(),
        ensures
            final(self).wf(),
            kept(old(self)@, final(self)@),
            semantics::cwd(old(self)@).is(final(self)@, res),
    {
        let dx: u16 = if self.regs.get(Register::AX) >= 0x8000 {
            0xFFFF
        } else {
            0
        };
        self.regs.set(Register::DX, dx);
        Ok(())
    }

    /// PUSH: `src` goes on the stack.
    pub fn push(&mut self, src: Operand) -> (res: Result<(), OpcodeExecErrors>)
        requires
            old(self).wf(),
        ensures
            final(self).wf(),
            kept(old(self)@, final(self)@),
            semantics::push(old(self)@, src).is(final(self)@, res),
    {
        let sp = wrap_word(self.regs.get(Register::SP) as u32 + 0x10000 - 2);
        let value = i16_to_word(self.read_value(&src));
        self.store(sp, value);
        self.regs.set(Register::SP, sp);
        Ok(())
    }

    /// POP: `dest` takes the word on top of the stack.
    pub fn pop(&mut self, dest: Operand) -> (res: Result<(), OpcodeExecErrors>)
        requires
            old(self).wf(),
        ensures
            final(self).wf(),
            kept(old(self)@, final(self)@),
            semantics::pop(old(self)@, dest).is(final(self)@, res),
    {
        if !is_writable(&dest) {
            return Err(OpcodeExecErrors::InvalidOperand);
        }
        let sp = self.regs.get(Register::SP);
        let value = self.load(sp);
        self.regs.set(Register::SP, wrap_word(sp as u32 + 2));
        self.write_value(&dest, value)
    }

    /// CALL: the return address goes on the stack and execution goes on
    /// at `dest`.
    pub fn call(&mut self, dest: Operand) -> (res: Result<(), OpcodeExecErrors>)
        requires
            old(self).wf(),
        ensures
            final(self).wf(),
            kept(old(self)@, final(self)@),
            semantics::call(old(self)@, dest).is(final(self)@, res),
    {
        let sp = wrap_word(self.regs.get(Register::SP) as u32 + 0x10000 - 2);
        let back = self.ip;
        let target = i16_to_word(self.read_value(&dest));
        self.store(sp, back);
        self.regs.set(Register::SP, sp);
        self.ip = target;
        Ok(())
    }

    /// RET: execution goes on at the address on top of the stack; `src`
    /// more bytes are released.
    pub fn ret(&mut self, src: Option<Operand>) -> (res: Result<(), OpcodeExecErrors>)
        requires
            old(self).wf(),
        ensures
            final(self).wf(),
            kept(old(self)@, final(self)@),
            semantics::ret(old(self)@, src).is(final(self)@, res),
    {
        let extra: u16 = match src {
            None => 0,
            Some(Operand::Immediate(v)) => v as u16,
            Some(Operand::LongImmediate(v)) => v,
            Some(_) => {
                return Err(OpcodeExecErrors::InvalidOperand);
            },
        };
        let sp = self.regs.get(Register::SP);
        let target = self.load(sp);
        self.regs.set(Register::SP, wrap_word(sp as u32 + 2 + extra as u32));
        self.ip = target;
        Ok(())
    }

    /// JMP: execution goes on at `dest`.
    pub fn jmp(&mut self, dest: Operand) -> (res: Result<(), OpcodeExecErrors>)
        requires
            old(self).wf(),
        ensures
            final(self).wf(),
            kept(old(self)@, final(self)@),
            semantics::jump(old(self)@, dest).is(final(self)@, res),
    {
        let target = i16_to_word(self.read_value(&dest));
        self.ip = target;
        Ok(())
    }

    /// A jump where the condition holds of the flags.
    pub fn jump_if(&mut self, c: Condition, dest: Operand) -> (res: Result<(), OpcodeExecErrors>)
        requires
            old(self).wf(),
        ensures
            final(self).wf(),
            kept(old(self)@, final(self)@),
            semantics::jump_if(old(self)@, c, dest).is(final(self)@, res),
    {
        let f = self.flags;
        let taken = match c {
            Condition::Equal => f.zero,
            Condition::NotEqual => !f.zero,
            Condition::Below => f.carry,
            Condition::NotBelow => !f.carry,
            Condition::BelowOrEqual => f.carry || f.zero,
            Condition::NotBelowOrEqual => !f.carry && !f.zero,
            Condition::Less => f.sign != f.overflow,
            Condition::LessOrEqual => f.zero || f.sign != f.overflow,
            Condition::NotLess => f.sign == f.overflow,
            Condition::NotLessOrEqual => !f.zero && f.sign == f.overflow,
            Condition::Sign => f.sign,
            Condition::NotSign => !f.sign,
            Condition::Overflow => f.overflow,
            Condition::NotOverflow => !f.overflow,
            Condition::Parity => f.parity,
            Condition::NotParity => !f.parity,
        };
        if taken {
            self.jmp(dest)
        } else {
            Ok(())
        }
    }

    /// LOOP, LOOPZ, LOOPNZ.
    pub fn loop_step(&mut self, kind: LoopKind, dest: Operand) -> (res: Result<
        (),
        OpcodeExecErrors,
    >)
        requires
            old(self).wf(),
        ensures
            final(self).wf(),
            kept(old(self)@, final(self)@),
            semantics::loop_step(old(self)@, kind, dest).is(final(self)@, res),
    {
        let cx = wrap_word(self.regs.get(Register::CX) as u32 + 0x10000 - 1);
        let zero = self.flags.zero;
        let target = i16_to_word(self.read_value(&dest));
        self.regs.set(Register::CX, cx);
        let again = cx != 0 && match kind {
            LoopKind::Always => true,
            LoopKind::WhileZero => zero,
            LoopKind::WhileNotZero => !zero,
        };
        if again {
            self.ip = target;
        }
        Ok(())
    }

    /// JCXZ: a jump where `CX` is zero.
    pub fn jcxz(&mut self, dest: Operand) -> (res: Result<(), OpcodeExecErrors>)
        requires
            old(self).wf(),
        ensures
            final(self).wf(),
            kept(old(self)@, final(self)@),
            semantics::jump_if_cx_zero(old(self)@, dest).is(final(self)@, res),
    {
        if self.regs.get(Register::CX) == 0 {
            self.jmp(dest)
        } else {
            Ok(())
        }
    }

    /// LEA: the register `dest` takes the address of the memory operand
    /// `src`.
    pub fn lea(&mut self, dest: Operand, src: Operand) -> (res: Result<(), OpcodeExecErrors>)
        requires
            old(self).wf(),
        ensures
            final(self).wf(),
            kept(old(self)@, final(self)@),
            semantics::lea(old(self)@, dest, src).is(final(self)@, res),
    {
        match (dest, src) {
            (Operand::Register(r), Operand::MemoryAddress(a)) => {
                let ea = self.effective_address(&a);
                self.note(ea);
                self.regs.set(r, ea);
                Ok(())
            },
            _ => Err(OpcodeExecErrors::InvalidOperand),
        }
    }

    /// XCHG: `dest` and `src` change places.
    pub fn xchg(&mut self, dest: Operand, src: Operand) -> (res: Result<(), OpcodeExecErrors>)
        requires
            old(self).wf(),
        ensures
            final(self).wf(),
            kept(old(self)@, final(self)@),
            semantics::exchange(old(self)@, dest, src).is(final(self)@, res),
    {
        if !is_writable(&dest) || !is_writable(&src) {
            return Err(OpcodeExecErrors::InvalidOperand);
        }
        let a = self.peek(&dest);
        let b = self.peek(&src);
        self.trace_read(&dest);
        self.trace_read(&src);
        let _ = self.write_value(&dest, i16_to_word(b));
        let _ = self.write_value(&src, i16_to_word(a));
        Ok(())
    }

    /// IN: `dest` takes the value that every port reads as.
    pub fn in_(&mut self, dest: Operand, src: Operand) -> (res: Result<(), OpcodeExecErrors>)
        requires
            old(self).wf(),
        ensures
            final(self).wf(),
            kept(old(self)@, final(self)@),
            semantics::input(old(self)@, dest, src).is(final(self)@, res),
    {
        if !is_writable(&dest) {
            return Err(OpcodeExecErrors::InvalidOperand);
        }
        let _ = self.read_value(&src);
        self.write_value(&dest, semantics::PORT_VALUE)
    }

    /// CMC: the carry flag turns over.
    pub fn cmc(&mut self) -> (res: Result<(), OpcodeExecErrors>)
        requires
            old(self).wf(),
        ensures
            final(self).wf(),
            kept(old(self)@, final(self)@),
            semantics::complement_carry(old(self)@).is(final(self)@, res),
    {
        let carry = self.flags.carry;
        self.flags.set(Flag::Carry, !carry);
        Ok(())
    }

    /// ADC: `dest` becomes `dest + src` plus the carry flag.
    pub fn adc(&mut self, dest: Operand, src: Operand) -> (res: Result<(), OpcodeExecErrors>)
        requires
            old(self).wf(),
        ensures
            final(self).wf(),
            kept(old(self)@, final(self)@),
            semantics::arith(old(self)@, Arith::Adc, dest, src).is(final(self)@, res),
    {
        self.arith(Arith::Adc, dest, src)
    }

    /// SUB: `dest` becomes `dest - src`.
    pub fn sub(&mut self, dest: Operand, src: Operand) -> (res: Result<(), OpcodeExecErrors>)
        requires
            old(self).wf(),
        ensures
            final(self).wf(),
            kept(old(self)@, final(self)@),
            semantics::arith(old(self)@, Arith::Sub, dest, src).is(final(self)@, res),
    {
        self.arith(Arith::Sub, dest, src)
    }

    /// SBB: `dest` becomes `dest - src` minus the carry flag.
    pub fn sbb(&mut self, dest: Operand, src: Operand) -> (res: Result<(), OpcodeExecErrors>)
        requires
            old(self).wf(),
        ensures
            final(self).wf(),
            kept(old(self)@, final(self)@),
            semantics::arith(old(self)@, Arith::Sbb, dest, src).is(final(self)@, res),
    {
        self.arith(Arith::Sbb, dest, src)
    }

    /// AND: `dest` becomes the bitwise and of `dest` and `src`.
    pub fn and(&mut self, dest: Operand, src: Operand) -> (res: Result<(), OpcodeExecErrors>)
        requires
            old(self).wf(),
        ensures
            final(self).wf(),
            kept(old(self)@, final(self)@),
            semantics::arith(old(self)@, Arith::And, dest, src).is(final(self)@, res),
    {
        self.arith(Arith::And, dest, src)
    }

    /// OR: `dest` becomes the bitwise or of `dest` and `src`.
    pub fn or(&mut self, dest: Operand, src: Operand) -> (res: Result<(), OpcodeExecErrors>)
        requires
            old(self).wf(),
        ensures
            final(self).wf(),
            kept(old(self)@, final(self)@),
            semantics::arith(old(self)@, Arith::Or, dest, src).is(final(self)@, res),
    {
        self.arith(Arith::Or, dest, src)
    }

    /// XOR: `dest` becomes the bitwise exclusive or of `dest` and `src`.
    pub fn xor(&mut self, dest: Operand, src: Operand) -> (res: Result<(), OpcodeExecErrors>)
        requires
            old(self).wf(),
        ensures
            final(self).wf(),
            kept(old(self)@, final(self)@),
            semantics::arith(old(self)@, Arith::Xor, dest, src).is(final(self)@, res),
    {
        self.arith(Arith::Xor, dest, src)
    }

    /// INC: `dest` goes up by one.
    pub fn inc(&mut self, dest: Operand) -> (res: Result<(), OpcodeExecErrors>)
        requires
            old(self).wf(),
        ensures
            final(self).wf(),
            kept(old(self)@, final(self)@),
            semantics::unary(old(self)@, Unary::Inc, dest).is(final(self)@, res),
    {
        self.unary(Unary::Inc, dest)
    }

    /// DEC: `dest` goes down by one.
    pub fn dec(&mut self, dest: Operand) -> (res: Result<(), OpcodeExecErrors>)
        requires
            old(self).wf(),
        ensures
            final(self).wf(),
            kept(old(self)@, final(self)@),
            semantics::unary(old(self)@, Unary::Dec, dest).is(final(self)@, res),
    {
        self.unary(Unary::Dec, dest)
    }

    /// NEG: `dest` becomes its negative.
    pub fn neg(&mut self, dest: Operand) -> (res: Result<(), OpcodeExecErrors>)
        requires
            old(self).wf(),
        ensures
            final(self).wf(),
            kept(old(self)@, final(self)@),
            semantics::unary(old(self)@, Unary::Neg, dest).is(final(self)@, res),
    {
        self.unary(Unary::Neg, dest)
    }

    /// NOT: every bit of `dest` turns over.
    pub fn not(&mut self, dest: Operand) -> (res: Result<(), OpcodeExecErrors>)
        requires
            old(self).wf(),
        ensures
            final(self).wf(),
            kept(old(self)@, final(self)@),
            semantics::unary(old(self)@, Unary::Not, dest).is(final(self)@, res),
    {
        self.unary(Unary::Not, dest)
    }

    /// SHL: `dest` moves left by `src` bits.
    pub fn shl(&mut self, dest: Operand, src: Operand) -> (res: Result<(), OpcodeExecErrors>)
        requires
            old(self).wf(),
        ensures
            final(self).wf(),
            kept(old(self)@, final(self)@),
            semantics::shift(old(self)@, Shift::Shl, dest, src).is(final(self)@, res),
    {
        self.shift(Shift::Shl, dest, src)
    }

    /// SHR: `dest` moves right by `src` bits; zeros come in.
    pub fn shr(&mut self, dest: Operand, src: Operand) -> (res: Result<(), OpcodeExecErrors>)
        requires
            old(self).wf(),
        ensures
            final(self).wf(),
            kept(old(self)@, final(self)@),
            semantics::shift(old(self)@, Shift::Shr, dest, src).is(final(self)@, res),
    {
        self.shift(Shift::Shr, dest, src)
    }

    /// SAR: `dest` moves right by `src` bits; the sign comes in.
    pub fn sar(&mut self, dest: Operand, src: Operand) -> (res: Result<(), OpcodeExecErrors>)
        requires
            old(self).wf(),
        ensures
            final(self).wf(),
            kept(old(self)@, final(self)@),
            semantics::shift(old(self)@, Shift::Sar, dest, src).is(final(self)@, res),
    {
        self.shift(Shift::Sar, dest, src)
    }

    /// ROL: `dest` turns left by `src` bits.
    pub fn rol(&mut self, dest: Operand, src: Operand) -> (res: Result<(), OpcodeExecErrors>)
        requires
            old(self).wf(),
        ensures
            final(self).wf(),
            kept(old(self)@, final(self)@),
            semantics::rotate(old(self)@, Rotate::Rol, dest, src).is(final(self)@, res),
    {
        self.rotate(Rotate::Rol, dest, src)
    }

    /// ROR: `dest` turns right by `src` bits.
    pub fn ror(&mut self, dest: Operand, src: Operand) -> (res: Result<(), OpcodeExecErrors>)
        requires
            old(self).wf(),
        ensures
            final(self).wf(),
            kept(old(self)@, final(self)@),
            semantics::rotate(old(self)@, Rotate::Ror, dest, src).is(final(self)@, res),
    {
        self.rotate(Rotate::Ror, dest, src)
    }

    /// RCL: `dest` and the carry flag turn left by `src` bits.
    pub fn rcl(&mut self, dest: Operand, src: Operand) -> (res: Result<(), OpcodeExecErrors>)
        requires
            old(self).wf(),
        ensures
            final(self).wf(),
            kept(old(self)@, final(self)@),
            semantics::rotate(old(self)@, Rotate::Rcl, dest, src).is(final(self)@, res),
    {
        self.rotate(Rotate::Rcl, dest, src)
    }

    /// RCR: `dest` and the carry flag turn right by `src` bits.
    pub fn rcr(&mut self, dest: Operand, src: Operand) -> (res: Result<(), OpcodeExecErrors>)
        requires
            old(self).wf(),
        ensures
            final(self).wf(),
            kept(old(self)@, final(self)@),
            semantics::rotate(old(self)@, Rotate::Rcr, dest, src).is(final(self)@, res),
    {
        self.rotate(Rotate::Rcr, dest, src)
    }

    /// MUL: the product without sign of the accumulator and `dest`.
    pub fn mul(&mut self, dest: Operand) -> (res: Result<(), OpcodeExecErrors>)
        requires
            old(self).wf(),
        ensures
            final(self).wf(),
            kept(old(self)@, final(self)@),
            semantics::multiply(old(self)@, dest, false).is(final(self)@, res),
    {
        self.multiply(dest, false)
    }

    /// IMUL: the product with sign of the accumulator and `dest`.
    pub fn imul(&mut self, dest: Operand) -> (res: Result<(), OpcodeExecErrors>)
        requires
            old(self).wf(),
        ensures
            final(self).wf(),
            kept(old(self)@, final(self)@),
            semantics::multiply(old(self)@, dest, true).is(final(self)@, res),
    {
        self.multiply(dest, true)
    }

    /// JE: a jump where the zero flag is set.
    pub fn je(&mut self, dest: Operand) -> (res: Result<(), OpcodeExecErrors>)
        requires
            old(self).wf(),
        ensures
            final(self).wf(),
            kept(old(self)@, final(self)@),
            semantics::jump_if(old(self)@, Condition::Equal, dest).is(final(self)@, res),
    {
        self.jump_if(Condition::Equal, dest)
    }

    /// JNE: a jump where the zero flag is clear.
    pub fn jne(&mut self, dest: Operand) -> (res: Result<(), OpcodeExecErrors>)
        requires
            old(self).wf(),
        ensures
            final(self).wf(),
            kept(old(self)@, final(self)@),
            semantics::jump_if(old(self)@, Condition::NotEqual, dest).is(final(self)@, res),
    {
        self.jump_if(Condition::NotEqual, dest)
    }

    /// JB: a jump where the carry flag is set.
    pub fn jb(&mut self, dest: Operand) -> (res: Result<(), OpcodeExecErrors>)
        requires
            old(self).wf(),
        ensures
            final(self).wf(),
            kept(old(self)@, final(self)@),
            semantics::jump_if(old(self)@, Condition::Below, dest).is(final(self)@, res),
    {
        self.jump_if(Condition::Below, dest)
    }

    /// JNB: a jump where the carry flag is clear.
    pub fn jnb(&mut self, dest: Operand) -> (res: Result<(), OpcodeExecErrors>)
        requires
            old(self).wf(),
        ensures
            final(self).wf(),
            kept(old(self)@, final(self)@),
            semantics::jump_if(old(self)@, Condition::NotBelow, dest).is(final(self)@, res),
    {
        self.jump_if(Condition::NotBelow, dest)
    }

    /// JBE: a jump where the carry flag or the zero flag is set.
    pub fn jbe(&mut self, dest: Operand) -> (res: Result<(), OpcodeExecErrors>)
        requires
            old(self).wf(),
        ensures
            final(self).wf(),
            kept(old(self)@, final(self)@),
            semantics::jump_if(old(self)@, Condition::BelowOrEqual, dest).is(final(self)@, res),
    {
        self.jump_if(Condition::BelowOrEqual, dest)
    }

    /// JNBE: a jump where the carry flag and the zero flag are clear.
    pub fn jnbe(&mut self, dest: Operand) -> (res: Result<(), OpcodeExecErrors>)
        requires
            old(self).wf(),
        ensures
            final(self).wf(),
            kept(old(self)@, final(self)@),
            semantics::jump_if(old(self)@, Condition::NotBelowOrEqual, dest).is(final(self)@, res),
    {
        self.jump_if(Condition::NotBelowOrEqual, dest)
    }

    /// JL: a jump where the sign flag differs from the overflow flag.
    pub fn jl(&mut self, dest: Operand) -> (res: Result<(), OpcodeExecErrors>)
        requires
            old(self).wf(),
        ensures
            final(self).wf(),
            kept(old(self)@, final(self)@),
            semantics::jump_if(old(self)@, Condition::Less, dest).is(final(self)@, res),
    {
        self.jump_if(Condition::Less, dest)
    }

    /// JLE: a jump where the zero flag is set or the sign flag differs from the overflow flag.
    pub fn jle(&mut self, dest: Operand) -> (res: Result<(), OpcodeExecErrors>)
        requires
            old(self).wf(),
        ensures
            final(self).wf(),
            kept(old(self)@, final(self)@),
            semantics::jump_if(old(self)@, Condition::LessOrEqual, dest).is(final(self)@, res),
    {
        self.jump_if(Condition::LessOrEqual, dest)
    }

    /// JNL: a jump where the sign flag equals the overflow flag.
    pub fn jnl(&mut self, dest: Operand) -> (res: Result<(), OpcodeExecErrors>)
        requires
            old(self).wf(),
        ensures
            final(self).wf(),
            kept(old(self)@, final(self)@),
            semantics::jump_if(old(self)@, Condition::NotLess, dest).is(final(self)@, res),
    {
        self.jump_if(Condition::NotLess, dest)
    }

    /// JNLE: a jump where the zero flag is clear and the sign flag equals the overflow flag.
    pub fn jnle(&mut self, dest: Operand) -> (res: Result<(), OpcodeExecErrors>)
        requires
            old(self).wf(),
        ensures
            final(self).wf(),
            kept(old(self)@, final(self)@),
            semantics::jump_if(old(self)@, Condition::NotLessOrEqual, dest).is(final(self)@, res),
    {
        self.jump_if(Condition::NotLessOrEqual, dest)
    }

    /// JS: a jump where the sign flag is set.
    pub fn js(&mut self, dest: Operand) -> (res: Result<(), OpcodeExecErrors>)
        requires
            old(self).wf(),
        ensures
            final(self).wf(),
            kept(old(self)@, final(self)@),
            semantics::jump_if(old(self)@, Condition::Sign, dest).is(final(self)@, res),
    {
        self.jump_if(Condition::Sign, dest)
    }

    /// JNS: a jump where the sign flag is clear.
    pub fn jns(&mut self, dest: Operand) -> (res: Result<(), OpcodeExecErrors>)
        requires
            old(self).wf(),
        ensures
            final(self).wf(),
            kept(old(self)@, final(self)@),
            semantics::jump_if(old(self)@, Condition::NotSign, dest).is(final(self)@, res),
    {
        self.jump_if(Condition::NotSign, dest)
    }

    /// JO: a jump where the overflow flag is set.
    pub fn jo(&mut self, dest: Operand) -> (res: Result<(), OpcodeExecErrors>)
        requires
            old(self).wf(),
        ensures
            final(self).wf(),
            kept(old(self)@, final(self)@),
            semantics::jump_if(old(self)@, Condition::Overflow, dest).is(final(self)@, res),
    {
        self.jump_if(Condition::Overflow, dest)
    }

    /// JNO: a jump where the overflow flag is clear.
    pub fn jno(&mut self, dest: Operand) -> (res: Result<(), OpcodeExecErrors>)
        requires
            old(self).wf(),
        ensures
            final(self).wf(),
            kept(old(self)@, final(self)@),
            semantics::jump_if(old(self)@, Condition::NotOverflow, dest).is(final(self)@, res),
    {
        self.jump_if(Condition::NotOverflow, dest)
    }

    /// JP: a jump where the parity flag is set.
    pub fn jp(&mut self, dest: Operand) -> (res: Result<(), OpcodeExecErrors>)
        requires
            old(self).wf(),
        ensures
            final(self).wf(),
            kept(old(self)@, final(self)@),
            semantics::jump_if(old(self)@, Condition::Parity, dest).is(final(self)@, res),
    {
        self.jump_if(Condition::Parity, dest)
    }

    /// JNP: a jump where the parity flag is clear.
    pub fn jnp(&mut self, dest: Operand) -> (res: Result<(), OpcodeExecErrors>)
        requires
            old(self).wf(),
        ensures
            final(self).wf(),
            kept(old(self)@, final(self)@),
            semantics::jump_if(old(self)@, Condition::NotParity, dest).is(final(self)@, res),
    {
        self.jump_if(Condition::NotParity, dest)
    }

    /// LOOP: `CX` goes down by one; a jump unless it is now zero.
    pub fn loop_(&mut self, dest: Operand) -> (res: Result<(), OpcodeExecErrors>)
        requires
            old(self).wf(),
        ensures
            final(self).wf(),
            kept(old(self)@, final(self)@),
            semantics::loop_step(old(self)@, LoopKind::Always, dest).is(final(self)@, res),
    {
        self.loop_step(LoopKind::Always, dest)
    }

    /// LOOPZ: `CX` goes down by one; a jump unless it is now zero or the zero flag is clear.
    pub fn loopz(&mut self, dest: Operand) -> (res: Result<(), OpcodeExecErrors>)
        requires
            old(self).wf(),
        ensures
            final(self).wf(),
            kept(old(self)@, final(self)@),
            semantics::loop_step(old(self)@, LoopKind::WhileZero, dest).is(final(self)@, res),
    {
        self.loop_step(LoopKind::WhileZero, dest)
    }

    /// LOOPNZ: `CX` goes down by one; a jump unless it is now zero or the zero flag is set.
    pub fn loopnz(&mut self, dest: Operand) -> (res: Result<(), OpcodeExecErrors>)
        requires
            old(self).wf(),
        ensures
            final(self).wf(),
            kept(old(self)@, final(self)@),
            semantics::loop_step(old(self)@, LoopKind::WhileNotZero, dest).is(final(self)@, res),
    {
        self.loop_step(LoopKind::WhileNotZero, dest)
    }

    /// CLC: the carry flag is cleared.
    pub fn clc(&mut self) -> (res: Result<(), OpcodeExecErrors>)
        requires
            old(self).wf(),
        ensures
            final(self).wf(),
            kept(old(self)@, final(self)@),
            semantics::set_flag(old(self)@, Flag::Carry, false).is(final(self)@, res),
    {
        self.flags.set(Flag::Carry, false);
        Ok(())
    }

    /// STC: the carry flag is set.
    pub fn stc(&mut self) -> (res: Result<(), OpcodeExecErrors>)
        requires
            old(self).wf(),
        ensures
            final(self).wf(),
            kept(old(self)@, final(self)@),
            semantics::set_flag(old(self)@, Flag::Carry, true).is(final(self)@, res),
    {
        self.flags.set(Flag::Carry, true);
        Ok(())
    }

    /// CLD: the direction flag is cleared.
    pub fn cld(&mut self) -> (res: Result<(), OpcodeExecErrors>)
        requires
            old(self).wf(),
        ensures
            final(self).wf(),
            kept(old(self)@, final(self)@),
            semantics::set_flag(old(self)@, Flag::Direction, false).is(final(self)@, res),
    {
        self.flags.set(Flag::Direction, false);
        Ok(())
    }

    /// STD: the direction flag is set.
    pub fn std_(&mut self) -> (res: Result<(), OpcodeExecErrors>)
        requires
            old(self).wf(),
        ensures
            final(self).wf(),
            kept(old(self)@, final(self)@),
            semantics::set_flag(old(self)@, Flag::Direction, true).is(final(self)@, res),
    {
        self.flags.set(Flag::Direction, true);
        Ok(())
    }

    /// CLI: the interrupt flag is cleared.
    pub fn cli(&mut self) -> (res: Result<(), OpcodeExecErrors>)
        requires
            old(self).wf(),
        ensures
            final(self).wf(),
            kept(old(self)@, final(self)@),
            semantics::set_flag(old(self)@, Flag::Interrupt, false).is(final(self)@, res),
    {
        self.flags.set(Flag::Interrupt, false);
        Ok(())
    }

    /// STI: the interrupt flag is set.
    pub fn sti(&mut self) -> (res: Result<(), OpcodeExecErrors>)
        requires
            old(self).wf(),
        ensures
            final(self).wf(),
            kept(old(self)@, final(self)@),
            semantics::set_flag(old(self)@, Flag::Interrupt, true).is(final(self)@, res),
    {
        self.flags.set(Flag::Interrupt, true);
        Ok(())
    }
}

} // verus!
