//! The register file: eight words, four of them with named halves.

use vstd::prelude::*;
use vstd::string::*;
use crate::text::{hex_digits, push_hex_digits};
use crate::x86::register::Register;

verus! {

/// The eight word registers. A byte register is one half of `ax`, `cx`,
/// `dx` or `bx` and has no storage of its own.
#[derive(Debug, Copy, Clone, PartialEq, Eq)]
pub struct RegisterSet {
    pub ax: u16,
    pub cx: u16,
    pub dx: u16,
    pub bx: u16,
    pub sp: u16,
    pub bp: u16,
    pub si: u16,
    pub di: u16,
}

impl RegisterSet {
    /// The word in a word register.
    pub open spec fn word(self, reg: Register) -> u16 {
        match reg.spec_word() {
            Register::AX => self.ax,
            Register::CX => self.cx,
            Register::DX => self.dx,
            Register::BX => self.bx,
            Register::SP => self.sp,
            Register::BP => self.bp,
            Register::SI => self.si,
            _ => self.di,
        }
    }

    /// The registers with a word register replaced.
    pub open spec fn with_word(self, reg: Register, value: u16) -> RegisterSet {
        match reg.spec_word() {
            Register::AX => RegisterSet { ax: value, ..self },
            Register::CX => RegisterSet { cx: value, ..self },
            Register::DX => RegisterSet { dx: value, ..self },
            Register::BX => RegisterSet { bx: value, ..self },
            Register::SP => RegisterSet { sp: value, ..self },
            Register::BP => RegisterSet { bp: value, ..self },
            Register::SI => RegisterSet { si: value, ..self },
            _ => RegisterSet { di: value, ..self },
        }
    }

    /// The value of a register: the word of a word register; the low or
    /// the high byte of the enclosing word for a byte register.
    pub open spec fn spec_get(self, reg: Register) -> u16 {
        if reg.spec_is_word() {
            self.word(reg)
        } else if reg.spec_is_low() {
            self.word(reg) % 0x100
        } else {
            self.word(reg) / 0x100
        }
    }

    /// The registers after `value` is stored in a register. A word
    /// register takes the whole value. A byte register takes the low byte
    /// of the value; the other half of the enclosing word stays.
    pub open spec fn spec_set(self, reg: Register, value: u16) -> RegisterSet {
        if reg.spec_is_word() {
            self.with_word(reg, value)
        } else if reg.spec_is_low() {
            self.with_word(reg, ((self.word(reg) / 0x100) * 0x100 + value % 0x100) as u16)
        } else {
            self.with_word(reg, ((value % 0x100) * 0x100 + self.word(reg) % 0x100) as u16)
        }
    }

    /// All registers zero.
    pub open spec fn zeroed() -> RegisterSet {
        RegisterSet { ax: 0, cx: 0, dx: 0, bx: 0, sp: 0, bp: 0, si: 0, di: 0 }
    }

    /// One line of a dump of the registers: the name of the register, a
    /// colon and a space, its value in hexadecimal, and a line feed.
    pub open spec fn line(self, reg: Register) -> Seq<char> {
        reg.label() + ": "@ + hex_digits(self.spec_get(reg) as nat) + "\n"@
    }

    /// A dump of the registers: one line for each, the byte registers
    /// first.
    pub open spec fn text(self) -> Seq<char> {
        self.line(Register::AL)
            + self.line(Register::CL)
            + self.line(Register::DL)
            + self.line(Register::BL)
            + self.line(Register::AH)
            + self.line(Register::CH)
            + self.line(Register::DH)
            + self.line(Register::BH)
            + self.line(Register::AX)
            + self.line(Register::CX)
            + self.line(Register::DX)
            + self.line(Register::BX)
            + self.line(Register::SP)
            + self.line(Register::BP)
            + self.line(Register::SI)
            + self.line(Register::DI)
    }

    /// Appends one line of a dump of the registers.
    fn push_line(&self, out: &mut String, reg: Register)
        ensures
            final(out)@ == old(out)@ + self.line(reg),
    {
        out.append(reg.label_str());
        out.append(": ");
        push_hex_digits(out, self.get(reg) as u64);
        out.append("\n");
        assert(out@ =~= old(out)@ + self.line(reg));
    }

    /// Appends a dump of the registers.
    pub fn push_text(&self, out: &mut String)
        ensures
            final(out)@ == old(out)@ + self.text(),
    {
        self.push_line(out, Register::AL);
        self.push_line(out, Register::CL);
        self.push_line(out, Register::DL);
        self.push_line(out, Register::BL);
        self.push_line(out, Register::AH);
        self.push_line(out, Register::CH);
        self.push_line(out, Register::DH);
        self.push_line(out, Register::BH);
        self.push_line(out, Register::AX);
        self.push_line(out, Register::CX);
        self.push_line(out, Register::DX);
        self.push_line(out, Register::BX);
        self.push_line(out, Register::SP);
        self.push_line(out, Register::BP);
        self.push_line(out, Register::SI);
        self.push_line(out, Register::DI);
        assert(out@ =~= old(out)@ + self.text());
    }

    /// A dump of the registers.
    pub fn to_string(&self) -> (s: String)
        ensures
            s@ == self.text(),
    {
        let mut s = String::new();
        self.push_text(&mut s);
        assert(s@ =~= self.text());
        s
    }

    /// All registers zero.
    pub fn new() -> (regs: RegisterSet)
        ensures
            regs == RegisterSet::zeroed(),
    {
        RegisterSet { ax: 0, cx: 0, dx: 0, bx: 0, sp: 0, bp: 0, si: 0, di: 0 }
    }

    /// The word in the word register that holds `reg`.
    fn get_word(&self, reg: Register) -> (value: u16)
        ensures
            value == self.word(reg),
    {
        match reg.to_word_register() {
            Register::AX => self.ax,
            Register::CX => self.cx,
            Register::DX => self.dx,
            Register::BX => self.bx,
            Register::SP => self.sp,
            Register::BP => self.bp,
            Register::SI => self.si,
            _ => self.di,
        }
    }

    /// Replaces the word in the word register that holds `reg`.
    fn set_word(&mut self, reg: Register, value: u16)
        ensures
            *final(self) == old(self).with_word(reg, value),
    {
        match reg.to_word_register() {
            Register::AX => self.ax = value,
            Register::CX => self.cx = value,
            Register::DX => self.dx = value,
            Register::BX => self.bx = value,
            Register::SP => self.sp = value,
            Register::BP => self.bp = value,
            Register::SI => self.si = value,
            _ => self.di = value,
        }
    }

    /// The value of a register, byte or word.
    pub fn get(&self, reg: Register) -> (value: u16)
        ensures
            value == self.spec_get(reg),
            !reg.spec_is_word() ==> value < 0x100,
    {
        let word = self.get_word(reg);
        if reg.is_word_register() {
            word
        } else if reg.is_low_byte() {
            word % 0x100
        } else {
            word / 0x100
        }
    }

    /// Stores a value in a register, byte or word. A byte register takes
    /// the low byte of the value.
    pub fn set(&mut self, reg: Register, value: u16)
        ensures
            *final(self) == old(self).spec_set(reg, value),
    {
        let word = self.get_word(reg);
        if reg.is_word_register() {
            self.set_word(reg, value);
        } else if reg.is_low_byte() {
            self.set_word(reg, (word / 0x100) * 0x100 + value % 0x100);
        } else {
            self.set_word(reg, (value % 0x100) * 0x100 + word % 0x100);
        }
    }

    /// The word in a word register.
    pub fn get16(&self, reg: Register) -> (value: u16)
        requires
            reg.spec_is_word(),
        ensures
            value == self.spec_get(reg),
    {
        self.get(reg)
    }

    /// Stores a word in a word register.
    pub fn set16(&mut self, reg: Register, value: u16)
        requires
            reg.spec_is_word(),
        ensures
            *final(self) == old(self).spec_set(reg, value),
    {
        self.set(reg, value);
    }

    /// The byte in a byte register.
    pub fn get8(&self, reg: Register) -> (value: u8)
        requires
            !reg.spec_is_word(),
        ensures
            value == self.spec_get(reg),
    {
        self.get(reg) as u8
    }

    /// Stores a byte in a byte register.
    pub fn set8(&mut self, reg: Register, value: u8)
        requires
            !reg.spec_is_word(),
        ensures
            *final(self) == old(self).spec_set(reg, value as u16),
    {
        self.set(reg, value as u16);
    }
}

/// The halves of a word register alias the word: after a word is stored,
/// the low half reads as its low eight bits and the high half as its high
/// eight bits.
pub proof fn lemma_word_then_halves(regs: RegisterSet, word: Register, value: u16)
    requires
        word == Register::AX || word == Register::CX || word == Register::DX || word
            == Register::BX,
    ensures
        regs.spec_set(word, value).spec_get(Register::of_code(word.code() - 8)) == value & 0xFF,
        regs.spec_set(word, value).spec_get(Register::of_code(word.code() - 4)) == (value >> 8)
            & 0xFF,
{
    assert(value & 0xFF == value % 0x100) by (bit_vector);
    assert((value >> 8) & 0xFF == value / 0x100) by (bit_vector);
}

/// Storing a byte in the low half of a word register replaces the low
/// eight bits of the word and keeps the high eight.
pub proof fn lemma_low_half_then_word(regs: RegisterSet, low: Register, value: u8)
    requires
        low.spec_is_low(),
    ensures
        regs.spec_set(low, value as u16).spec_get(low.spec_word()) == (regs.spec_get(
            low.spec_word(),
        ) & 0xFF00) | (value as u16),
        regs.spec_set(low, value as u16).spec_get(low) == value,
        regs.spec_set(low, value as u16).spec_get(Register::of_code(low.code() + 4))
            == regs.spec_get(Register::of_code(low.code() + 4)),
{
    let prev = regs.spec_get(low.spec_word());
    let v = value as u16;
    assert((prev & 0xFF00) | v == (prev / 0x100) * 0x100 + v % 0x100) by (bit_vector)
        requires
            v < 0x100,
    ;
}

/// Storing a byte in the high half of a word register replaces the high
/// eight bits of the word and keeps the low eight.
pub proof fn lemma_high_half_then_word(regs: RegisterSet, high: Register, value: u8)
    requires
        high.spec_is_high(),
    ensures
        regs.spec_set(high, value as u16).spec_get(high.spec_word()) == (regs.spec_get(
            high.spec_word(),
        ) & 0x00FF) | ((value as u16) << 8),
        regs.spec_set(high, value as u16).spec_get(high) == value,
        regs.spec_set(high, value as u16).spec_get(Register::of_code(high.code() - 4))
            == regs.spec_get(Register::of_code(high.code() - 4)),
{
    let prev = regs.spec_get(high.spec_word());
    let v = value as u16;
    assert((prev & 0x00FF) | (v << 8) == (v % 0x100) * 0x100 + prev % 0x100) by (bit_vector)
        requires
            v < 0x100,
    ;
}

/// Storing in one word register leaves every other word register.
pub proof fn lemma_set_leaves_others(regs: RegisterSet, reg: Register, other: Register, value: u16)
    requires
        reg.spec_word() != other.spec_word(),
    ensures
        regs.spec_set(reg, value).spec_get(other) == regs.spec_get(other),
{
}

} // verus!
