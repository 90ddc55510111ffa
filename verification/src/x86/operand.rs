//! Instruction operands.

use vstd::prelude::*;
use vstd::string::*;
use crate::text::{hex_digits, hex_padded, push_hex, push_hex_digits};
use crate::word::{i8_to_byte, u8_of, u16_of};
use crate::x86::address::Address;
use crate::x86::displacement::Displacement;
use crate::x86::register::Register;

verus! {

/// What an instruction works on: a register, an immediate, a memory
/// operand, or the target of a branch as an absolute code offset.
#[derive(Debug, Copy, Clone, PartialEq, Eq)]
pub enum Operand {
    Register(Register),
    Immediate(u8),
    LongImmediate(u16),
    SignExtendedImmediate(i8),
    MemoryAddress(Address),
    Displacement(Displacement),
}

impl Operand {
    /// The text of the operand.
    ///
    /// A byte immediate has no padding, a word immediate four digits, a
    /// sign-extended immediate a minus sign when negative. A branch target
    /// is the bit pattern of the offset: four digits for a word, two for a
    /// byte.
    pub open spec fn text(self) -> Seq<char> {
        match self {
            Operand::Register(r) => r.name(),
            Operand::Immediate(i) => hex_digits(i as nat),
            Operand::LongImmediate(i) => hex_padded(i as nat, 4),
            Operand::SignExtendedImmediate(i) => if i < 0 {
                "-"@ + hex_digits((-i) as nat)
            } else {
                hex_digits(i as nat)
            },
            Operand::MemoryAddress(a) => a.text(),
            Operand::Displacement(Displacement::Short(d)) => hex_padded(u8_of(d as int) as nat, 2),
            Operand::Displacement(Displacement::Long(d)) => hex_padded(u16_of(d as int) as nat, 4),
        }
    }

    /// Whether a width annotation in front of this operand would say
    /// something: the operand is not a byte register.
    pub open spec fn takes_width(self) -> bool {
        match self {
            Operand::Register(r) => r.spec_is_word(),
            _ => true,
        }
    }

    /// Appends the text of the operand.
    pub fn push_text(&self, out: &mut String)
        ensures
            final(out)@ == old(out)@ + self.text(),
    {
        match self {
            Operand::Register(r) => {
                out.append(r.to_string().as_str());
            },
            Operand::Immediate(i) => {
                push_hex_digits(out, *i as u64);
            },
            Operand::LongImmediate(i) => {
                push_hex(out, *i as u64, 4);
            },
            Operand::SignExtendedImmediate(i) => {
                let v: i16 = *i as i16;
                if v < 0 {
                    out.append("-");
                    push_hex_digits(out, (-v) as u64);
                    assert(out@ =~= old(out)@ + self.text());
                } else {
                    push_hex_digits(out, v as u64);
                }
            },
            Operand::MemoryAddress(a) => {
                a.push_text(out);
            },
            Operand::Displacement(d) => {
                match d {
                    Displacement::Short(d) => {
                        push_hex(out, i8_to_byte(*d) as u64, 2);
                    },
                    Displacement::Long(_) => {
                        push_hex(out, d.to_u16() as u64, 4);
                    },
                }
            },
        }
    }

    /// The text of the operand.
    pub fn to_string(&self) -> (s: String)
        ensures
            s@ == self.text(),
    {
        let mut s = String::new();
        self.push_text(&mut s);
        assert(s@ =~= self.text());
        s
    }
}

} // verus!
