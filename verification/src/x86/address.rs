//! Memory operands: base, index and displacement.

use vstd::prelude::*;
use vstd::string::*;
use crate::text::{hex_padded, push_hex};
use crate::word::{byte_to_i8, word_to_i16, u16_of, i8_of, i16_of};
use crate::x86::displacement::Displacement;
use crate::x86::register::Register;

verus! {

/// A memory operand: the sum of an optional base register, an optional
/// index register and an optional displacement.
#[derive(Debug, Copy, Clone, PartialEq, Eq)]
pub struct Address {
    pub base: Option<Register>,
    pub index: Option<Register>,
    pub disp: Option<Displacement>,
}

/// A memory operand, by its other name.
pub type Memory = Address;

impl Address {
    /// Whether the operand is one that a ModR/M byte can select: the base
    /// is `BX` or `BP` or absent, the index `SI` or `DI` or absent.
    pub open spec fn wf(self) -> bool {
        &&& self.base matches Some(b) ==> b == Register::BX || b == Register::BP
        &&& self.index matches Some(i) ==> i == Register::SI || i == Register::DI
    }

    /// The text of the displacement inside brackets that also hold a
    /// register: its magnitude after a plus or a minus sign.
    pub open spec fn disp_text(self) -> Seq<char> {
        match self.disp {
            Some(d) => if d.value() < 0 {
                d.text()
            } else {
                "+"@ + d.text()
            },
            None => Seq::empty(),
        }
    }

    /// The text of the registers: the base, the index, or both with a plus
    /// sign between them.
    pub open spec fn regs_text(self) -> Seq<char> {
        match (self.base, self.index) {
            (Some(b), Some(i)) => b.name() + "+"@ + i.name(),
            (Some(b), None) => b.name(),
            (None, Some(i)) => i.name(),
            (None, None) => Seq::empty(),
        }
    }

    /// The text of the operand. A displacement alone is a direct address,
    /// written as four hexadecimal digits; otherwise the registers are
    /// followed by the signed displacement.
    pub open spec fn text(self) -> Seq<char> {
        if self.base is None && self.index is None && self.disp is Some {
            "["@ + hex_padded(u16_of(self.disp->0.value()) as nat, 4) + "]"@
        } else {
            "["@ + self.regs_text() + self.disp_text() + "]"@
        }
    }

    /// An operand with the given parts.
    pub fn new(base: Option<Register>, index: Option<Register>, disp: Option<Displacement>) -> (a:
        Address)
        ensures
            a.base == base,
            a.index == index,
            a.disp == disp,
    {
        Address { base, index, disp }
    }

    /// The direct address given by one byte, read as signed.
    pub fn from_imm(imm: u8) -> (a: Address)
        ensures
            a.base is None,
            a.index is None,
            a.disp == Some(Displacement::Short(i8_of(imm as int))),
    {
        Address { base: None, index: None, disp: Some(Displacement::Short(byte_to_i8(imm))) }
    }

    /// The direct address given by one word, read as signed.
    pub fn from_word_imm(imm: u16) -> (a: Address)
        ensures
            a.base is None,
            a.index is None,
            a.disp == Some(Displacement::Long(i16_of(imm as int))),
    {
        Address { base: None, index: None, disp: Some(Displacement::Long(word_to_i16(imm))) }
    }

    /// Appends the text of the operand.
    pub fn push_text(&self, out: &mut String)
        ensures
            final(out)@ == old(out)@ + self.text(),
    {
        out.append("[");
        if self.base.is_none() && self.index.is_none() && self.disp.is_some() {
            let d = self.disp.unwrap();
            push_hex(out, d.to_u16() as u64, 4);
        } else {
            let ghost before = out@;
            match self.base {
                Some(b) => {
                    out.append(b.to_string().as_str());
                    match self.index {
                        Some(i) => {
                            out.append("+");
                            out.append(i.to_string().as_str());
                        },
                        None => {},
                    }
                },
                None => {
                    match self.index {
                        Some(i) => {
                            out.append(i.to_string().as_str());
                        },
                        None => {},
                    }
                },
            }
            assert(out@ =~= before + self.regs_text());
            match self.disp {
                Some(d) => {
                    if !d.is_neg() {
                        out.append("+");
                    }
                    d.push_text(out);
                },
                None => {},
            }
            assert(out@ =~= before + self.regs_text() + self.disp_text());
        }
        out.append("]");
        assert(out@ =~= old(out)@ + self.text());
    }

    /// The text of the operand.
    pub fn to_string(&self) -> (s: String)
        ensures
            s@ == self.text(),
    {
        let mut s = String::new();
        self.push_text(&mut s);
        assert(s@ =~= self.text());
        s
    }
}

} // verus!
