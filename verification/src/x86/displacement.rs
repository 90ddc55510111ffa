//! Signed displacements of one or two bytes.

use vstd::prelude::*;
use vstd::string::*;
use crate::text::{hex_digits, push_hex_digits};
use crate::word::{i16_to_word, u16_of};

verus! {

/// A signed offset, as it was encoded: in one byte or in two.
#[derive(Debug, Copy, Clone, PartialEq, Eq)]
pub enum Displacement {
    Short(i8),
    Long(i16),
}

impl Displacement {
    /// The offset as an integer. Both widths count alike in an address.
    pub open spec fn value(self) -> int {
        match self {
            Displacement::Short(d) => d as int,
            Displacement::Long(d) => d as int,
        }
    }

    /// The offset as text: its magnitude in hexadecimal, after a minus
    /// sign when it is negative.
    pub open spec fn text(self) -> Seq<char> {
        if self.value() < 0 {
            "-"@ + hex_digits((-self.value()) as nat)
        } else {
            hex_digits(self.value() as nat)
        }
    }

    /// Whether the offset is below zero.
    pub fn is_neg(&self) -> (b: bool)
        ensures
            b == (self.value() < 0),
    {
        match self {
            Displacement::Short(d) => *d < 0,
            Displacement::Long(d) => *d < 0,
        }
    }

    /// The offset sign-extended to a word.
    pub fn to_i16(&self) -> (v: i16)
        ensures
            v as int == self.value(),
    {
        match self {
            Displacement::Short(d) => *d as i16,
            Displacement::Long(d) => *d,
        }
    }

    /// The bit pattern of the sign-extended offset.
    pub fn to_u16(&self) -> (v: u16)
        ensures
            v == u16_of(self.value()),
    {
        i16_to_word(self.to_i16())
    }

    /// The magnitude of the offset.
    pub fn magnitude(&self) -> (m: u16)
        ensures
            m as int == if self.value() < 0 { -self.value() } else { self.value() },
    {
        let v: i32 = self.to_i16() as i32;
        if v < 0 {
            (-v) as u16
        } else {
            v as u16
        }
    }

    /// Appends the signed hexadecimal text of the offset.
    pub fn push_text(&self, out: &mut String)
        ensures
            final(out)@ == old(out)@ + self.text(),
    {
        if self.is_neg() {
            out.append("-");
        }
        push_hex_digits(out, self.magnitude() as u64);
        assert(out@ =~= old(out)@ + self.text());
    }

    /// The signed hexadecimal text of the offset.
    pub fn to_string(&self) -> (s: String)
        ensures
            s@ == self.text(),
    {
        let mut s = String::new();
        self.push_text(&mut s);
        assert(s@ =~= self.text());
        s
    }
}

} // verus!
