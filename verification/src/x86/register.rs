//! The sixteen register names of the 8086.

use vstd::prelude::*;
use vstd::string::*;

verus! {

/// A register name: a byte register (the low or high half of `AX`, `CX`,
/// `DX` or `BX`) or a word register.
#[derive(Debug, Copy, Clone, PartialEq, Eq, Hash, Structural)]
pub enum Register {
    AL,
    CL,
    DL,
    BL,
    AH,
    CH,
    DH,
    BH,
    AX,
    CX,
    DX,
    BX,
    SP,
    BP,
    SI,
    DI,
}

impl Register {
    /// The four-bit code of the register: the width bit above the three
    /// bits that an instruction encodes. No two registers share a code.
    pub open spec fn code(self) -> int {
        match self {
            Register::AL => 0,
            Register::CL => 1,
            Register::DL => 2,
            Register::BL => 3,
            Register::AH => 4,
            Register::CH => 5,
            Register::DH => 6,
            Register::BH => 7,
            Register::AX => 8,
            Register::CX => 9,
            Register::DX => 10,
            Register::BX => 11,
            Register::SP => 12,
            Register::BP => 13,
            Register::SI => 14,
            Register::DI => 15,
        }
    }

    /// The register with the given four-bit code.
    pub open spec fn of_code(code: int) -> Register {
        if code == 0 { Register::AL }
        else if code == 1 { Register::CL }
        else if code == 2 { Register::DL }
        else if code == 3 { Register::BL }
        else if code == 4 { Register::AH }
        else if code == 5 { Register::CH }
        else if code == 6 { Register::DH }
        else if code == 7 { Register::BH }
        else if code == 8 { Register::AX }
        else if code == 9 { Register::CX }
        else if code == 10 { Register::DX }
        else if code == 11 { Register::BX }
        else if code == 12 { Register::SP }
        else if code == 13 { Register::BP }
        else if code == 14 { Register::SI }
        else { Register::DI }
    }

    /// The register that a three-bit field names at the given width.
    pub open spec fn spec_from(reg: u8, w: bool) -> Register {
        Register::of_code(reg + if w { 8int } else { 0int })
    }

    /// Whether the register is sixteen bits wide.
    pub open spec fn spec_is_word(self) -> bool {
        self.code() >= 8
    }

    /// Whether the register is the low byte of a word register.
    pub open spec fn spec_is_low(self) -> bool {
        self.code() < 4
    }

    /// Whether the register is the high byte of a word register.
    pub open spec fn spec_is_high(self) -> bool {
        4 <= self.code() < 8
    }

    /// The word register that holds this register: itself for a word
    /// register, the enclosing one for a byte register.
    pub open spec fn spec_word(self) -> Register {
        if self.code() >= 8 {
            self
        } else {
            Register::of_code(8 + self.code() % 4)
        }
    }

    /// The base register that the `r/m` field selects, if any.
    pub open spec fn spec_base(rm: u8) -> Option<Register> {
        if rm == 0 || rm == 1 || rm == 7 {
            Some(Register::BX)
        } else if rm == 2 || rm == 3 || rm == 6 {
            Some(Register::BP)
        } else {
            None
        }
    }

    /// The index register that the `r/m` field selects, if any.
    pub open spec fn spec_index(rm: u8) -> Option<Register> {
        if rm == 0 || rm == 2 || rm == 4 {
            Some(Register::SI)
        } else if rm == 1 || rm == 3 || rm == 5 {
            Some(Register::DI)
        } else {
            None
        }
    }

    /// The lowercase name of the register.
    pub open spec fn name(self) -> Seq<char> {
        match self {
            Register::AL => "al"@,
            Register::CL => "cl"@,
            Register::DL => "dl"@,
            Register::BL => "bl"@,
            Register::AH => "ah"@,
            Register::CH => "ch"@,
            Register::DH => "dh"@,
            Register::BH => "bh"@,
            Register::AX => "ax"@,
            Register::CX => "cx"@,
            Register::DX => "dx"@,
            Register::BX => "bx"@,
            Register::SP => "sp"@,
            Register::BP => "bp"@,
            Register::SI => "si"@,
            Register::DI => "di"@,
        }
    }

    /// The name of the register in capitals, as a dump of the registers
    /// shows it.
    pub open spec fn label(self) -> Seq<char> {
        match self {
            Register::AL => "AL"@,
            Register::CL => "CL"@,
            Register::DL => "DL"@,
            Register::BL => "BL"@,
            Register::AH => "AH"@,
            Register::CH => "CH"@,
            Register::DH => "DH"@,
            Register::BH => "BH"@,
            Register::AX => "AX"@,
            Register::CX => "CX"@,
            Register::DX => "DX"@,
            Register::BX => "BX"@,
            Register::SP => "SP"@,
            Register::BP => "BP"@,
            Register::SI => "SI"@,
            Register::DI => "DI"@,
        }
    }

    /// All sixteen registers, in the order of their codes.
    pub fn iter() -> (all: Vec<Register>)
        ensures
            all@.len() == 16,
            forall|i: int| 0 <= i < 16 ==> (#[trigger] all@[i]).code() == i,
    {
        let mut all: Vec<Register> = Vec::new();
        all.push(Register::AL);
        all.push(Register::CL);
        all.push(Register::DL);
        all.push(Register::BL);
        all.push(Register::AH);
        all.push(Register::CH);
        all.push(Register::DH);
        all.push(Register::BH);
        all.push(Register::AX);
        all.push(Register::CX);
        all.push(Register::DX);
        all.push(Register::BX);
        all.push(Register::SP);
        all.push(Register::BP);
        all.push(Register::SI);
        all.push(Register::DI);
        all
    }

    /// The eight word registers, in the order of their codes.
    pub fn iter_16() -> (words: Vec<Register>)
        ensures
            words@.len() == 8,
            forall|i: int| 0 <= i < 8 ==> (#[trigger] words@[i]).code() == 8 + i,
    {
        let mut words: Vec<Register> = Vec::new();
        words.push(Register::AX);
        words.push(Register::CX);
        words.push(Register::DX);
        words.push(Register::BX);
        words.push(Register::SP);
        words.push(Register::BP);
        words.push(Register::SI);
        words.push(Register::DI);
        words
    }

    /// Decodes a three-bit register field: a byte register when `w` is
    /// clear, a word register when it is set.
    pub fn from(reg: u8, w: bool) -> (r: Register)
        requires
            reg <= 7,
        ensures
            r == Register::spec_from(reg, w),
            r.code() == reg + if w { 8int } else { 0int },
    {
        if w {
            match reg {
                0 => Register::AX,
                1 => Register::CX,
                2 => Register::DX,
                3 => Register::BX,
                4 => Register::SP,
                5 => Register::BP,
                6 => Register::SI,
                _ => Register::DI,
            }
        } else {
            match reg {
                0 => Register::AL,
                1 => Register::CL,
                2 => Register::DL,
                3 => Register::BL,
                4 => Register::AH,
                5 => Register::CH,
                6 => Register::DH,
                _ => Register::BH,
            }
        }
    }

    /// The base register of the addressing mode that `rm` selects: `BX` or
    /// `BP`, or none.
    pub fn get_base(rm: u8) -> (base: Option<Register>)
        ensures
            base == Register::spec_base(rm),
    {
        match rm {
            0 | 1 | 7 => Some(Register::BX),
            2 | 3 | 6 => Some(Register::BP),
            _ => None,
        }
    }

    /// The index register of the addressing mode that `rm` selects: `SI`
    /// or `DI`, or none.
    pub fn get_index(rm: u8) -> (index: Option<Register>)
        ensures
            index == Register::spec_index(rm),
    {
        match rm {
            0 | 2 | 4 => Some(Register::SI),
            1 | 3 | 5 => Some(Register::DI),
            _ => None,
        }
    }

    /// Whether the register is sixteen bits wide.
    pub fn is_word_register(&self) -> (b: bool)
        ensures
            b == self.spec_is_word(),
    {
        match self {
            Register::AX | Register::CX | Register::DX | Register::BX | Register::SP
            | Register::BP | Register::SI | Register::DI => true,
            _ => false,
        }
    }

    /// Whether the register is the low byte of a word register.
    pub fn is_low_byte(&self) -> (b: bool)
        ensures
            b == self.spec_is_low(),
    {
        match self {
            Register::AL | Register::CL | Register::DL | Register::BL => true,
            _ => false,
        }
    }

    /// Whether the register is the high byte of a word register.
    pub fn is_high_byte(&self) -> (b: bool)
        ensures
            b == self.spec_is_high(),
    {
        match self {
            Register::AH | Register::CH | Register::DH | Register::BH => true,
            _ => false,
        }
    }

    /// The word register that holds this register.
    pub fn to_word_register(&self) -> (word: Register)
        ensures
            word == self.spec_word(),
            word.spec_is_word(),
    {
        match self {
            Register::AL | Register::AH => Register::AX,
            Register::CL | Register::CH => Register::CX,
            Register::DL | Register::DH => Register::DX,
            Register::BL | Register::BH => Register::BX,
            _ => *self,
        }
    }

    /// The name of the register in capitals.
    pub fn label_str(&self) -> (s: &'static str)
        ensures
            s@ == self.label(),
    {
        match self {
            Register::AL => "AL",
            Register::CL => "CL",
            Register::DL => "DL",
            Register::BL => "BL",
            Register::AH => "AH",
            Register::CH => "CH",
            Register::DH => "DH",
            Register::BH => "BH",
            Register::AX => "AX",
            Register::CX => "CX",
            Register::DX => "DX",
            Register::BX => "BX",
            Register::SP => "SP",
            Register::BP => "BP",
            Register::SI => "SI",
            Register::DI => "DI",
        }
    }

    /// The lowercase name of the register.
    pub fn to_string(&self) -> (s: String)
        ensures
            s@ == self.name(),
    {
        let name: &str = match self {
            Register::AL => "al",
            Register::CL => "cl",
            Register::DL => "dl",
            Register::BL => "bl",
            Register::AH => "ah",
            Register::CH => "ch",
            Register::DH => "dh",
            Register::BH => "bh",
            Register::AX => "ax",
            Register::CX => "cx",
            Register::DX => "dx",
            Register::BX => "bx",
            Register::SP => "sp",
            Register::BP => "bp",
            Register::SI => "si",
            Register::DI => "di",
        };
        String::from_str(name)
    }
}

/// A register's code tells it apart from every other register.
pub proof fn lemma_code_injective(a: Register, b: Register)
    requires
        a.code() == b.code(),
    ensures
        a == b,
{
}

} // verus!
