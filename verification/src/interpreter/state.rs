//! The state of the machine as plain values, and what reading and writing
//! an operand mean on it.

use vstd::prelude::*;
use vstd::utf8::encode_utf8;
use crate::text::hex_padded;
use crate::word::{i16_of, le_word, u16_of};
use crate::x86::address::Address;
use crate::x86::displacement::Displacement;
use crate::x86::operand::Operand;
use crate::x86::register::Register;
use crate::interpreter::flag_set::FlagSet;
use crate::interpreter::register_set::RegisterSet;

verus! {

/// The size of data memory: 64 KiB.
pub const DATA_SIZE: usize = 0x10000;

/// The state of the machine.
///
/// `text` is the code, read through `ip` only. `data` is the data and the
/// stack. `out` is everything written to standard output so far, and
/// `cycles` the number of instructions executed in the present run.
pub struct VmState {
    pub ip: u16,
    pub text: Seq<u8>,
    pub data: Seq<u8>,
    pub regs: RegisterSet,
    pub flags: FlagSet,
    pub trace: bool,
    pub out: Seq<u8>,
    pub cycles: nat,
}

impl VmState {
    /// Whether data memory has its full size, so that every address is one
    /// of its bytes.
    pub open spec fn wf(self) -> bool {
        self.data.len() == DATA_SIZE
    }

    /// The state after `text` is written to the trace: appended to the
    /// output when tracing is on, dropped when it is off.
    #[verifier::opaque]
    pub open spec fn emit(self, text: Seq<char>) -> VmState {
        if self.trace {
            VmState { out: self.out + encode_utf8(text), ..self }
        } else {
            self
        }
    }

    /// The state after `bytes` are written to standard output.
    pub open spec fn print(self, bytes: Seq<u8>) -> VmState {
        VmState { out: self.out + bytes, ..self }
    }

    /// The value of an optional register in an address: zero when absent.
    pub open spec fn reg_or_zero(self, reg: Option<Register>) -> int {
        match reg {
            Some(r) => self.regs.spec_get(r) as int,
            None => 0,
        }
    }

    /// The address that a memory operand resolves to: base plus index plus
    /// displacement, modulo 2^16.
    #[verifier::opaque]
    pub open spec fn effective_address(self, address: Address) -> u16 {
        u16_of(
            self.reg_or_zero(address.base) + self.reg_or_zero(address.index) + match address.disp {
                Some(d) => d.value(),
                None => 0,
            },
        )
    }

    /// The word at an address of data memory. The high byte of the word at
    /// the last address is the byte at address zero.
    #[verifier::opaque]
    pub open spec fn load(self, ea: u16) -> u16 {
        le_word(self.data[ea as int], self.data[(ea + 1) % 0x10000])
    }

    /// The state after a word is stored at an address of data memory.
    #[verifier::opaque]
    pub open spec fn store(self, ea: u16, value: u16) -> VmState {
        VmState {
            data: self.data.update(ea as int, (value % 0x100) as u8).update(
                (ea + 1) % 0x10000,
                (value / 0x100) as u8,
            ),
            ..self
        }
    }

    /// The note that the trace holds for an access to memory: the address
    /// and the word there, each in four hexadecimal digits.
    #[verifier::opaque]
    pub open spec fn memory_note(self, ea: u16) -> Seq<char> {
        " ;["@ + hex_padded(ea as nat, 4) + "]"@ + hex_padded(self.load(ea) as nat, 4)
    }

    /// The state after the access to an address is noted in the trace.
    #[verifier::opaque]
    pub open spec fn note(self, ea: u16) -> VmState {
        self.emit(self.memory_note(ea))
    }

    /// The value of an operand as a signed word.
    ///
    /// A byte register and a byte immediate count as they are, without
    /// sign; a sign-extended immediate and a displacement with their sign;
    /// a word register, a word immediate and a word of memory as their bit
    /// pattern read as signed.
    #[verifier::opaque]
    pub open spec fn value_of(self, operand: Operand) -> i16 {
        match operand {
            Operand::Register(r) => i16_of(self.regs.spec_get(r) as int),
            Operand::Immediate(v) => v as i16,
            Operand::LongImmediate(v) => i16_of(v as int),
            Operand::SignExtendedImmediate(v) => v as i16,
            Operand::MemoryAddress(a) => i16_of(self.load(self.effective_address(a)) as int),
            Operand::Displacement(d) => d.value() as i16,
        }
    }

    /// The state after an operand is read: reading memory is noted in the
    /// trace, reading anything else leaves no mark.
    #[verifier::opaque]
    pub open spec fn after_read(self, operand: Operand) -> VmState {
        match operand {
            Operand::MemoryAddress(a) => self.note(self.effective_address(a)),
            _ => self,
        }
    }

    /// The state after `value` is written to a register or to memory.
    /// Writing to memory is noted in the trace with the word that was
    /// there before.
    #[verifier::opaque]
    pub open spec fn after_write(self, operand: Operand, value: u16) -> VmState {
        match operand {
            Operand::Register(r) => VmState { regs: self.regs.spec_set(r, value), ..self },
            Operand::MemoryAddress(a) => self.note(self.effective_address(a)).store(
                self.effective_address(a),
                value,
            ),
            _ => self,
        }
    }
}

/// Whether `after` has the code, the trace switch and the count of
/// instructions of `before`: what no instruction changes.
pub open spec fn kept(before: VmState, after: VmState) -> bool {
    &&& after.text == before.text
    &&& after.trace == before.trace
    &&& after.cycles == before.cycles
}

/// Whether an operand can be written to: it is a register or memory.
pub open spec fn writable(operand: Operand) -> bool {
    operand is Register || operand is MemoryAddress
}

} // verus!
