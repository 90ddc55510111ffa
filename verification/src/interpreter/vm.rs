//! The machine itself: its state, and reading and writing operands.

use vstd::prelude::*;
use vstd::string::*;
use crate::text::{hex_padded, push_hex};
use crate::utils::{dump_text, HexdumpFormatter};
use crate::word::{high_byte, low_byte, word_from_le, word_to_i16, wrap_word};
use crate::x86::address::Address;
use crate::x86::operand::Operand;
use crate::x86::register::Register;
use crate::interpreter::error::OpcodeExecErrors;
use crate::interpreter::flag_set::FlagSet;
use crate::interpreter::memory::Memory;
use crate::interpreter::register_set::RegisterSet;
use crate::interpreter::state::{kept, writable, VmState};

verus! {

/// The virtual machine.
pub struct VM {
    /// The offset of the next instruction in `text`.
    pub ip: u16,
    /// The code.
    pub text: Memory,
    /// The data and the stack: 64 KiB.
    pub data: Memory,
    pub regs: RegisterSet,
    pub flags: FlagSet,
    /// Whether a trace of the run goes to the output.
    pub trace: bool,
    /// Everything written to standard output so far.
    pub out: Vec<u8>,
    /// The number of instructions executed in the present run.
    pub cycles: u32,
}

impl View for VM {
    type V = VmState;

    open spec fn view(&self) -> VmState {
        VmState {
            ip: self.ip,
            text: self.text@,
            data: self.data@,
            regs: self.regs,
            flags: self.flags,
            trace: self.trace,
            out: self.out@,
            cycles: self.cycles as nat,
        }
    }
}

/// Appends `bytes` to `out`.
pub fn append_bytes(out: &mut Vec<u8>, bytes: &[u8])
    ensures
        final(out)@ == old(out)@ + bytes@,
{
    let mut i: usize = 0;
    assert(out@ =~= old(out)@ + bytes@.subrange(0, 0));
    while i < bytes.len()
        invariant
            i <= bytes@.len(),
            out@ == old(out)@ + bytes@.subrange(0, i as int),
        decreases bytes@.len() - i,
    {
        out.push(bytes[i]);
        i = i + 1;
        assert(out@ =~= old(out)@ + bytes@.subrange(0, i as int));
    }
    assert(bytes@.subrange(0, i as int) =~= bytes@);
}

impl VM {
    /// Whether data memory has its full size.
    pub open spec fn wf(&self) -> bool {
        self@.wf()
    }

    /// A dump of the whole machine: the instruction pointer, the flags,
    /// the code and the data in hexadecimal, and the registers.
    pub open spec fn text(&self) -> Seq<char> {
        "IP: "@ + hex_padded(self.ip as nat, 4) + "\n"@ + "FLAGS: "@ + self.flags.text() + "\n"@
            + "TEXT:\n"@ + dump_text(self.text@, self.text@.len() as int) + "DATA:\n"@ + dump_text(
            self.data@,
            self.data@.len() as int,
        ) + "\n"@ + "REGS:\n"@ + self.regs.text() + "\n"@
    }

    /// A dump of the whole machine.
    pub fn to_string(&self) -> (s: String)
        ensures
            s@ == self.text(),
    {
        let mut s = String::from_str("IP: ");
        push_hex(&mut s, self.ip as u64, 4);
        s.append("\n");
        s.append("FLAGS: ");
        self.flags.push_text(&mut s);
        s.append("\n");
        s.append("TEXT:\n");
        s.append(HexdumpFormatter(self.text.data.as_slice()).to_string().as_str());
        s.append("DATA:\n");
        s.append(HexdumpFormatter(self.data.data.as_slice()).to_string().as_str());
        s.append("\n");
        s.append("REGS:\n");
        self.regs.push_text(&mut s);
        s.append("\n");
        assert(s@ =~= self.text());
        s
    }

    /// Turns the trace on or off.
    pub fn set_trace(&mut self, trace: bool)
        ensures
            final(self)@ == (VmState { trace, ..old(self)@ }),
    {
        self.trace = trace;
    }

    /// Takes the output written so far and leaves none.
    pub fn take_output(&mut self) -> (bytes: Vec<u8>)
        ensures
            bytes@ == old(self)@.out,
            final(self)@ == (VmState { out: Seq::empty(), ..old(self)@ }),
    {
        let mut bytes: Vec<u8> = Vec::new();
        std::mem::swap(&mut bytes, &mut self.out);
        bytes
    }

    /// Writes `text` to the trace.
    pub fn emit(&mut self, text: &str)
        ensures
            final(self)@ == old(self)@.emit(text@),
            final(self)@.data == old(self)@.data,
            kept(old(self)@, final(self)@),
    {
        proof {
            reveal(VmState::emit);
        }
        if self.trace {
            append_bytes(&mut self.out, text.as_bytes());
        }
    }

    /// Resolves a memory operand to its address.
    pub fn effective_address(&self, address: &Address) -> (ea: u16)
        ensures
            ea == self@.effective_address(*address),
    {
        proof {
            reveal(VmState::effective_address);
        }
        let base: u32 = match address.base {
            Some(r) => self.regs.get(r) as u32,
            None => 0,
        };
        let index: u32 = match address.index {
            Some(r) => self.regs.get(r) as u32,
            None => 0,
        };
        let disp: u32 = match address.disp {
            Some(d) => d.to_u16() as u32,
            None => 0,
        };
        wrap_word(base + index + disp)
    }

    /// The word at an address of data memory.
    pub fn load(&self, ea: u16) -> (value: u16)
        requires
            self.wf(),
        ensures
            value == self@.load(ea),
    {
        proof {
            reveal(VmState::load);
        }
        if ea == 0xFFFF {
            word_from_le(self.data.read(ea), self.data.read(0))
        } else {
            self.data.read_word(ea)
        }
    }

    /// Stores a word at an address of data memory.
    pub fn store(&mut self, ea: u16, value: u16)
        requires
            old(self).wf(),
        ensures
            final(self)@ == old(self)@.store(ea, value),
            final(self).wf(),
            kept(old(self)@, final(self)@),
    {
        proof {
            reveal(VmState::store);
        }
        if ea == 0xFFFF {
            self.data.write(ea, low_byte(value));
            self.data.write(0, high_byte(value));
        } else {
            self.data.write_word(ea, value);
        }
    }

    /// Notes an access to memory in the trace.
    pub fn note(&mut self, ea: u16)
        requires
            old(self).wf(),
        ensures
            final(self)@ == old(self)@.note(ea),
            final(self).wf(),
            kept(old(self)@, final(self)@),
    {
        proof {
            reveal(VmState::note);
            reveal(VmState::emit);
        }
        if self.trace {
            let mut text = String::from_str(" ;[");
            push_hex(&mut text, ea as u64, 4);
            text.append("]");
            push_hex(&mut text, self.load(ea) as u64, 4);
            assert(text@ =~= self@.memory_note(ea)) by {
                reveal(VmState::memory_note);
            }
            self.emit(text.as_str());
        }
    }

    /// The value of an operand as a signed word.
    pub fn peek(&self, operand: &Operand) -> (value: i16)
        requires
            self.wf(),
        ensures
            value == self@.value_of(*operand),
    {
        proof {
            reveal(VmState::value_of);
        }
        match operand {
            Operand::Register(r) => word_to_i16(self.regs.get(*r)),
            Operand::Immediate(v) => *v as i16,
            Operand::LongImmediate(v) => word_to_i16(*v),
            Operand::SignExtendedImmediate(v) => *v as i16,
            Operand::MemoryAddress(a) => word_to_i16(self.load(self.effective_address(a))),
            Operand::Displacement(d) => d.to_i16(),
        }
    }

    /// Notes in the trace that an operand is read, where it is memory.
    pub fn trace_read(&mut self, operand: &Operand)
        requires
            old(self).wf(),
        ensures
            final(self)@ == old(self)@.after_read(*operand),
            final(self).wf(),
            kept(old(self)@, final(self)@),
    {
        proof {
            reveal(VmState::after_read);
        }
        match operand {
            Operand::MemoryAddress(a) => {
                let ea = self.effective_address(a);
                self.note(ea);
            },
            _ => {},
        }
    }

    /// Reads an operand as a signed word. Reading memory is noted in the
    /// trace.
    pub fn read_value(&mut self, operand: &Operand) -> (value: i16)
        requires
            old(self).wf(),
        ensures
            value == old(self)@.value_of(*operand),
            final(self)@ == old(self)@.after_read(*operand),
            final(self).wf(),
            kept(old(self)@, final(self)@),
    {
        let value = self.peek(operand);
        self.trace_read(operand);
        value
    }

    /// Writes a word to a register or to memory; `InvalidOperand`, and no
    /// change, for any other operand. Writing to memory is noted in the
    /// trace.
    pub fn write_value(&mut self, operand: &Operand, value: u16) -> (res: Result<
        (),
        OpcodeExecErrors,
    >)
        requires
            old(self).wf(),
        ensures
            final(self).wf(),
            writable(*operand) ==> res == Ok::<(), OpcodeExecErrors>(()) && final(self)@ == old(
                self,
            )@.after_write(*operand, value),
            !writable(*operand) ==> res == Err::<(), _>(OpcodeExecErrors::InvalidOperand)
                && final(self)@ == old(self)@,
            kept(old(self)@, final(self)@),
    {
        proof {
            reveal(VmState::after_write);
        }
        match operand {
            Operand::Register(r) => {
                self.regs.set(*r, value);
                Ok(())
            },
            Operand::MemoryAddress(a) => {
                let ea = self.effective_address(a);
                self.note(ea);
                self.store(ea, value);
                Ok(())
            },
            _ => Err(OpcodeExecErrors::InvalidOperand),
        }
    }
}

} // verus!
