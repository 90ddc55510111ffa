//! The system calls of Minix that the machine provides.
//!
//! A program asks for a system call with `INT 0x20`. `BX` points to a
//! message in data memory: the type of the call is the word at offset 2,
//! where the reply goes too; the arguments follow.

use vstd::prelude::*;
use vstd::string::*;
use crate::text::{push_dec, push_hex};
use crate::word::wrap_word;
use crate::x86::register::Register;
use crate::interpreter::error::OpcodeExecErrors;
use crate::interpreter::semantics;
use crate::interpreter::state::kept;
use crate::interpreter::vm::{append_bytes, VM};

verus! {

impl VM {
    /// The word of the message at `offset` bytes from its start.
    pub fn message_word(&self, offset: u16) -> (value: u16)
        requires
            self.wf(),
        ensures
            value == semantics::message_word(self@, offset as int),
    {
        self.load(wrap_word(self.regs.get(Register::BX) as u32 + offset as u32))
    }

    /// Stores the reply to a system call in the message.
    pub fn reply(&mut self, value: u16)
        requires
            old(self).wf(),
        ensures
            final(self).wf(),
            kept(old(self)@, final(self)@),
            final(self)@ == semantics::with_reply(old(self)@, value),
    {
        let at = wrap_word(self.regs.get(Register::BX) as u32 + 2);
        self.store(at, value);
    }

    /// The `count` bytes of data memory from `address` on.
    pub fn span(&self, address: u16, count: u16) -> (bytes: Vec<u8>)
        requires
            self.wf(),
        ensures
            bytes@ == semantics::span(self@, address, count),
    {
        let mut bytes: Vec<u8> = Vec::new();
        let mut i: u16 = 0;
        while i < count
            invariant
                self.wf(),
                i <= count,
                bytes@.len() == i,
                forall|k: int| 0 <= k < i ==> bytes@[k] == self@.data[(address + k) % 0x10000],
            decreases count - i,
        {
            bytes.push(self.data.read(wrap_word(address as u32 + i as u32)));
            i = i + 1;
        }
        assert(bytes@ =~= semantics::span(self@, address, count));
        bytes
    }

    /// Writes bytes to standard output.
    pub fn print(&mut self, bytes: &[u8])
        ensures
            final(self)@ == old(self)@.print(bytes@),
            final(self)@.data == old(self)@.data,
            kept(old(self)@, final(self)@),
    {
        append_bytes(&mut self.out, bytes);
    }

    /// `exit(status)`.
    pub fn sys_exit(&mut self) -> (res: Result<(), OpcodeExecErrors>)
        requires
            old(self).wf(),
        ensures
            final(self).wf(),
            kept(old(self)@, final(self)@),
            semantics::sys_exit(old(self)@).is(final(self)@, res),
    {
        let status = self.message_word(4);
        let mut text = String::from_str("\n<exit(");
        push_dec(&mut text, status as u64);
        text.append(")>");
        assert(text@ =~= semantics::exit_text(status));
        self.emit(text.as_str());
        Err(OpcodeExecErrors::ExitCatch)
    }

    /// `write(fd, buffer, count)`.
    pub fn sys_write(&mut self) -> (res: Result<(), OpcodeExecErrors>)
        requires
            old(self).wf(),
        ensures
            final(self).wf(),
            kept(old(self)@, final(self)@),
            semantics::sys_write(old(self)@).is(final(self)@, res),
    {
        let fd = self.message_word(4);
        let count = self.message_word(6);
        let buffer = self.message_word(10);
        self.regs.set(Register::AX, 0);
        self.reply(count);
        let bytes = self.span(buffer, count);
        if self.trace {
            let mut head = String::from_str("\n<write(");
            push_dec(&mut head, fd as u64);
            head.append(", 0x");
            push_hex(&mut head, buffer as u64, 4);
            head.append(", ");
            push_dec(&mut head, count as u64);
            head.append(")");
            assert(head@ =~= semantics::write_text(fd, buffer, count));
            let mut tail = String::from_str(" => ");
            push_dec(&mut tail, count as u64);
            tail.append(">");
            assert(tail@ =~= semantics::written_text(count));
            self.emit(head.as_str());
            self.print(bytes.as_slice());
            self.emit(tail.as_str());
        } else {
            self.print(bytes.as_slice());
        }
        Ok(())
    }

    /// `brk(address)`.
    pub fn sys_brk(&mut self) -> (res: Result<(), OpcodeExecErrors>)
        requires
            old(self).wf(),
        ensures
            final(self).wf(),
            kept(old(self)@, final(self)@),
            semantics::sys_brk(old(self)@).is(final(self)@, res),
    {
        let address = self.message_word(10);
        self.reply(0);
        let mut text = String::from_str("\n<brk(0x");
        push_hex(&mut text, address as u64, 4);
        text.append(") => 0>");
        assert(text@ =~= semantics::brk_text(address));
        self.emit(text.as_str());
        Ok(())
    }

    /// `ioctl(fd, request, data)`.
    pub fn sys_ioctl(&mut self) -> (res: Result<(), OpcodeExecErrors>)
        requires
            old(self).wf(),
        ensures
            final(self).wf(),
            kept(old(self)@, final(self)@),
            semantics::sys_ioctl(old(self)@).is(final(self)@, res),
    {
        let fd = self.message_word(4);
        let request = self.message_word(8);
        let data = self.message_word(18);
        let mut text = String::from_str("\n<ioctl(");
        push_dec(&mut text, fd as u64);
        text.append(", 0x");
        push_hex(&mut text, request as u64, 2);
        text.append(", 0x");
        push_hex(&mut text, data as u64, 2);
        text.append(")>");
        assert(text@ =~= semantics::ioctl_text(fd, request, data));
        self.emit(text.as_str());
        self.reply(0xFFEA);
        self.regs.set(Register::AX, 0);
        Ok(())
    }

    /// INT: the system call that the message at `BX` asks for, where the
    /// interrupt is 0x20.
    pub fn int_(&mut self, int_type: u8) -> (res: Result<(), OpcodeExecErrors>)
        requires
            old(self).wf(),
        ensures
            final(self).wf(),
            kept(old(self)@, final(self)@),
            semantics::interrupt(old(self)@, int_type).is(final(self)@, res),
    {
        if int_type != semantics::SYSCALL_INTERRUPT {
            return Err(OpcodeExecErrors::UnimplementedInterrupt(int_type as usize));
        }
        let kind = self.message_word(2);
        if kind == 1 {
            self.sys_exit()
        } else if kind == 4 {
            self.sys_write()
        } else if kind == 17 {
            self.sys_brk()
        } else if kind == 54 {
            self.sys_ioctl()
        } else {
            Err(OpcodeExecErrors::UnimplementedSyscall(kind as usize))
        }
    }
}

} // verus!
