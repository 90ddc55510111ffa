//! What can end a run.

use vstd::prelude::*;
use vstd::string::*;
use crate::text::{dec_digits, push_dec};
use crate::disassembler::error::DisassemblerError;

verus! {

/// Why an instruction did not complete.
#[derive(Debug, Copy, Clone, PartialEq, Eq)]
pub enum OpcodeExecErrors {
    /// The program asked to exit. The run ends normally.
    ExitCatch,
    /// A system call of a type that the machine does not provide.
    UnimplementedSyscall(usize),
    /// A software interrupt other than the system call.
    UnimplementedInterrupt(usize),
    /// Division by zero, or a quotient that does not fit.
    DivideError,
    /// An operand of a kind that the instruction cannot take.
    InvalidOperand,
}

impl OpcodeExecErrors {
    /// The message for the error.
    pub open spec fn text(self) -> Seq<char> {
        match self {
            OpcodeExecErrors::ExitCatch => "Exit catch"@,
            OpcodeExecErrors::UnimplementedSyscall(n) => "Unimplemented syscall "@ + dec_digits(
                n as nat,
            ),
            OpcodeExecErrors::UnimplementedInterrupt(n) => "Unimplemented interrupt "@
                + dec_digits(n as nat),
            OpcodeExecErrors::DivideError => "Divide error"@,
            OpcodeExecErrors::InvalidOperand => "Invalid operand"@,
        }
    }

    /// Appends the message for the error.
    pub fn push_text(&self, out: &mut String)
        ensures
            final(out)@ == old(out)@ + self.text(),
    {
        match self {
            OpcodeExecErrors::ExitCatch => out.append("Exit catch"),
            OpcodeExecErrors::UnimplementedSyscall(n) => {
                out.append("Unimplemented syscall ");
                push_dec(out, *n as u64);
                assert(out@ =~= old(out)@ + self.text());
            },
            OpcodeExecErrors::UnimplementedInterrupt(n) => {
                out.append("Unimplemented interrupt ");
                push_dec(out, *n as u64);
                assert(out@ =~= old(out)@ + self.text());
            },
            OpcodeExecErrors::DivideError => out.append("Divide error"),
            OpcodeExecErrors::InvalidOperand => out.append("Invalid operand"),
        }
    }

    /// The message for the error.
    pub fn to_string(&self) -> (s: String)
        ensures
            s@ == self.text(),
    {
        let mut s = String::new();
        self.push_text(&mut s);
        assert(s@ =~= self.text());
        s
    }
}

/// Why a run failed.
#[derive(Debug, Copy, Clone, PartialEq, Eq)]
pub enum InterpreterError {
    /// The program cannot be loaded into the machine.
    InvalidArgs,
    /// The run reached the limit on the number of instructions.
    CycleLimitExceeded,
    /// An instruction did not complete.
    OpcodeExecutionError(OpcodeExecErrors),
    /// The bytes at the instruction pointer are no instruction.
    DecodeError(DisassemblerError),
}

impl InterpreterError {
    /// The message for the error.
    pub open spec fn text(self) -> Seq<char> {
        match self {
            InterpreterError::InvalidArgs => "Invalid arguments"@,
            InterpreterError::CycleLimitExceeded => "Cycle limit exceeded"@,
            InterpreterError::OpcodeExecutionError(e) => "Execution error: "@ + e.text(),
            InterpreterError::DecodeError(e) => "Decode error: "@ + e.text(),
        }
    }

    /// The message for the error.
    pub fn to_string(&self) -> (s: String)
        ensures
            s@ == self.text(),
    {
        match self {
            InterpreterError::InvalidArgs => String::from_str("Invalid arguments"),
            InterpreterError::CycleLimitExceeded => String::from_str("Cycle limit exceeded"),
            InterpreterError::OpcodeExecutionError(e) => {
                let mut s = String::from_str("Execution error: ");
                e.push_text(&mut s);
                s
            },
            InterpreterError::DecodeError(e) => {
                let mut s = String::from_str("Decode error: ");
                s.append(e.to_string().as_str());
                s
            },
        }
    }
}

} // verus!
