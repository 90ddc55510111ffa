//! Fetch, decode, execute: the run of a program.

use vstd::prelude::*;
use vstd::string::*;
use crate::text::{push_hex, push_hex_bytes, push_padded};
use crate::utils::min;
use crate::word::wrap_word;
use crate::x86::instruction::IR;
use crate::x86::register::Register;
use crate::disassembler::error::DisassemblerError;
use crate::disassembler::parser::{decode_ir, decodes_to};
use crate::disassembler::encoding::MAX_ENCODED_LEN;
use crate::interpreter::error::{InterpreterError, OpcodeExecErrors};
use crate::interpreter::semantics;
use crate::interpreter::semantics::{CYCLE_LIMIT, MAX_INSTRUCTION_SIZE};
use crate::interpreter::state::{kept, VmState};
use crate::interpreter::vm::VM;

verus! {

impl VM {
    /// The bytes at the instruction pointer: up to fifteen of them; none
    /// where the instruction pointer is past the code.
    pub fn fetch(&self) -> (chunk: Option<&[u8]>)
        ensures
            match chunk {
                Some(bytes) => semantics::fetched(self@) == Some(bytes@),
                None => semantics::fetched(self@) is None,
            },
    {
        let ip = self.ip as usize;
        let len = self.text.len();
        if len <= ip {
            return None;
        }
        Some(self.text.read_bytes(self.ip, min(MAX_INSTRUCTION_SIZE, len - ip)))
    }

    /// Decodes the instruction at the start of `chunk`, which was fetched
    /// at the instruction pointer.
    pub fn decode(&self, chunk: &[u8]) -> (res: Result<(IR, usize), DisassemblerError>)
        ensures
            decodes_to(chunk@, self@.ip as int, res),
            res matches Ok((_, n)) ==> 1 <= n <= MAX_ENCODED_LEN && n <= chunk@.len(),
    {
        decode_ir(chunk, self.ip as usize)
    }

    /// Executes one instruction.
    #[verifier::rlimit(50)]
    pub fn execute(&mut self, ir: IR) -> (res: Result<(), OpcodeExecErrors>)
        requires
            old(self).wf(),
        ensures
            final(self).wf(),
            kept(old(self)@, final(self)@),
            semantics::execute(old(self)@, ir).is(final(self)@, res),
    {
        proof {
            reveal(semantics::execute);
        }
        match ir {
            IR::Mov { dest, src, byte } => self.mov(dest, src, byte),
            IR::Int { int_type } => self.int_(int_type),
            IR::Add { dest, src } => self.add(dest, src),
            IR::Adc { dest, src } => self.adc(dest, src),
            IR::Sub { dest, src } => self.sub(dest, src),
            IR::Ssb { dest, src } => self.sbb(dest, src),
            IR::And { dest, src } => self.and(dest, src),
            IR::Or { dest, src } => self.or(dest, src),
            IR::Xor { dest, src } => self.xor(dest, src),
            IR::Cmp { dest, src, byte } => self.cmp(dest, src, byte),
            IR::Test { dest, src, byte } => self.test(dest, src, byte),
            IR::Inc { dest } => self.inc(dest),
            IR::Dec { dest } => self.dec(dest),
            IR::Neg { dest } => self.neg(dest),
            IR::Not { dest } => self.not(dest),
            IR::Shl { dest, src } => self.shl(dest, src),
            IR::Shr { dest, src } => self.shr(dest, src),
            IR::Sar { dest, src } => self.sar(dest, src),
            IR::Rol { dest, src } => self.rol(dest, src),
            IR::Ror { dest, src } => self.ror(dest, src),
            IR::Rcl { dest, src } => self.rcl(dest, src),
            IR::Rcr { dest, src } => self.rcr(dest, src),
            IR::Mul { dest } => self.mul(dest),
            IR::Imul { dest } => self.imul(dest),
            IR::Div { dest } => self.div(dest),
            IR::Idiv { dest } => self.idiv(dest),
            IR::Cbw => self.cbw(),
            IR::Cwd => self.cwd(),
            IR::Push { src } => self.push(src),
            IR::Pop { dest } => self.pop(dest),
            IR::Call { dest } => self.call(dest),
            IR::Ret { src } => self.ret(src),
            IR::Jmp { dest, short: _ } => self.jmp(dest),
            IR::Je { dest } => self.je(dest),
            IR::Jne { dest } => self.jne(dest),
            IR::Jb { dest } => self.jb(dest),
            IR::Jnb { dest } => self.jnb(dest),
            IR::Jbe { dest } => self.jbe(dest),
            IR::Jnbe { dest } => self.jnbe(dest),
            IR::Jl { dest } => self.jl(dest),
            IR::Jle { dest } => self.jle(dest),
            IR::Jnl { dest } => self.jnl(dest),
            IR::Jnle { dest } => self.jnle(dest),
            IR::Js { dest } => self.js(dest),
            IR::Jns { dest } => self.jns(dest),
            IR::Jo { dest } => self.jo(dest),
            IR::Jno { dest } => self.jno(dest),
            IR::Jp { dest } => self.jp(dest),
            IR::Jnp { dest } => self.jnp(dest),
            IR::Loop { dest } => self.loop_(dest),
            IR::Loopz { dest } => self.loopz(dest),
            IR::Loopnz { dest } => self.loopnz(dest),
            IR::Jcxz { dest } => self.jcxz(dest),
            IR::Lea { dest, src } => self.lea(dest, src),
            IR::Xchg { dest, src } => self.xchg(dest, src),
            IR::In { dest, src } => self.in_(dest, src),
            IR::Clc => self.clc(),
            IR::Stc => self.stc(),
            IR::Cmc => self.cmc(),
            IR::Cld => self.cld(),
            IR::Std => self.std_(),
            IR::Cli => self.cli(),
            IR::Sti => self.sti(),
            _ => Ok(()),
        }
    }

    /// The text of a register for the trace.
    fn push_register(&self, out: &mut String, reg: Register)
        ensures
            final(out)@ == old(out)@ + semantics::register_text(self@, reg),
    {
        push_hex(out, self.regs.get(reg) as u64, 4);
        out.append(" ");
        assert(out@ =~= old(out)@ + semantics::register_text(self@, reg));
    }

    /// The trace line for the instruction `ir`, decoded from `raw` and
    /// about to be executed.
    #[verifier::rlimit(50)]
    pub fn trace_line(&self, ir: &IR, raw: &[u8]) -> (line: String)
        ensures
            line@ == semantics::trace_line(self@, *ir, raw@),
    {
        proof {
            reveal(semantics::trace_line);
        }
        let mut prefix = String::new();
        self.push_register(&mut prefix, Register::AX);
        self.push_register(&mut prefix, Register::BX);
        self.push_register(&mut prefix, Register::CX);
        self.push_register(&mut prefix, Register::DX);
        self.push_register(&mut prefix, Register::SP);
        self.push_register(&mut prefix, Register::BP);
        self.push_register(&mut prefix, Register::SI);
        self.push_register(&mut prefix, Register::DI);
        assert(prefix@ =~= semantics::registers_text(self@));
        prefix.append("-");
        if self.flags.sign {
            prefix.append("S");
        } else {
            prefix.append("-");
        }
        if self.flags.zero {
            prefix.append("Z");
        } else {
            prefix.append("-");
        }
        if self.flags.carry {
            prefix.append("C");
        } else {
            prefix.append("-");
        }
        assert(prefix@ =~= semantics::registers_text(self@) + semantics::flags_text(self@.flags));
        prefix.append(" ");
        push_hex(&mut prefix, self.ip as u64, 4);
        prefix.append(":");
        push_hex_bytes(&mut prefix, raw);
        assert(prefix@ =~= semantics::trace_prefix(self@, raw@));
        let mut line = String::new();
        push_padded(&mut line, prefix.as_str(), 62);
        line.append(" ");
        ir.push_text(&mut line);
        assert(line@ =~= semantics::trace_line(self@, *ir, raw@));
        line
    }

    /// Fetches, decodes and executes one instruction. Gives how the run
    /// ended, where this step ended it.
    #[verifier::rlimit(50)]
    pub fn step(&mut self) -> (ending: Option<Result<(), InterpreterError>>)
        requires
            old(self).wf(),
        ensures
            final(self).wf(),
            semantics::step(old(self)@) == (final(self)@, ending),
            ending is None ==> old(self)@.cycles < CYCLE_LIMIT && final(self)@.cycles == old(
                self,
            )@.cycles + 1,
            final(self)@.cycles <= CYCLE_LIMIT || final(self)@.cycles == old(self)@.cycles,
    {
        proof {
            reveal(semantics::step);
            reveal(VmState::emit);
        }
        let ip = self.ip;
        let (ir, n, line) = match self.fetch() {
            None => {
                return Some(Ok(()));
            },
            Some(chunk) => match self.decode(chunk) {
                Err(e) => {
                    return Some(Err(InterpreterError::DecodeError(e)));
                },
                Ok((ir, n)) => {
                    if let IR::Hlt = ir {
                        return Some(Ok(()));
                    }
                    if self.cycles >= CYCLE_LIMIT {
                        return Some(Err(InterpreterError::CycleLimitExceeded));
                    }
                    let line = if self.trace {
                        self.trace_line(&ir, &chunk[0..n])
                    } else {
                        String::new()
                    };
                    (ir, n, line)
                },
            },
        };
        self.emit(line.as_str());
        self.ip = wrap_word(ip as u32 + n as u32);
        self.cycles = self.cycles + 1;
        match self.execute(ir) {
            Ok(_) => {
                self.emit("\n");
                None
            },
            Err(OpcodeExecErrors::ExitCatch) => {
                self.emit("\n");
                Some(Ok(()))
            },
            Err(e) => Some(Err(InterpreterError::OpcodeExecutionError(e))),
        }
    }

    /// Runs the program from the instruction pointer on, until it halts,
    /// exits, runs past its code or fails.
    ///
    /// No run executes more than 999 999 instructions: where another one
    /// is due after that many, the run fails with `CycleLimitExceeded`.
    pub fn run(&mut self) -> (res: Result<(), InterpreterError>)
        requires
            old(self).wf(),
        ensures
            final(self).wf(),
            semantics::run(old(self)@) == (final(self)@, res),
            final(self)@.cycles <= CYCLE_LIMIT,
    {
        self.cycles = 0;
        self.emit(" AX   BX   CX   DX   SP   BP   SI   DI  FLAGS IP\n");
        loop
            invariant
                self.wf(),
                self@.cycles <= CYCLE_LIMIT,
                semantics::run(old(self)@) == semantics::run_from(self@),
            decreases CYCLE_LIMIT - self.cycles,
        {
            match self.step() {
                Some(result) => {
                    return result;
                },
                None => {},
            }
        }
    }
}

} // verus!
