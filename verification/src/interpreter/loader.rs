//! From a program to a machine ready to run: the initial state and the
//! arguments on the stack.

use vstd::prelude::*;
use vstd::utf8::encode_utf8;
use crate::word::{u16_of, wrap_word};
use crate::x86::register::Register;
use crate::minix::program::Program;
use crate::interpreter::error::InterpreterError;
use crate::interpreter::flag_set::FlagSet;
use crate::interpreter::memory::{with_bytes, with_word, Memory};
use crate::interpreter::register_set::RegisterSet;
use crate::interpreter::semantics;
use crate::interpreter::semantics::with_reg;
use crate::interpreter::state::{VmState, DATA_SIZE};
use crate::interpreter::vm::VM;

verus! {

/// Where the stack begins.
pub const INITIAL_SP: u16 = 0xFFDA;

/// Data memory before a program is loaded: all zero.
pub open spec fn blank() -> Seq<u8> {
    Seq::new(DATA_SIZE as nat, |i: int| 0u8)
}

/// The state of a machine that no program was loaded into.
pub open spec fn empty_state() -> VmState {
    VmState {
        ip: 0,
        text: Seq::empty(),
        data: blank(),
        regs: RegisterSet::zeroed(),
        flags: FlagSet::cleared(),
        trace: false,
        out: Seq::empty(),
        cycles: 0,
    }
}

/// The state in which a program begins: the data segment at the start of
/// data memory, the words 0x0001 and 0xFFE4 at the initial stack pointer,
/// everything else zero.
pub open spec fn initial_state(text: Seq<u8>, data: Seq<u8>) -> VmState {
    VmState {
        text,
        data: with_word(
            with_word(with_bytes(blank(), 0, data), INITIAL_SP as int, 0x0001),
            INITIAL_SP + 2,
            0xFFE4,
        ),
        regs: RegisterSet::zeroed().spec_set(Register::SP, INITIAL_SP),
        ..empty_state()
    }
}

/// Data memory after `bytes` were stored one by one from `at` on; after
/// the last address comes address zero.
pub open spec fn write_span(data: Seq<u8>, at: u16, bytes: Seq<u8>) -> Seq<u8>
    decreases bytes.len(),
{
    if bytes.len() == 0 {
        data
    } else {
        write_span(data, at, bytes.drop_last()).update(
            (at + bytes.len() - 1) % 0x10000,
            bytes.last(),
        )
    }
}

/// The state after one argument was placed on the stack: the stack
/// pointer goes down by the length of the string and one more, and the
/// string and a zero byte stand where it points.
pub open spec fn stage(s: VmState, bytes: Seq<u8>) -> VmState {
    let sp = u16_of(s.regs.sp - (bytes.len() + 1));
    with_reg(VmState { data: write_span(s.data, sp, bytes.push(0u8)), ..s }, Register::SP, sp)
}

/// The state after the first `count` arguments were placed on the stack.
pub open spec fn staged(s: VmState, args: Seq<Seq<u8>>, count: int) -> VmState
    decreases count,
{
    if count <= 0 {
        s
    } else {
        stage(staged(s, args, count - 1), args[count - 1])
    }
}

/// Where the argument at index `i` stands.
pub open spec fn pointer(s: VmState, args: Seq<Seq<u8>>, i: int) -> u16 {
    staged(s, args, i + 1).regs.sp
}

/// The state after a word was pushed on the stack.
pub open spec fn push_word(s: VmState, value: u16) -> VmState {
    with_reg(s.store(u16_of(s.regs.sp - 2), value), Register::SP, u16_of(s.regs.sp - 2))
}

/// The state `s` after the pointers to the first `count` arguments were
/// pushed, in the order of the arguments; `origin` is the state before
/// any argument was placed.
pub open spec fn with_pointers(
    origin: VmState,
    s: VmState,
    args: Seq<Seq<u8>>,
    count: int,
) -> VmState
    decreases count,
{
    if count <= 0 {
        s
    } else {
        push_word(with_pointers(origin, s, args, count - 1), pointer(origin, args, count - 1))
    }
}

/// The state after the arguments of the program were placed on the
/// stack: the strings, then a zero word, then the pointers to the
/// strings, then the number of arguments, to which the stack pointer
/// points.
pub open spec fn with_args(s: VmState, args: Seq<Seq<u8>>) -> VmState {
    push_word(
        with_pointers(s, push_word(staged(s, args, args.len() as int), 0), args, args.len() as int),
        u16_of(args.len() as int),
    )
}

/// The bytes of each argument.
pub open spec fn arg_bytes(args: Seq<String>) -> Seq<Seq<u8>> {
    args.map_values(|a: String| encode_utf8(a@))
}

/// A run as its caller sees it: what went to standard output, and how
/// the run ended.
pub struct Execution {
    pub output: Vec<u8>,
    pub result: Result<(), InterpreterError>,
}

/// The state in which the run of a program begins: the program loaded,
/// its arguments on the stack, the trace on or off.
pub open spec fn ready_state(
    text: Seq<u8>,
    data: Seq<u8>,
    trace: bool,
    args: Seq<Seq<u8>>,
) -> VmState {
    VmState { trace, ..with_args(initial_state(text, data), args) }
}

/// Whether `output` and `result` are those of the run of a program with
/// the given segments and arguments.
///
/// A data segment that does not fit into data memory gives `InvalidArgs`
/// and no output.
pub open spec fn interpreted(
    text: Seq<u8>,
    data: Seq<u8>,
    trace: bool,
    args: Seq<Seq<u8>>,
    output: Seq<u8>,
    result: Result<(), InterpreterError>,
) -> bool {
    if data.len() > DATA_SIZE {
        output == Seq::<u8>::empty() && result == Err::<(), _>(InterpreterError::InvalidArgs)
    } else {
        &&& output == semantics::run(ready_state(text, data, trace, args)).0.out
        &&& result == semantics::run(ready_state(text, data, trace, args)).1
    }
}

/// The stack pointer `sp` moved down by `len` bytes and one more.
fn moved_down(sp: u16, len: usize) -> (r: u16)
    ensures
        r == u16_of(sp - (len + 1)),
{
    let down: u32 = (len % 0x10000) as u32 + 1;
    wrap_word(sp as u32 + 0x20000 - down)
}

/// The address `i` bytes after `at`.
fn moved_up(at: u16, i: usize) -> (r: u16)
    ensures
        r as int == (at + i) % 0x10000,
{
    wrap_word(at as u32 + (i % 0x10000) as u32)
}

impl Default for VM {
    /// A machine that no program was loaded into.
    fn default() -> (vm: VM)
        ensures
            vm@ == empty_state(),
            vm.wf(),
    {
        let text = Memory::new(0);
        assert(text@ =~= Seq::<u8>::empty());
        VM {
            ip: 0,
            text,
            data: Memory::new(DATA_SIZE),
            regs: RegisterSet::new(),
            flags: FlagSet::new(),
            trace: false,
            out: Vec::new(),
            cycles: 0,
        }
    }
}

impl VM {
    /// The machine in which `program` begins.
    pub fn from(program: Program) -> (vm: VM)
        requires
            program.data_segment.data@.len() <= DATA_SIZE,
        ensures
            vm@ == initial_state(program.text_segment.data@, program.data_segment.data@),
            vm.wf(),
    {
        let text = Memory::from(program.text_segment.data);
        let mut data = Memory::new(DATA_SIZE);
        data.write_bytes(0, program.data_segment.data.as_slice());
        data.write_word(INITIAL_SP, 0x0001);
        data.write_word(INITIAL_SP + 2, 0xFFE4);
        let mut regs = RegisterSet::new();
        regs.set(Register::SP, INITIAL_SP);
        VM {
            ip: 0,
            text,
            data,
            regs,
            flags: FlagSet::new(),
            trace: false,
            out: Vec::new(),
            cycles: 0,
        }
    }

    /// Stores `bytes` one by one from `at` on.
    #[verifier::rlimit(50)]
    fn write_span(&mut self, at: u16, bytes: &[u8])
        requires
            old(self).wf(),
        ensures
            final(self).wf(),
            final(self)@ == (VmState {
                data: write_span(old(self)@.data, at, bytes@),
                ..old(self)@
            }),
    {
        let mut i: usize = 0;
        assert(bytes@.subrange(0, 0) =~= Seq::<u8>::empty());
        while i < bytes.len()
            invariant
                i <= bytes@.len(),
                self.wf(),
                self@ == (VmState {
                    data: write_span(old(self)@.data, at, bytes@.subrange(0, i as int)),
                    ..old(self)@
                }),
            decreases bytes@.len() - i,
        {
            let address = moved_up(at, i);
            self.data.write(address, bytes[i]);
            proof {
                let next = bytes@.subrange(0, i + 1);
                assert(next.drop_last() =~= bytes@.subrange(0, i as int));
                assert(next.last() == bytes@[i as int]);
                assert(address as int == (at + next.len() - 1) % 0x10000);
            }
            i = i + 1;
        }
        assert(bytes@.subrange(0, i as int) =~= bytes@);
    }

    /// Places one argument on the stack.
    #[verifier::rlimit(50)]
    fn stage(&mut self, bytes: &[u8])
        requires
            old(self).wf(),
        ensures
            final(self).wf(),
            final(self)@ == stage(old(self)@, bytes@),
    {
        let len = bytes.len();
        let sp = moved_down(self.regs.get(Register::SP), len);
        self.write_span(sp, bytes);
        let end = moved_up(sp, len);
        self.data.write(end, 0);
        self.regs.set(Register::SP, sp);
        proof {
            let all = bytes@.push(0u8);
            assert(all.drop_last() =~= bytes@);
            assert(end as int == (sp + all.len() - 1) % 0x10000);
        }
    }

    /// Pushes a word on the stack.
    fn push_word(&mut self, value: u16)
        requires
            old(self).wf(),
        ensures
            final(self).wf(),
            final(self)@ == push_word(old(self)@, value),
    {
        let sp = wrap_word(self.regs.get(Register::SP) as u32 + 0x10000 - 2);
        self.store(sp, value);
        self.regs.set(Register::SP, sp);
    }

    /// Places the arguments of the program on the stack, as the program
    /// expects them when it begins: the stack pointer points to their
    /// number; the pointers to the strings and a zero word follow; the
    /// strings stand above.
    #[verifier::rlimit(50)]
    pub fn set_args(&mut self, args: Vec<String>)
        requires
            old(self).wf(),
        ensures
            final(self).wf(),
            final(self)@ == with_args(old(self)@, arg_bytes(args@)),
    {
        let ghost all = arg_bytes(args@);
        let mut pointers: Vec<u16> = Vec::new();
        let mut k: usize = 0;
        while k < args.len()
            invariant
                k <= args@.len(),
                all == arg_bytes(args@),
                self.wf(),
                self@ == staged(old(self)@, all, k as int),
                pointers@.len() == k,
                forall|j: int| 0 <= j < k ==> pointers@[j] == pointer(old(self)@, all, j),
            decreases args@.len() - k,
        {
            self.stage(args[k].as_str().as_bytes());
            pointers.push(self.regs.get(Register::SP));
            k = k + 1;
        }
        self.push_word(0);
        let ghost base = self@;
        let mut j: usize = 0;
        while j < pointers.len()
            invariant
                j <= pointers@.len(),
                pointers@.len() == args@.len(),
                all == arg_bytes(args@),
                self.wf(),
                self@ == with_pointers(old(self)@, base, all, j as int),
                forall|i: int|
                    0 <= i < pointers@.len() ==> pointers@[i] == pointer(old(self)@, all, i),
            decreases pointers@.len() - j,
        {
            self.push_word(pointers[j]);
            j = j + 1;
        }
        self.push_word((args.len() % 0x10000) as u16);
    }
}

/// What can be run.
pub trait Interpretable: Sized {
    /// The machine code.
    spec fn text_bytes(&self) -> Seq<u8>;

    /// The initial contents of data memory.
    spec fn data_bytes(&self) -> Seq<u8>;

    /// Runs the program with the given arguments, the name of the program
    /// first. Gives what the program wrote to standard output, with the
    /// trace of the run among it when `trace` is set, and how the run
    /// ended.
    fn interpret(self, trace: bool, args: Vec<String>) -> (run: Execution)
        ensures
            interpreted(
                self.text_bytes(),
                self.data_bytes(),
                trace,
                arg_bytes(args@),
                run.output@,
                run.result,
            ),
    ;
}

impl Interpretable for Program {
    /// The text segment.
    open spec fn text_bytes(&self) -> Seq<u8> {
        self.text_segment.data@
    }

    /// The data segment.
    open spec fn data_bytes(&self) -> Seq<u8> {
        self.data_segment.data@
    }

    fn interpret(self, trace: bool, args: Vec<String>) -> (run: Execution) {
        if self.data_segment.data.len() > DATA_SIZE {
            return Execution { output: Vec::new(), result: Err(InterpreterError::InvalidArgs) };
        }
        let mut vm = VM::from(self);
        vm.set_args(args);
        vm.set_trace(trace);
        let result = vm.run();
        Execution { output: vm.take_output(), result }
    }
}

} // verus!
