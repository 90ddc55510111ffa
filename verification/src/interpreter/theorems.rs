//! What follows from the meaning of the instructions: the discipline of
//! the stack, the flags of arithmetic and logic, the targets of branches.

use vstd::prelude::*;
use crate::word::{i16_of, i8_of, le_word, lemma_word_of, u16_of};
use crate::x86::instruction::IR;
use crate::x86::operand::Operand;
use crate::x86::register::Register;
use crate::disassembler::encoding::{decode, short_branch, short_target};
use crate::disassembler::error::DisassemblerError;
use crate::interpreter::flag_set::even_ones;
use crate::interpreter::semantics::{
    arith, arith_result, carry_in, compare, execute, holds, jump, narrow, pop, push, Arith,
    Condition,
};
use crate::interpreter::state::{writable, VmState};
use crate::interpreter::semantics;

verus! {

/// A push followed by a pop into a word register other than the stack
/// pointer leaves the stack pointer where it was and the pushed value in
/// the register.
#[verifier::rlimit(50)]
pub proof fn lemma_push_then_pop(s: VmState, src: Operand, reg: Register)
    requires
        s.wf(),
        reg.spec_is_word(),
        reg != Register::SP,
    ensures
        push(s, src).result is Ok,
        pop(push(s, src).state, Operand::Register(reg)).result is Ok,
        pop(push(s, src).state, Operand::Register(reg)).state.regs.spec_get(Register::SP)
            == s.regs.spec_get(Register::SP),
        pop(push(s, src).state, Operand::Register(reg)).state.regs.spec_get(reg) == u16_of(
            s.value_of(src) as int,
        ),
{
    reveal(VmState::after_read);
    reveal(VmState::after_write);
    reveal(VmState::note);
    reveal(VmState::emit);
    reveal(VmState::store);
    reveal(VmState::load);
    let pushed = push(s, src).state;
    let sp = u16_of(s.regs.sp - 2);
    assert(pushed.regs.sp == sp);
    assert(u16_of(sp + 2) == s.regs.sp);
    assert(pushed.load(sp) == u16_of(s.value_of(src) as int));
}

/// Pushing a word immediate and popping it into a word register other
/// than the stack pointer gives the register that word, whatever it is.
pub proof fn lemma_push_immediate_then_pop(s: VmState, value: u16, reg: Register)
    requires
        s.wf(),
        reg.spec_is_word(),
        reg != Register::SP,
    ensures
        pop(
            push(s, Operand::LongImmediate(value)).state,
            Operand::Register(reg),
        ).state.regs.spec_get(reg) == value,
        pop(
            push(s, Operand::LongImmediate(value)).state,
            Operand::Register(reg),
        ).state.regs.spec_get(Register::SP) == s.regs.spec_get(Register::SP),
{
    lemma_push_then_pop(s, Operand::LongImmediate(value), reg);
    reveal(VmState::value_of);
}

/// The sum of two positive numbers that is a signed word leaves
/// `Overflow` and `Carry` clear.
pub proof fn lemma_add_without_overflow(s: VmState, dest: Operand, src: Operand)
    requires
        writable(dest),
        0 < s.value_of(dest),
        0 < s.value_of(src),
        s.value_of(dest) + s.value_of(src) <= 0x7FFF,
    ensures
        arith(s, Arith::Add, dest, src).result is Ok,
        !arith(s, Arith::Add, dest, src).state.flags.overflow,
        !arith(s, Arith::Add, dest, src).state.flags.carry,
{
}

/// The difference of two equal values sets `Zero` and leaves `Sign` and
/// `Carry` clear.
pub proof fn lemma_sub_of_equals(s: VmState, dest: Operand, src: Operand)
    requires
        writable(dest),
        s.value_of(dest) == s.value_of(src),
    ensures
        arith(s, Arith::Sub, dest, src).result is Ok,
        arith(s, Arith::Sub, dest, src).state.flags.zero,
        !arith(s, Arith::Sub, dest, src).state.flags.sign,
        !arith(s, Arith::Sub, dest, src).state.flags.carry,
{
}

/// AND, OR and XOR clear `Overflow` and `Carry` and set `Zero`, `Sign`
/// and `Parity` as their result has them.
pub proof fn lemma_logic_flags(s: VmState, kind: Arith, dest: Operand, src: Operand)
    requires
        writable(dest),
        kind is And || kind is Or || kind is Xor,
    ensures
        ({
            let r = arith_result(kind, s.value_of(dest), s.value_of(src), carry_in(s.flags));
            let f = arith(s, kind, dest, src).state.flags;
            &&& arith(s, kind, dest, src).result is Ok
            &&& !f.overflow
            &&& !f.carry
            &&& f.zero == (r == 0)
            &&& f.sign == (r < 0)
            &&& f.parity == even_ones(u16_of(r as int) as nat)
        }),
{
}

/// TEST clears `Overflow` and `Carry` and sets `Zero`, `Sign` and
/// `Parity` as the bitwise and of its operands has them.
pub proof fn lemma_test_flags(s: VmState, dest: Operand, src: Operand, byte: bool)
    ensures
        ({
            let r = narrow(s.value_of(dest), byte) & narrow(s.value_of(src), byte);
            let f = semantics::test(s, dest, src, byte).state.flags;
            &&& semantics::test(s, dest, src, byte).result is Ok
            &&& !f.overflow
            &&& !f.carry
            &&& f.zero == (r == 0)
            &&& f.sign == (r < 0)
            &&& f.parity == even_ones(u16_of(r as int) as nat)
        }),
{
}

/// CMP sets the flags that SUB sets and writes nothing.
pub proof fn lemma_compare_is_sub_without_write(s: VmState, dest: Operand, src: Operand)
    requires
        writable(dest),
    ensures
        compare(s, dest, src, false).state.flags == arith(s, Arith::Sub, dest, src).state.flags,
        compare(s, dest, src, false).state.regs == s.regs,
        compare(s, dest, src, false).state.data == s.data,
{
    reveal(VmState::after_read);
    reveal(VmState::note);
    reveal(VmState::emit);
}

/// Whether a branch instruction goes to its target in state `s`: always
/// for JMP and CALL, by the flags for a conditional jump, by the count
/// for a loop.
pub open spec fn taken(s: VmState, ir: IR) -> bool {
    match ir {
        IR::Jmp { dest, short } => true,
        IR::Call { dest } => true,
        IR::Je { dest } => holds(Condition::Equal, s.flags),
        IR::Jne { dest } => holds(Condition::NotEqual, s.flags),
        IR::Jb { dest } => holds(Condition::Below, s.flags),
        IR::Jnb { dest } => holds(Condition::NotBelow, s.flags),
        IR::Jbe { dest } => holds(Condition::BelowOrEqual, s.flags),
        IR::Jnbe { dest } => holds(Condition::NotBelowOrEqual, s.flags),
        IR::Jl { dest } => holds(Condition::Less, s.flags),
        IR::Jle { dest } => holds(Condition::LessOrEqual, s.flags),
        IR::Jnl { dest } => holds(Condition::NotLess, s.flags),
        IR::Jnle { dest } => holds(Condition::NotLessOrEqual, s.flags),
        IR::Js { dest } => holds(Condition::Sign, s.flags),
        IR::Jns { dest } => holds(Condition::NotSign, s.flags),
        IR::Jo { dest } => holds(Condition::Overflow, s.flags),
        IR::Jno { dest } => holds(Condition::NotOverflow, s.flags),
        IR::Jp { dest } => holds(Condition::Parity, s.flags),
        IR::Jnp { dest } => holds(Condition::NotParity, s.flags),
        IR::Loop { dest } => s.regs.cx != 1,
        IR::Loopz { dest } => s.regs.cx != 1 && s.flags.zero,
        IR::Loopnz { dest } => s.regs.cx != 1 && !s.flags.zero,
        IR::Jcxz { dest } => s.regs.cx == 0,
        _ => false,
    }
}

/// A short branch decoded at offset `p` and taken goes to `p + 2` plus
/// its displacement byte read as signed, modulo 2^16; one not taken
/// leaves the instruction pointer.
#[verifier::rlimit(50)]
pub proof fn lemma_short_branch(bytes: Seq<u8>, p: int, s: VmState, ir: IR, n: int)
    requires
        decode(bytes, p) == Ok::<(IR, int), DisassemblerError>((ir, n)),
        short_branch(bytes[0], short_target(bytes, p)) is Some,
    ensures
        n == 2,
        short_branch(bytes[0], short_target(bytes, p)) == Some(ir),
        taken(s, ir) ==> execute(s, ir).state.ip == u16_of(p + 2 + i8_of(bytes[1] as int)),
        !taken(s, ir) ==> execute(s, ir).state.ip == s.ip,
        execute(s, ir).result is Ok,
{
    reveal(decode);
    reveal(execute);
    reveal(VmState::value_of);
    reveal(VmState::after_read);
    lemma_word_of(p + 2 + i8_of(bytes[1] as int));
}

/// A near jump or call decoded at offset `p` goes to `p + 3` plus its
/// displacement word read as signed, modulo 2^16.
#[verifier::rlimit(50)]
pub proof fn lemma_near_branch(bytes: Seq<u8>, p: int, s: VmState, ir: IR, n: int)
    requires
        decode(bytes, p) == Ok::<(IR, int), DisassemblerError>((ir, n)),
        bytes[0] == 0xE8 || bytes[0] == 0xE9,
    ensures
        n == 3,
        execute(s, ir).state.ip == u16_of(
            p + 3 + i16_of(le_word(bytes[1], bytes[2]) as int),
        ),
        execute(s, ir).result is Ok,
{
    reveal(decode);
    reveal(execute);
    reveal(VmState::value_of);
    reveal(VmState::after_read);
    reveal(VmState::store);
    reveal(VmState::note);
    reveal(VmState::emit);
    lemma_word_of(p + 3 + i16_of(le_word(bytes[1], bytes[2]) as int));
}

} // verus!
