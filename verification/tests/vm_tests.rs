use minix2_rs::interpreter::{
    Flag, Interpretable, InterpreterError, OpcodeExecErrors, VM,
};
use minix2_rs::minix::Program;
use minix2_rs::x86::{Address, Displacement, Operand, Register, IR};

fn hello_binary() -> Vec<u8> {
    vec![
        // Header part
        0x01, 0x03, 0x20, 0x04, 0x20, 0x00, 0x00, 0x00, 0x10, 0x00, 0x00, 0x00, 0x26, 0x00,
        0x00, 0x00, 0x00, 0x00, 0x00, 0x00, 0x00, 0x00, 0x00, 0x00, 0x00, 0x00, 0x01, 0x00,
        0x70, 0x00, 0x00, 0x00, // Text part (0x10 bytes)
        0xbb, 0x00, 0x00, 0xcd, 0x20, 0xbb, 0x10, 0x00, 0xcd, 0x20, 0x00, 0x00, 0x00, 0x00,
        0x00, 0x00, // Data part (0x26 bytes)
        0x01, 0x00, 0x04, 0x00, 0x01, 0x00, 0x06, 0x00, 0x00, 0x00, 0x20, 0x00, 0x00, 0x00,
        0x00, 0x00, 0x01, 0x00, 0x01, 0x00, 0x00, 0x00, 0x00, 0x00, 0x00, 0x00, 0x00, 0x00,
        0x00, 0x00, 0x00, 0x00, 0x68, 0x65, 0x6c, 0x6c, 0x6f, 0x0a,
    ]
}

fn machine(text: &[u8]) -> VM {
    let mut binary = vec![0u8; 32];
    binary[8] = text.len() as u8;
    binary.extend_from_slice(text);
    VM::from(Program::from_bytes(&binary).unwrap())
}

fn reg(r: Register) -> Operand {
    Operand::Register(r)
}

fn at(address: u16) -> Operand {
    Operand::MemoryAddress(Address::from_word_imm(address))
}

#[test]
fn hello_world_writes_to_standard_output() {
    let program = Program::from_bytes(&hello_binary()).unwrap();
    let run = program.interpret(false, vec!["hello".to_string()]);
    assert_eq!(run.result, Ok(()));
    assert_eq!(run.output, b"hello\n".to_vec());
}

#[test]
fn hello_world_trace() {
    let program = Program::from_bytes(&hello_binary()).unwrap();
    let run = program.interpret(true, vec!["hello".to_string()]);
    assert_eq!(run.result, Ok(()));
    let trace = String::from_utf8(run.output).unwrap();
    let expected = concat_lines(&[
        " AX   BX   CX   DX   SP   BP   SI   DI  FLAGS IP",
        "0000 0000 0000 0000 ffce 0000 0000 0000 ---- 0000:bb0000       mov bx, 0000",
        "0000 0000 0000 0000 ffce 0000 0000 0000 ---- 0003:cd20         int 20",
        "<write(1, 0x0020, 6)hello",
        " => 6>",
        "0000 0000 0000 0000 ffce 0000 0000 0000 ---- 0005:bb1000       mov bx, 0010",
        "0000 0010 0000 0000 ffce 0000 0000 0000 ---- 0008:cd20         int 20",
        "<exit(0)>",
    ]);
    assert_eq!(trace, expected);
    assert!(trace.contains("<write(1, 0x0020, 6)hello\n => 6>"));
}

fn concat_lines(lines: &[&str]) -> String {
    let mut all = String::new();
    for line in lines {
        all.push_str(line);
        all.push('\n');
    }
    all
}

#[test]
fn mov_to_low_half_keeps_high_half() {
    let mut vm = VM::default();
    vm.regs.set(Register::AX, 0x1234);
    assert_eq!(
        vm.execute(IR::Mov {
            dest: reg(Register::AL),
            src: Operand::Immediate(0x78),
            byte: true
        }),
        Ok(())
    );
    assert_eq!(vm.regs.get(Register::AL), 0x78);
    assert_eq!(vm.regs.get(Register::AH), 0x12);
    assert_eq!(vm.regs.get(Register::AX), 0x1278);
}

#[test]
fn mov_to_high_half_keeps_low_half() {
    let mut vm = VM::default();
    vm.regs.set(Register::BX, 0x1234);
    assert_eq!(vm.mov(reg(Register::BH), Operand::Immediate(0xAB), true), Ok(()));
    assert_eq!(vm.regs.get(Register::BX), 0xAB34);
}

#[test]
fn initial_state_of_a_program() {
    let vm = VM::from(Program::from_bytes(&hello_binary()).unwrap());
    assert_eq!(vm.ip, 0);
    assert_eq!(vm.regs.get(Register::SP), 0xFFDA);
    assert_eq!(vm.data.len(), 0x10000);
    assert_eq!(vm.data.read_word(0xFFDA), 0x0001);
    assert_eq!(vm.data.read_word(0xFFDC), 0xFFE4);
    assert_eq!(vm.data.read_bytes(0x20, 6), b"hello\n");
    assert_eq!(vm.data.read(0x26), 0);
    assert_eq!(vm.text.len(), 16);
    assert!(!vm.trace);
    assert!(vm.out.is_empty());
}

#[test]
fn arguments_on_the_stack() {
    let mut vm = VM::default();
    vm.regs.set(Register::SP, 0xFFDA);
    vm.set_args(vec!["ab".to_string(), "c".to_string()]);
    // "ab\0" stands just below the initial stack pointer, "c\0" below it
    assert_eq!(vm.data.read_bytes(0xFFD7, 3), b"ab\0");
    assert_eq!(vm.data.read_bytes(0xFFD5, 2), b"c\0");
    let sp = vm.regs.get(Register::SP);
    assert_eq!(sp, 0xFFD5 - 8);
    assert_eq!(vm.data.read_word(sp), 2);
    assert_eq!(vm.data.read_word(sp + 2), 0xFFD5);
    assert_eq!(vm.data.read_word(sp + 4), 0xFFD7);
    assert_eq!(vm.data.read_word(sp + 6), 0);
}

#[test]
fn no_arguments_on_the_stack() {
    let mut vm = VM::default();
    vm.regs.set(Register::SP, 0xFFDA);
    vm.set_args(vec![]);
    assert_eq!(vm.regs.get(Register::SP), 0xFFD6);
    assert_eq!(vm.data.read_word(0xFFD6), 0);
    assert_eq!(vm.data.read_word(0xFFD8), 0);
}

#[test]
fn push_then_pop_restores_the_stack_pointer() {
    for v in [0u16, 1, 0x7FFF, 0x8000, 0xFFFF] {
        let mut vm = VM::default();
        vm.regs.set(Register::SP, 0x1000);
        assert_eq!(vm.push(Operand::LongImmediate(v)), Ok(()));
        assert_eq!(vm.regs.get(Register::SP), 0x0FFE);
        assert_eq!(vm.data.read_word(0x0FFE), v);
        assert_eq!(vm.pop(reg(Register::DX)), Ok(()));
        assert_eq!(vm.regs.get(Register::SP), 0x1000);
        assert_eq!(vm.regs.get(Register::DX), v);
    }
}

#[test]
fn stack_wraps_around_the_end_of_memory() {
    let mut vm = VM::default();
    vm.regs.set(Register::SP, 0x0001);
    assert_eq!(vm.push(Operand::LongImmediate(0xBEEF)), Ok(()));
    assert_eq!(vm.regs.get(Register::SP), 0xFFFF);
    assert_eq!(vm.data.read(0xFFFF), 0xEF);
    assert_eq!(vm.data.read(0x0000), 0xBE);
    assert_eq!(vm.pop(reg(Register::AX)), Ok(()));
    assert_eq!(vm.regs.get(Register::AX), 0xBEEF);
    assert_eq!(vm.regs.get(Register::SP), 0x0001);
}

#[test]
fn add_sets_flags() {
    let mut vm = VM::default();
    vm.regs.set(Register::AX, 0x0001);
    assert_eq!(vm.add(reg(Register::AX), Operand::LongImmediate(0x0002)), Ok(()));
    assert_eq!(vm.regs.get(Register::AX), 3);
    assert!(!vm.flags.get(Flag::Overflow));
    assert!(!vm.flags.get(Flag::Carry));
    assert!(!vm.flags.get(Flag::Zero));
    assert!(!vm.flags.get(Flag::Sign));
    assert!(vm.flags.get(Flag::Parity));
    assert!(!vm.flags.get(Flag::Aux));

    vm.regs.set(Register::AX, 0x7FFF);
    assert_eq!(vm.add(reg(Register::AX), Operand::LongImmediate(1)), Ok(()));
    assert_eq!(vm.regs.get(Register::AX), 0x8000);
    assert!(vm.flags.get(Flag::Overflow));
    assert!(vm.flags.get(Flag::Carry));
    assert!(vm.flags.get(Flag::Sign));
    assert!(vm.flags.get(Flag::Aux));
    assert!(!vm.flags.get(Flag::Parity));
}

#[test]
fn adc_and_sbb_take_the_carry() {
    let mut vm = VM::default();
    vm.flags.set(Flag::Carry, true);
    vm.regs.set(Register::AX, 5);
    assert_eq!(vm.adc(reg(Register::AX), Operand::Immediate(2)), Ok(()));
    assert_eq!(vm.regs.get(Register::AX), 8);
    vm.flags.set(Flag::Carry, true);
    assert_eq!(vm.sbb(reg(Register::AX), Operand::Immediate(2)), Ok(()));
    assert_eq!(vm.regs.get(Register::AX), 5);
    vm.flags.set(Flag::Carry, false);
    assert_eq!(vm.sbb(reg(Register::AX), Operand::Immediate(2)), Ok(()));
    assert_eq!(vm.regs.get(Register::AX), 3);
}

#[test]
fn sub_of_equal_values() {
    let mut vm = VM::default();
    vm.regs.set(Register::BX, 0x1234);
    vm.regs.set(Register::CX, 0x1234);
    assert_eq!(vm.sub(reg(Register::BX), reg(Register::CX)), Ok(()));
    assert_eq!(vm.regs.get(Register::BX), 0);
    assert!(vm.flags.get(Flag::Zero));
    assert!(!vm.flags.get(Flag::Sign));
    assert!(!vm.flags.get(Flag::Carry));
    assert!(!vm.flags.get(Flag::Overflow));
}

#[test]
fn cmp_leaves_the_operands() {
    let mut vm = VM::default();
    vm.regs.set(Register::AX, 5);
    assert_eq!(vm.cmp(reg(Register::AX), Operand::Immediate(3), false), Ok(()));
    assert_eq!(vm.regs.get(Register::AX), 5);
    assert!(vm.flags.get(Flag::Carry));
    assert!(!vm.flags.get(Flag::Zero));
    assert_eq!(vm.cmp(reg(Register::AX), Operand::Immediate(9), false), Ok(()));
    assert!(!vm.flags.get(Flag::Carry));
    assert!(vm.flags.get(Flag::Sign));
}

#[test]
fn byte_wide_cmp_and_test_look_at_the_low_byte() {
    let mut vm = VM::default();
    vm.data.write_word(0x100, 0x1241);
    assert_eq!(vm.cmp(at(0x100), Operand::Immediate(0x41), true), Ok(()));
    assert!(vm.flags.get(Flag::Zero));
    assert_eq!(vm.cmp(at(0x100), Operand::Immediate(0x41), false), Ok(()));
    assert!(!vm.flags.get(Flag::Zero));
    assert_eq!(vm.test(at(0x100), Operand::LongImmediate(0xFF00), true), Ok(()));
    assert!(vm.flags.get(Flag::Zero));
    assert_eq!(vm.test(at(0x100), Operand::LongImmediate(0xFF00), false), Ok(()));
    assert!(!vm.flags.get(Flag::Zero));
    assert_eq!(vm.data.read_word(0x100), 0x1241);
}

#[test]
fn logic_clears_carry_and_overflow() {
    let mut vm = VM::default();
    vm.flags.set(Flag::Carry, true);
    vm.flags.set(Flag::Overflow, true);
    vm.regs.set(Register::AX, 0xF0F0);
    assert_eq!(vm.and(reg(Register::AX), Operand::LongImmediate(0x0FF0)), Ok(()));
    assert_eq!(vm.regs.get(Register::AX), 0x00F0);
    assert!(!vm.flags.get(Flag::Carry));
    assert!(!vm.flags.get(Flag::Overflow));
    assert!(vm.flags.get(Flag::Parity));

    vm.flags.set(Flag::Carry, true);
    assert_eq!(vm.or(reg(Register::AX), Operand::LongImmediate(0x8000)), Ok(()));
    assert_eq!(vm.regs.get(Register::AX), 0x80F0);
    assert!(vm.flags.get(Flag::Sign));
    assert!(!vm.flags.get(Flag::Carry));

    vm.flags.set(Flag::Overflow, true);
    assert_eq!(vm.xor(reg(Register::AX), reg(Register::AX)), Ok(()));
    assert_eq!(vm.regs.get(Register::AX), 0);
    assert!(vm.flags.get(Flag::Zero));
    assert!(!vm.flags.get(Flag::Overflow));
}

#[test]
fn inc_dec_neg_not() {
    let mut vm = VM::default();
    vm.flags.set(Flag::Carry, true);
    vm.regs.set(Register::CX, 0xFFFF);
    assert_eq!(vm.inc(reg(Register::CX)), Ok(()));
    assert_eq!(vm.regs.get(Register::CX), 0);
    assert!(vm.flags.get(Flag::Zero));
    assert!(vm.flags.get(Flag::Carry));
    assert_eq!(vm.dec(reg(Register::CX)), Ok(()));
    assert_eq!(vm.regs.get(Register::CX), 0xFFFF);
    assert!(vm.flags.get(Flag::Sign));
    vm.regs.set(Register::CX, 5);
    assert_eq!(vm.neg(reg(Register::CX)), Ok(()));
    assert_eq!(vm.regs.get(Register::CX), 0xFFFB);
    assert!(vm.flags.get(Flag::Carry));
    assert!(!vm.flags.get(Flag::Overflow));
    vm.regs.set(Register::CX, 0x8000);
    assert_eq!(vm.neg(reg(Register::CX)), Ok(()));
    assert_eq!(vm.regs.get(Register::CX), 0x8000);
    assert!(vm.flags.get(Flag::Overflow));
    vm.regs.set(Register::CX, 0);
    assert_eq!(vm.neg(reg(Register::CX)), Ok(()));
    assert!(!vm.flags.get(Flag::Carry));
    vm.regs.set(Register::CX, 0x00FF);
    assert_eq!(vm.not(reg(Register::CX)), Ok(()));
    assert_eq!(vm.regs.get(Register::CX), 0xFF00);
}

#[test]
fn shifts() {
    let mut vm = VM::default();
    vm.regs.set(Register::BX, 0x8001);
    assert_eq!(vm.shl(reg(Register::BX), Operand::Immediate(1)), Ok(()));
    assert_eq!(vm.regs.get(Register::BX), 0x0002);
    assert!(vm.flags.get(Flag::Carry));
    assert!(vm.flags.get(Flag::Overflow));
    assert_eq!(vm.shr(reg(Register::BX), Operand::Immediate(2)), Ok(()));
    assert_eq!(vm.regs.get(Register::BX), 0);
    assert!(vm.flags.get(Flag::Carry));
    assert!(vm.flags.get(Flag::Zero));
    vm.regs.set(Register::BX, 0x8004);
    vm.regs.set(Register::CX, 2);
    assert_eq!(vm.sar(reg(Register::BX), reg(Register::CL)), Ok(()));
    assert_eq!(vm.regs.get(Register::BX), 0xE001);
    assert!(!vm.flags.get(Flag::Carry));
    assert!(vm.flags.get(Flag::Sign));
    vm.regs.set(Register::BX, 0x8004);
    assert_eq!(vm.sar(reg(Register::BX), Operand::Immediate(16)), Ok(()));
    assert_eq!(vm.regs.get(Register::BX), 0xFFFF);
    assert!(vm.flags.get(Flag::Carry));
    vm.regs.set(Register::BX, 0x0001);
    assert_eq!(vm.shl(reg(Register::BX), Operand::Immediate(16)), Ok(()));
    assert_eq!(vm.regs.get(Register::BX), 0);
    assert!(vm.flags.get(Flag::Carry));
    vm.regs.set(Register::BX, 0xFFFF);
    assert_eq!(vm.shr(reg(Register::BX), Operand::Immediate(17)), Ok(()));
    assert_eq!(vm.regs.get(Register::BX), 0);
    assert!(!vm.flags.get(Flag::Carry));
}

#[test]
fn rotates() {
    let mut vm = VM::default();
    vm.regs.set(Register::BX, 0x8001);
    assert_eq!(vm.rol(reg(Register::BX), Operand::Immediate(1)), Ok(()));
    assert_eq!(vm.regs.get(Register::BX), 0x0003);
    assert!(vm.flags.get(Flag::Carry));
    assert!(vm.flags.get(Flag::Overflow));
    assert_eq!(vm.ror(reg(Register::BX), Operand::Immediate(1)), Ok(()));
    assert_eq!(vm.regs.get(Register::BX), 0x8001);
    assert!(vm.flags.get(Flag::Carry));
    vm.flags.set(Flag::Carry, false);
    assert_eq!(vm.rcl(reg(Register::BX), Operand::Immediate(1)), Ok(()));
    assert_eq!(vm.regs.get(Register::BX), 0x0002);
    assert!(vm.flags.get(Flag::Carry));
    assert_eq!(vm.rcr(reg(Register::BX), Operand::Immediate(1)), Ok(()));
    assert_eq!(vm.regs.get(Register::BX), 0x8001);
    assert!(!vm.flags.get(Flag::Carry));
    vm.regs.set(Register::CX, 16);
    assert_eq!(vm.rol(reg(Register::BX), reg(Register::CL)), Ok(()));
    assert_eq!(vm.regs.get(Register::BX), 0x8001);
    vm.regs.set(Register::CX, 17);
    vm.flags.set(Flag::Carry, true);
    assert_eq!(vm.rcl(reg(Register::BX), reg(Register::CL)), Ok(()));
    assert_eq!(vm.regs.get(Register::BX), 0x8001);
    assert!(vm.flags.get(Flag::Carry));
}

#[test]
fn multiplication() {
    let mut vm = VM::default();
    vm.regs.set(Register::AX, 0x1000);
    vm.regs.set(Register::BX, 0x0100);
    assert_eq!(vm.mul(reg(Register::BX)), Ok(()));
    assert_eq!(vm.regs.get(Register::AX), 0x0000);
    assert_eq!(vm.regs.get(Register::DX), 0x0010);
    assert!(vm.flags.get(Flag::Carry));
    assert!(vm.flags.get(Flag::Overflow));

    vm.regs.set(Register::AX, 0xFFFF);
    vm.regs.set(Register::BX, 2);
    assert_eq!(vm.imul(reg(Register::BX)), Ok(()));
    assert_eq!(vm.regs.get(Register::AX), 0xFFFE);
    assert_eq!(vm.regs.get(Register::DX), 0xFFFF);

    vm.regs.set(Register::AX, 0x0310);
    vm.regs.set(Register::BX, 0x0010);
    assert_eq!(vm.mul(reg(Register::BL)), Ok(()));
    assert_eq!(vm.regs.get(Register::AX), 0x0100);
    assert!(vm.flags.get(Flag::Carry));
    vm.regs.set(Register::AX, 0x0003);
    assert_eq!(vm.mul(reg(Register::BL)), Ok(()));
    assert_eq!(vm.regs.get(Register::AX), 0x0030);
    assert!(!vm.flags.get(Flag::Carry));

    vm.regs.set(Register::AX, 0x00FF);
    vm.regs.set(Register::BX, 0x0002);
    assert_eq!(vm.imul(reg(Register::BL)), Ok(()));
    assert_eq!(vm.regs.get(Register::AX), 0xFFFE);
}

#[test]
fn division() {
    let mut vm = VM::default();
    vm.regs.set(Register::DX, 0x0001);
    vm.regs.set(Register::AX, 0x0005);
    vm.regs.set(Register::BX, 0x0010);
    assert_eq!(vm.div(reg(Register::BX)), Ok(()));
    assert_eq!(vm.regs.get(Register::AX), 0x1000);
    assert_eq!(vm.regs.get(Register::DX), 0x0005);

    vm.regs.set(Register::BX, 0);
    assert_eq!(vm.div(reg(Register::BX)), Err(OpcodeExecErrors::DivideError));
    assert_eq!(vm.regs.get(Register::AX), 0x1000);

    vm.regs.set(Register::DX, 0x0010);
    vm.regs.set(Register::BX, 0x0002);
    assert_eq!(vm.div(reg(Register::BX)), Err(OpcodeExecErrors::DivideError));

    vm.regs.set(Register::DX, 0xFFFF);
    vm.regs.set(Register::AX, 0xFFF9);
    vm.regs.set(Register::BX, 2);
    assert_eq!(vm.idiv(reg(Register::BX)), Ok(()));
    assert_eq!(vm.regs.get(Register::AX), 0xFFFD);
    assert_eq!(vm.regs.get(Register::DX), 0xFFFF);

    vm.regs.set(Register::DX, 0x0000);
    vm.regs.set(Register::AX, 0x0007);
    vm.regs.set(Register::BX, 0xFFFE);
    assert_eq!(vm.idiv(reg(Register::BX)), Ok(()));
    assert_eq!(vm.regs.get(Register::AX), 0xFFFD);
    assert_eq!(vm.regs.get(Register::DX), 0x0001);

    vm.regs.set(Register::DX, 0x0000);
    vm.regs.set(Register::AX, 0x8000);
    vm.regs.set(Register::BX, 1);
    assert_eq!(vm.idiv(reg(Register::BX)), Err(OpcodeExecErrors::DivideError));
    vm.regs.set(Register::BX, 0);
    assert_eq!(vm.idiv(reg(Register::BX)), Err(OpcodeExecErrors::DivideError));
}

#[test]
fn sign_extensions() {
    let mut vm = VM::default();
    vm.regs.set(Register::AX, 0x1280);
    assert_eq!(vm.cbw(), Ok(()));
    assert_eq!(vm.regs.get(Register::AX), 0xFF80);
    assert_eq!(vm.cwd(), Ok(()));
    assert_eq!(vm.regs.get(Register::DX), 0xFFFF);
    vm.regs.set(Register::AX, 0x127F);
    assert_eq!(vm.cbw(), Ok(()));
    assert_eq!(vm.regs.get(Register::AX), 0x007F);
    assert_eq!(vm.cwd(), Ok(()));
    assert_eq!(vm.regs.get(Register::DX), 0);
}

#[test]
fn call_and_ret() {
    let mut vm = VM::default();
    vm.regs.set(Register::SP, 0x2000);
    vm.ip = 0x0103;
    assert_eq!(
        vm.call(Operand::Displacement(Displacement::Long(0x0200))),
        Ok(())
    );
    assert_eq!(vm.ip, 0x0200);
    assert_eq!(vm.regs.get(Register::SP), 0x1FFE);
    assert_eq!(vm.data.read_word(0x1FFE), 0x0103);
    assert_eq!(vm.ret(Some(Operand::LongImmediate(4))), Ok(()));
    assert_eq!(vm.ip, 0x0103);
    assert_eq!(vm.regs.get(Register::SP), 0x2004);
    vm.regs.set(Register::SP, 0x1FFE);
    assert_eq!(vm.ret(None), Ok(()));
    assert_eq!(vm.regs.get(Register::SP), 0x2000);
    assert_eq!(
        vm.ret(Some(reg(Register::AX))),
        Err(OpcodeExecErrors::InvalidOperand)
    );
}

#[test]
fn conditional_jumps() {
    let target = Operand::Displacement(Displacement::Long(0x0040));
    let mut vm = VM::default();
    assert_eq!(vm.je(target), Ok(()));
    assert_eq!(vm.ip, 0);
    assert_eq!(vm.jne(target), Ok(()));
    assert_eq!(vm.ip, 0x40);
    vm.ip = 0;
    vm.flags.set(Flag::Sign, true);
    assert_eq!(vm.jnl(target), Ok(()));
    assert_eq!(vm.ip, 0);
    assert_eq!(vm.jl(target), Ok(()));
    assert_eq!(vm.ip, 0x40);
    vm.ip = 0;
    assert_eq!(vm.jnle(target), Ok(()));
    assert_eq!(vm.ip, 0);
    assert_eq!(vm.jle(target), Ok(()));
    assert_eq!(vm.ip, 0x40);
    vm.ip = 0;
    assert_eq!(vm.jb(target), Ok(()));
    assert_eq!(vm.jbe(target), Ok(()));
    assert_eq!(vm.jo(target), Ok(()));
    assert_eq!(vm.jp(target), Ok(()));
    assert_eq!(vm.jns(target), Ok(()));
    assert_eq!(vm.ip, 0);
    assert_eq!(vm.jnbe(target), Ok(()));
    assert_eq!(vm.ip, 0x40);
    vm.ip = 0;
    assert_eq!(vm.jnb(target), Ok(()));
    assert_eq!(vm.ip, 0x40);
    vm.ip = 0;
    assert_eq!(vm.js(target), Ok(()));
    assert_eq!(vm.ip, 0x40);
    vm.ip = 0;
    assert_eq!(vm.jno(target), Ok(()));
    assert_eq!(vm.ip, 0x40);
    vm.ip = 0;
    assert_eq!(vm.jnp(target), Ok(()));
    assert_eq!(vm.ip, 0x40);
    vm.ip = 0;
    assert_eq!(vm.jmp(reg(Register::SP)), Ok(()));
    assert_eq!(vm.ip, 0);
    assert_eq!(vm.jcxz(target), Ok(()));
    assert_eq!(vm.ip, 0x40);
}

#[test]
fn loops() {
    let target = Operand::Displacement(Displacement::Long(0x0040));
    let mut vm = VM::default();
    vm.regs.set(Register::CX, 2);
    assert_eq!(vm.loop_(target), Ok(()));
    assert_eq!(vm.ip, 0x40);
    assert_eq!(vm.regs.get(Register::CX), 1);
    vm.ip = 0;
    assert_eq!(vm.loop_(target), Ok(()));
    assert_eq!(vm.ip, 0);
    assert_eq!(vm.regs.get(Register::CX), 0);
    assert_eq!(vm.loop_(target), Ok(()));
    assert_eq!(vm.ip, 0x40);
    assert_eq!(vm.regs.get(Register::CX), 0xFFFF);
    vm.ip = 0;
    assert_eq!(vm.loopz(target), Ok(()));
    assert_eq!(vm.ip, 0);
    assert_eq!(vm.loopnz(target), Ok(()));
    assert_eq!(vm.ip, 0x40);
    vm.ip = 0;
    vm.flags.set(Flag::Zero, true);
    assert_eq!(vm.loopnz(target), Ok(()));
    assert_eq!(vm.ip, 0);
    assert_eq!(vm.loopz(target), Ok(()));
    assert_eq!(vm.ip, 0x40);
}

#[test]
fn lea_xchg_in() {
    let mut vm = VM::default();
    vm.regs.set(Register::BX, 0x1000);
    vm.regs.set(Register::SI, 0x0020);
    let address = Address::new(
        Some(Register::BX),
        Some(Register::SI),
        Some(Displacement::Long(-2)),
    );
    assert_eq!(
        vm.lea(reg(Register::DX), Operand::MemoryAddress(address)),
        Ok(())
    );
    assert_eq!(vm.regs.get(Register::DX), 0x101E);
    assert_eq!(
        vm.lea(reg(Register::DX), reg(Register::AX)),
        Err(OpcodeExecErrors::InvalidOperand)
    );
    vm.data.write_word(0x101E, 0xAAAA);
    assert_eq!(
        vm.xchg(Operand::MemoryAddress(address), reg(Register::BX)),
        Ok(())
    );
    assert_eq!(vm.regs.get(Register::BX), 0xAAAA);
    assert_eq!(vm.data.read_word(0x101E), 0x1000);
    assert_eq!(
        vm.xchg(reg(Register::BX), Operand::Immediate(1)),
        Err(OpcodeExecErrors::InvalidOperand)
    );
    assert_eq!(vm.in_(reg(Register::AX), reg(Register::DX)), Ok(()));
    assert_eq!(vm.regs.get(Register::AX), 0x42);
}

#[test]
fn flag_instructions() {
    let mut vm = VM::default();
    assert_eq!(vm.stc(), Ok(()));
    assert!(vm.flags.get(Flag::Carry));
    assert_eq!(vm.cmc(), Ok(()));
    assert!(!vm.flags.get(Flag::Carry));
    assert_eq!(vm.cmc(), Ok(()));
    assert_eq!(vm.clc(), Ok(()));
    assert!(!vm.flags.get(Flag::Carry));
    assert_eq!(vm.std_(), Ok(()));
    assert!(vm.flags.get(Flag::Direction));
    assert_eq!(vm.cld(), Ok(()));
    assert!(!vm.flags.get(Flag::Direction));
    assert_eq!(vm.sti(), Ok(()));
    assert!(vm.flags.get(Flag::Interrupt));
    assert_eq!(vm.cli(), Ok(()));
    assert!(!vm.flags.get(Flag::Interrupt));
}

#[test]
fn writing_to_an_immediate_is_refused() {
    let mut vm = VM::default();
    assert_eq!(
        vm.mov(Operand::LongImmediate(0x10), reg(Register::AX), false),
        Err(OpcodeExecErrors::InvalidOperand)
    );
    assert_eq!(
        vm.add(Operand::Immediate(1), reg(Register::AX)),
        Err(OpcodeExecErrors::InvalidOperand)
    );
    assert_eq!(
        vm.write_value(&Operand::Immediate(1), 5),
        Err(OpcodeExecErrors::InvalidOperand)
    );
    assert_eq!(
        vm.pop(Operand::Immediate(1)),
        Err(OpcodeExecErrors::InvalidOperand)
    );
}

#[test]
fn memory_operands_are_noted_in_the_trace() {
    let mut vm = VM::default();
    vm.set_trace(true);
    vm.data.write_word(0x0010, 0x1234);
    assert_eq!(vm.read_value(&at(0x0010)), 0x1234);
    assert_eq!(vm.out, b" ;[0010]1234".to_vec());
    assert_eq!(vm.write_value(&at(0x0010), 0xFFFF), Ok(()));
    assert_eq!(vm.out, b" ;[0010]1234 ;[0010]1234".to_vec());
    assert_eq!(vm.read_value(&at(0x0010)), -1);
    assert_eq!(vm.take_output(), b" ;[0010]1234 ;[0010]1234 ;[0010]ffff".to_vec());
    assert!(vm.out.is_empty());
}

#[test]
fn system_calls() {
    let mut vm = VM::default();
    vm.regs.set(Register::BX, 0x0100);
    vm.regs.set(Register::AX, 0x5555);
    // brk
    vm.data.write_word(0x0102, 17);
    vm.data.write_word(0x010A, 0x2000);
    assert_eq!(vm.int_(0x20), Ok(()));
    assert_eq!(vm.data.read_word(0x0102), 0);
    assert_eq!(vm.regs.get(Register::AX), 0x5555);
    // ioctl
    vm.data.write_word(0x0102, 54);
    assert_eq!(vm.int_(0x20), Ok(()));
    assert_eq!(vm.data.read_word(0x0102), 0xFFEA);
    assert_eq!(vm.regs.get(Register::AX), 0);
    // write
    vm.regs.set(Register::AX, 0x5555);
    vm.data.write_word(0x0102, 4);
    vm.data.write_word(0x0104, 1);
    vm.data.write_word(0x0106, 3);
    vm.data.write_word(0x010A, 0xFFFE);
    vm.data.write_bytes(0xFFFE, b"ab");
    vm.data.write_bytes(0x0000, b"c");
    assert_eq!(vm.int_(0x20), Ok(()));
    assert_eq!(vm.data.read_word(0x0102), 3);
    assert_eq!(vm.regs.get(Register::AX), 0);
    assert_eq!(vm.out, b"abc".to_vec());
    // exit
    vm.data.write_word(0x0102, 1);
    assert_eq!(vm.int_(0x20), Err(OpcodeExecErrors::ExitCatch));
    // anything else
    vm.data.write_word(0x0102, 2);
    assert_eq!(
        vm.int_(0x20),
        Err(OpcodeExecErrors::UnimplementedSyscall(2))
    );
    assert_eq!(
        vm.int_(0x21),
        Err(OpcodeExecErrors::UnimplementedInterrupt(0x21))
    );
}

#[test]
fn system_calls_in_the_trace() {
    let mut vm = VM::default();
    vm.set_trace(true);
    vm.regs.set(Register::BX, 0x0100);
    vm.data.write_word(0x0102, 17);
    vm.data.write_word(0x010A, 0x2000);
    assert_eq!(vm.int_(0x20), Ok(()));
    assert_eq!(vm.take_output(), b"\n<brk(0x2000) => 0>".to_vec());
    vm.data.write_word(0x0102, 54);
    vm.data.write_word(0x0104, 1);
    vm.data.write_word(0x0108, 0x7408);
    vm.data.write_word(0x0112, 0xFFC0);
    assert_eq!(vm.int_(0x20), Ok(()));
    assert_eq!(vm.take_output(), b"\n<ioctl(1, 0x7408, 0xffc0)>".to_vec());
    vm.data.write_word(0x0102, 1);
    vm.data.write_word(0x0104, 3);
    assert_eq!(vm.int_(0x20), Err(OpcodeExecErrors::ExitCatch));
    assert_eq!(vm.take_output(), b"\n<exit(3)>".to_vec());
}

#[test]
fn run_ends_at_hlt() {
    // mov ax, 0005 ; hlt ; mov ax, 0006
    let mut vm = machine(&[0xB8, 0x05, 0x00, 0xF4, 0xB8, 0x06, 0x00]);
    assert_eq!(vm.run(), Ok(()));
    assert_eq!(vm.regs.get(Register::AX), 5);
    assert_eq!(vm.ip, 3);
    assert_eq!(vm.cycles, 1);
}

#[test]
fn run_ends_past_the_code() {
    // inc ax ; inc ax
    let mut vm = machine(&[0x40, 0x40]);
    assert_eq!(vm.run(), Ok(()));
    assert_eq!(vm.regs.get(Register::AX), 2);
    assert_eq!(vm.ip, 2);
    assert_eq!(vm.cycles, 2);
}

#[test]
fn run_stops_at_the_cycle_limit() {
    // jmp short 0000
    let mut vm = machine(&[0xEB, 0xFE]);
    assert_eq!(vm.run(), Err(InterpreterError::CycleLimitExceeded));
    assert_eq!(vm.cycles, 999_999);
    assert_eq!(vm.ip, 0);
}

#[test]
fn run_fails_on_bytes_that_are_no_instruction() {
    let mut vm = machine(&[0x40, 0x0F + 0x57]);
    assert_eq!(
        vm.run(),
        Err(InterpreterError::DecodeError(
            minix2_rs::disassembler::DisassemblerError::InvalidOpcode(0x66)
        ))
    );
    assert_eq!(vm.regs.get(Register::AX), 1);
    let mut vm = machine(&[0x40, 0xB8, 0x01]);
    assert_eq!(
        vm.run(),
        Err(InterpreterError::DecodeError(
            minix2_rs::disassembler::DisassemblerError::UnexpectedEOF
        ))
    );
}

#[test]
fn run_fails_where_an_instruction_fails() {
    // div bx
    let mut vm = machine(&[0xF7, 0xF3]);
    assert_eq!(
        vm.run(),
        Err(InterpreterError::OpcodeExecutionError(
            OpcodeExecErrors::DivideError
        ))
    );
    // int 21
    let mut vm = machine(&[0xCD, 0x21]);
    assert_eq!(
        vm.run(),
        Err(InterpreterError::OpcodeExecutionError(
            OpcodeExecErrors::UnimplementedInterrupt(0x21)
        ))
    );
}

#[test]
fn short_branch_lands_on_its_target() {
    // at offset 2: jmp short +3 -> 2 + 2 + 3 = 7 ; hlt at 7
    let mut vm = machine(&[0x40, 0x40, 0xEB, 0x03, 0x40, 0x40, 0x40, 0xF4]);
    assert_eq!(vm.run(), Ok(()));
    assert_eq!(vm.ip, 7);
    assert_eq!(vm.regs.get(Register::AX), 2);
    // at offset 1: jmp near +2 -> 1 + 3 + 2 = 6
    let mut vm = machine(&[0x40, 0xE9, 0x02, 0x00, 0x40, 0x40, 0xF4]);
    assert_eq!(vm.run(), Ok(()));
    assert_eq!(vm.ip, 6);
    assert_eq!(vm.regs.get(Register::AX), 1);
}

#[test]
fn trace_line_of_a_memory_operand() {
    // mov [0010], ax
    let mut vm = machine(&[0x89, 0x06, 0x10, 0x00]);
    vm.set_trace(true);
    vm.regs.set(Register::AX, 0xBEEF);
    assert_eq!(vm.run(), Ok(()));
    let trace = String::from_utf8(vm.take_output()).unwrap();
    assert_eq!(
        trace,
        " AX   BX   CX   DX   SP   BP   SI   DI  FLAGS IP\n\
         beef 0000 0000 0000 ffda 0000 0000 0000 ---- 0000:89061000     mov [0010], ax ;[0010]0000\n"
    );
    assert_eq!(vm.data.read_word(0x10), 0xBEEF);
}

#[test]
fn data_segment_larger_than_memory() {
    let mut binary = vec![0u8; 32];
    binary[12] = 0x01;
    binary[14] = 0x01; // data size 0x10001
    binary.extend(std::iter::repeat(0).take(0x10001));
    let program = Program::from_bytes(&binary).unwrap();
    let run = program.interpret(false, vec![]);
    assert_eq!(run.result, Err(InterpreterError::InvalidArgs));
    assert!(run.output.is_empty());
}

#[test]
fn run_error_messages() {
    assert_eq!(OpcodeExecErrors::ExitCatch.to_string(), "Exit catch");
    assert_eq!(
        OpcodeExecErrors::UnimplementedSyscall(12).to_string(),
        "Unimplemented syscall 12"
    );
    assert_eq!(
        OpcodeExecErrors::UnimplementedInterrupt(33).to_string(),
        "Unimplemented interrupt 33"
    );
    assert_eq!(OpcodeExecErrors::DivideError.to_string(), "Divide error");
    assert_eq!(OpcodeExecErrors::InvalidOperand.to_string(), "Invalid operand");
    assert_eq!(InterpreterError::InvalidArgs.to_string(), "Invalid arguments");
    assert_eq!(
        InterpreterError::CycleLimitExceeded.to_string(),
        "Cycle limit exceeded"
    );
    assert_eq!(
        InterpreterError::OpcodeExecutionError(OpcodeExecErrors::DivideError).to_string(),
        "Execution error: Divide error"
    );
    assert_eq!(
        InterpreterError::DecodeError(minix2_rs::disassembler::DisassemblerError::InvalidOpcode(
            0x0f
        ))
        .to_string(),
        "Decode error: Invalid opcode: 0x0f"
    );
}

#[test]
fn fetch_decode_execute_by_hand() {
    // add ax, 0003 ; hlt
    let mut vm = machine(&[0x05, 0x03, 0x00, 0xF4]);
    let chunk = vm.fetch().unwrap().to_vec();
    assert_eq!(chunk, vec![0x05, 0x03, 0x00, 0xF4]);
    let (ir, n) = vm.decode(&chunk).unwrap();
    assert_eq!(n, 3);
    assert_eq!(
        ir,
        IR::Add {
            dest: reg(Register::AX),
            src: Operand::LongImmediate(3)
        }
    );
    assert_eq!(vm.execute(ir), Ok(()));
    assert_eq!(vm.regs.get(Register::AX), 3);
    assert_eq!(vm.ip, 0);
    assert_eq!(vm.step(), None);
    assert_eq!(vm.regs.get(Register::AX), 6);
    assert_eq!(vm.ip, 3);
    assert_eq!(vm.cycles, 1);
    assert_eq!(vm.step(), Some(Ok(())));
    assert_eq!(vm.ip, 3);
    vm.ip = 4;
    assert!(vm.fetch().is_none());
    assert_eq!(vm.step(), Some(Ok(())));
}

#[test]
fn fetch_takes_at_most_fifteen_bytes() {
    let vm = machine(&[0x90; 40]);
    assert_eq!(vm.fetch().unwrap().len(), 15);
    let mut vm = machine(&[0x90; 40]);
    vm.ip = 30;
    assert_eq!(vm.fetch().unwrap().len(), 10);
    vm.ip = 40;
    assert!(vm.fetch().is_none());
    vm.ip = 0xFFFF;
    assert!(vm.fetch().is_none());
}

#[test]
fn instructions_without_a_meaning_change_nothing() {
    let mut vm = VM::default();
    vm.regs.set(Register::AX, 7);
    for ir in [
        IR::Hlt,
        IR::Wait,
        IR::Lock,
        IR::Aaa,
        IR::Das,
        IR::Movs { word: true },
        IR::Rep {
            z: true,
            string_ir: Box::new(IR::Stos { word: false }),
        },
        IR::Esc {
            dest: reg(Register::AX),
        },
        IR::Undefined,
    ] {
        assert_eq!(vm.execute(ir), Ok(()));
    }
    assert_eq!(vm.regs.get(Register::AX), 7);
    assert_eq!(vm.flags, minix2_rs::interpreter::FlagSet::new());
    assert_eq!(vm.ip, 0);
    assert!(vm.out.is_empty());
}

#[test]
fn byte_wide_mov_sign_extends() {
    let mut vm = VM::default();
    assert_eq!(vm.mov(at(0x100), Operand::Immediate(0x80), true), Ok(()));
    assert_eq!(vm.data.read_word(0x100), 0xFF80);
    assert_eq!(vm.mov(at(0x100), Operand::Immediate(0x41), true), Ok(()));
    assert_eq!(vm.data.read_word(0x100), 0x0041);
    assert_eq!(vm.mov(at(0x100), Operand::Immediate(0x80), false), Ok(()));
    assert_eq!(vm.data.read_word(0x100), 0x0080);
}

#[test]
fn the_same_run_with_and_without_trace() {
    let program = Program::from_bytes(&hello_binary()).unwrap();
    let quiet = program.interpret(false, vec![]);
    let program = Program::from_bytes(&hello_binary()).unwrap();
    let traced = program.interpret(true, vec!["a".to_string(), "-m".to_string()]);
    assert_eq!(quiet.result, traced.result);
    assert_eq!(quiet.output, b"hello\n".to_vec());
    let text = String::from_utf8(traced.output).unwrap();
    assert!(text.starts_with(" AX   BX   CX   DX   SP   BP   SI   DI  FLAGS IP\n"));
    assert!(text.ends_with("<exit(0)>\n"));
    assert_eq!(text.lines().count(), 8);
}

#[test]
fn dump_of_the_machine() {
    let mut vm = machine(&[0xF4]);
    vm.ip = 0x12;
    let dump = vm.to_string();
    assert!(dump.starts_with(
        "IP: 0012\nFLAGS: Zero: false\nSign: false\nParity: false\nCarry: false\n\
         Overflow: false\nDirection: false\nInterrupt: false\nTrap: false\nAux: false\n\n\
         TEXT:\n00000000   f4 DATA:\n00000000   00 00 00 00 00 00 00 00  00 00 00 00 00 00 00 00 \n"
    ));
    assert!(dump.ends_with(
        "0000fff0   00 00 00 00 00 00 00 00  00 00 00 00 00 00 00 00 \n\nREGS:\nAL: 0\nCL: 0\n\
         DL: 0\nBL: 0\nAH: 0\nCH: 0\nDH: 0\nBH: 0\nAX: 0\nCX: 0\nDX: 0\nBX: 0\nSP: ffda\nBP: 0\n\
         SI: 0\nDI: 0\n\n"
    ));
    assert!(dump.contains("0000ffd0   00 00 00 00 00 00 00 00  00 00 01 00 e4 ff 00 00 \n"));
}
