use minix2_rs::disassembler::parser_utils::{
    parse_accumulator, parse_disp_bytes, parse_dw_mod_reg_rm_bytes, parse_mod_reg_rm_bytes,
    parse_string_manipulation_ir_from, parse_word_disp_bytes, _parse_w_mod_reg_rm_bytes,
};
use minix2_rs::disassembler::{
    parse_instruction, Disassemblable, DisassembledProgram, DisassemblerError,
};
use minix2_rs::minix::Program;
use minix2_rs::x86::{Address, Displacement, Instruction, Operand, Register, IR};

fn program_with_text(text: &[u8]) -> Program {
    let mut binary = vec![0u8; 32];
    binary[8] = text.len() as u8;
    binary.extend_from_slice(text);
    Program::from_bytes(&binary).unwrap()
}

fn text_of(bytes: &[u8]) -> String {
    let (instruction, n) = parse_instruction(bytes, 0).unwrap();
    assert_eq!(n, bytes.len());
    instruction.ir.to_string()
}

#[test]
fn mov_immediate_line() {
    let (instruction, n) = parse_instruction(&[0xBB, 0xFF, 0x00], 0).unwrap();
    assert_eq!(n, 3);
    assert_eq!(
        instruction.ir,
        IR::Mov {
            dest: Operand::Register(Register::BX),
            src: Operand::LongImmediate(0x00FF),
            byte: false
        }
    );
    assert_eq!(instruction.raw, vec![0xBB, 0xFF, 0x00]);
    assert_eq!(instruction.to_string(), "bbff00        mov bx, 00ff");
    let listing = DisassembledProgram::new(vec![instruction], vec![]).to_string();
    assert_eq!(listing, "0000: bbff00        mov bx, 00ff\n");
}

#[test]
fn near_jump_target() {
    let (instruction, n) = parse_instruction(&[0xE9, 0x57, 0x02], 0).unwrap();
    assert_eq!(n, 3);
    assert_eq!(
        instruction.ir,
        IR::Jmp {
            dest: Operand::Displacement(Displacement::Long(0x025A)),
            short: false
        }
    );
    assert_eq!(instruction.ir.to_string(), "jmp 025a");
}

#[test]
fn branch_targets_follow_the_offset() {
    let (instruction, _) = parse_instruction(&[0x74, 0xFE], 0x0100).unwrap();
    assert_eq!(
        instruction.ir,
        IR::Je {
            dest: Operand::Displacement(Displacement::Long(0x0100))
        }
    );
    let (instruction, _) = parse_instruction(&[0xEB, 0x10], 0xFFFF).unwrap();
    assert_eq!(
        instruction.ir,
        IR::Jmp {
            dest: Operand::Displacement(Displacement::Long(0x0011)),
            short: true
        }
    );
    assert_eq!(instruction.ir.to_string(), "jmp short 0011");
    let (instruction, _) = parse_instruction(&[0xE8, 0xFD, 0xFF], 0x8000).unwrap();
    assert_eq!(
        instruction.ir,
        IR::Call {
            dest: Operand::Displacement(Displacement::Long(-0x8000))
        }
    );
    assert_eq!(instruction.ir.to_string(), "call 8000");
    let (instruction, _) = parse_instruction(&[0xE2, 0x80], 0x10002).unwrap();
    assert_eq!(
        instruction.ir,
        IR::Loop {
            dest: Operand::Displacement(Displacement::Long(-0x7C))
        }
    );
}

#[test]
fn end_to_end_listing() {
    let program = program_with_text(&[
        0xBB, 0x00, 0x00, 0xCD, 0x20, 0xBB, 0x10, 0x00, 0xCD, 0x20, 0x00, 0x00, 0x00, 0x00,
        0x00, 0x00,
    ]);
    let listing = program.disassemble().unwrap().to_string();
    assert_eq!(
        listing,
        "0000: bb0000        mov bx, 0000\n\
         0003: cd20          int 20\n\
         0005: bb1000        mov bx, 0010\n\
         0008: cd20          int 20\n\
         000a: 0000          add [bx+si], al\n\
         000c: 0000          add [bx+si], al\n\
         000e: 0000          add [bx+si], al\n"
    );
}

#[test]
fn trailing_bytes_are_undefined() {
    let program = program_with_text(&[0x40, 0xB8, 0x01]);
    let disassembled = program.disassemble().unwrap();
    assert_eq!(
        disassembled.instructions,
        vec![
            Instruction::new(
                IR::Inc {
                    dest: Operand::Register(Register::AX)
                },
                vec![0x40]
            ),
            Instruction::new(IR::Undefined, vec![0xB8, 0x01]),
        ]
    );
    assert_eq!(
        disassembled.to_string(),
        "0000: 40            inc ax\n0001: b801          (undefined)\n"
    );
}

#[test]
fn disassembly_stops_at_an_invalid_opcode() {
    let program = program_with_text(&[0x40, 0x66, 0x40]);
    assert_eq!(
        program.disassemble().err(),
        Some(DisassemblerError::InvalidOpcode(0x66))
    );
    assert_eq!(
        program_with_text(&[]).disassemble().unwrap().instructions,
        vec![]
    );
}

#[test]
fn decoding_errors() {
    assert_eq!(
        parse_instruction(&[], 0),
        Err(DisassemblerError::UnexpectedEOF)
    );
    assert_eq!(
        parse_instruction(&[0x0F + 0x51], 0),
        Err(DisassemblerError::InvalidOpcode(0x60))
    );
    // shift group, sub-opcode 6
    assert_eq!(
        parse_instruction(&[0xD0, 0xF0], 0),
        Err(DisassemblerError::InvalidOpcode(0xF0))
    );
    // unary group, sub-opcode 1
    assert_eq!(
        parse_instruction(&[0xF6, 0xC8], 0),
        Err(DisassemblerError::InvalidOpcode(0xC8))
    );
    // indirect group, sub-opcode 7
    assert_eq!(
        parse_instruction(&[0xFF, 0xF8], 0),
        Err(DisassemblerError::InvalidOpcode(0xF8))
    );
    // the displacement is missing: that comes before the sub-opcode
    assert_eq!(
        parse_instruction(&[0xD0, 0x76], 0),
        Err(DisassemblerError::UnexpectedEOF)
    );
    // AAM needs 0x0A
    assert_eq!(
        parse_instruction(&[0xD4, 0x0B], 0),
        Err(DisassemblerError::InvalidOpcode(0xD4))
    );
    assert_eq!(
        parse_instruction(&[0xD4], 0),
        Err(DisassemblerError::UnexpectedEOF)
    );
    // REP before something that is no string instruction
    assert_eq!(
        parse_instruction(&[0xF3, 0x90], 0),
        Err(DisassemblerError::InvalidOpcode(0x90))
    );
    for bytes in [
        &[0x8C][..],
        &[0x80, 0x06, 0x00],
        &[0x81, 0xC0, 0x01],
        &[0xC7, 0x46, 0xFA, 0x00],
        &[0xF7, 0xC0, 0x01],
        &[0xE9, 0x57],
        &[0x74],
        &[0xCD],
        &[0x05, 0x01],
        &[0xA1, 0x00],
        &[0xC2, 0x00],
        &[0xF2],
    ] {
        assert_eq!(
            parse_instruction(bytes, 0),
            Err(DisassemblerError::UnexpectedEOF)
        );
    }
    assert_eq!(
        Operand::parse_modrm(4, 0, &[0x00], true),
        Err(DisassemblerError::InvalidModRM)
    );
    assert_eq!(
        Operand::parse_modrm(0, 8, &[0x00], true),
        Err(DisassemblerError::InvalidModRM)
    );
}

#[test]
fn decoding_error_messages() {
    assert_eq!(DisassemblerError::InvalidArgs.to_string(), "Invalid arguments");
    assert_eq!(
        DisassemblerError::InvalidOpcode(0x0f).to_string(),
        "Invalid opcode: 0x0f"
    );
    assert_eq!(
        DisassemblerError::UnexpectedEOF.to_string(),
        "Unexpected end of file"
    );
    assert_eq!(
        DisassemblerError::InvalidModRM.to_string(),
        "Invalid ModRM byte"
    );
}

#[test]
fn modrm_table() {
    let direct = |word: i16| Operand::MemoryAddress(Address::new(None, None, Some(Displacement::Long(word))));
    assert_eq!(
        Operand::parse_modrm(3, 3, &[0xC3], true),
        Ok((Operand::Register(Register::BX), 0))
    );
    assert_eq!(
        Operand::parse_modrm(3, 3, &[0xC3], false),
        Ok((Operand::Register(Register::BL), 0))
    );
    assert_eq!(
        Operand::parse_modrm(0, 6, &[0x06, 0x34, 0x12], true),
        Ok((direct(0x1234), 2))
    );
    assert_eq!(
        Operand::parse_modrm(0, 6, &[0x06, 0x34], true),
        Err(DisassemblerError::UnexpectedEOF)
    );
    let expected = [
        (Some(Register::BX), Some(Register::SI)),
        (Some(Register::BX), Some(Register::DI)),
        (Some(Register::BP), Some(Register::SI)),
        (Some(Register::BP), Some(Register::DI)),
        (None, Some(Register::SI)),
        (None, Some(Register::DI)),
        (Some(Register::BP), None),
        (Some(Register::BX), None),
    ];
    for rm in 0u8..8 {
        let (base, index) = expected[rm as usize];
        if rm != 6 {
            assert_eq!(
                Operand::parse_modrm(0, rm, &[rm], true),
                Ok((Operand::MemoryAddress(Address::new(base, index, None)), 0))
            );
        }
        assert_eq!(
            Operand::parse_modrm(1, rm, &[0x40 | rm, 0xFE], true),
            Ok((
                Operand::MemoryAddress(Address::new(base, index, Some(Displacement::Long(-2)))),
                1
            ))
        );
        assert_eq!(
            Operand::parse_modrm(2, rm, &[0x80 | rm, 0xFE, 0x7F], true),
            Ok((
                Operand::MemoryAddress(Address::new(
                    base,
                    index,
                    Some(Displacement::Long(0x7FFE))
                )),
                2
            ))
        );
        assert_eq!(
            Operand::parse_modrm(1, rm, &[0x40 | rm], true),
            Err(DisassemblerError::UnexpectedEOF)
        );
    }
}

#[test]
fn pieces_of_an_instruction() {
    let ax = Operand::Register(Register::AX);
    let cx = Operand::Register(Register::CX);
    assert_eq!(parse_mod_reg_rm_bytes(&[0xC8], true), Ok((cx, ax, 1)));
    assert_eq!(
        parse_mod_reg_rm_bytes(&[], true),
        Err(DisassemblerError::UnexpectedEOF)
    );
    assert_eq!(_parse_w_mod_reg_rm_bytes(&[0x01, 0xC8]), Ok((cx, ax, 2)));
    assert_eq!(
        _parse_w_mod_reg_rm_bytes(&[0x00, 0xC8]),
        Ok((
            Operand::Register(Register::CL),
            Operand::Register(Register::AL),
            2
        ))
    );
    assert_eq!(parse_dw_mod_reg_rm_bytes(&[0x01, 0xC8]), Ok((ax, cx, 2)));
    assert_eq!(parse_dw_mod_reg_rm_bytes(&[0x03, 0xC8]), Ok((cx, ax, 2)));
    assert_eq!(
        parse_dw_mod_reg_rm_bytes(&[0x03]),
        Err(DisassemblerError::UnexpectedEOF)
    );
    assert_eq!(
        parse_disp_bytes(&[0x74, 0x05], 0x10),
        Ok((Operand::Displacement(Displacement::Long(0x17)), 2))
    );
    assert_eq!(
        parse_word_disp_bytes(&[0xE9, 0x05, 0x01], 0x10),
        Ok((Operand::Displacement(Displacement::Long(0x0118)), 3))
    );
    assert_eq!(
        parse_accumulator(&[0x05, 0x34, 0x12]),
        Ok((Operand::LongImmediate(0x1234), ax, true, 3))
    );
    assert_eq!(
        parse_accumulator(&[0x04, 0x34]),
        Ok((
            Operand::Immediate(0x34),
            Operand::Register(Register::AL),
            false,
            2
        ))
    );
    assert_eq!(
        parse_accumulator(&[]),
        Err(DisassemblerError::UnexpectedEOF)
    );
    assert_eq!(
        parse_string_manipulation_ir_from(0xA4),
        Ok(IR::Movs { word: false })
    );
    assert_eq!(
        parse_string_manipulation_ir_from(0xA8),
        Err(DisassemblerError::InvalidOpcode(0xA8))
    );
}

#[test]
fn instruction_texts() {
    assert_eq!(text_of(&[0x00, 0x00]), "add [bx+si], al");
    assert_eq!(text_of(&[0x83, 0xEB, 0x14]), "sub bx, 14");
    assert_eq!(text_of(&[0x83, 0xC3, 0xFE]), "add bx, -2");
    assert_eq!(text_of(&[0x83, 0x7C, 0x02, 0x00]), "cmp [si+2], 0");
    assert_eq!(text_of(&[0x80, 0x3E, 0x10, 0x00, 0x0A]), "cmp byte [0010], a");
    assert_eq!(text_of(&[0x38, 0xC3]), "cmp bl, al");
    assert_eq!(text_of(&[0xC7, 0x46, 0xFA, 0x00, 0x01]), "mov [bp-6], 0100");
    assert_eq!(text_of(&[0xC6, 0x07, 0x41]), "mov byte [bx], 41");
    assert_eq!(text_of(&[0xB0, 0x78]), "mov al, 78");
    assert_eq!(text_of(&[0xA1, 0x34, 0x12]), "mov ax, 1234");
    assert_eq!(text_of(&[0xA2, 0x34, 0x12]), "mov byte 1234, al");
    assert_eq!(text_of(&[0xF6, 0xC3, 0x01]), "test bl, 1");
    assert_eq!(text_of(&[0xF7, 0x06, 0x00, 0x10, 0x01, 0x00]), "test [1000], 0001");
    assert_eq!(text_of(&[0x85, 0xC3]), "test bx, ax");
    assert_eq!(text_of(&[0x87, 0xD9]), "xchg cx, bx");
    assert_eq!(text_of(&[0x93]), "xchg bx, ax");
    assert_eq!(text_of(&[0x8D, 0x57, 0x02]), "lea dx, [bx+2]");
    assert_eq!(text_of(&[0xC4, 0x57, 0x02]), "les dx, [bx+2]");
    assert_eq!(text_of(&[0xC5, 0x57, 0x02]), "lds dx, [bx+2]");
    assert_eq!(text_of(&[0x8F, 0x06, 0x00, 0x01]), "pop [0100]");
    assert_eq!(text_of(&[0xFF, 0x76, 0x04]), "push [bp+4]");
    assert_eq!(text_of(&[0x0E + 0x43]), "push cx");
    assert_eq!(text_of(&[0xD1, 0xE3]), "shl bx, 1");
    assert_eq!(text_of(&[0xD3, 0xFF]), "sar di, cl");
    assert_eq!(text_of(&[0xD0, 0xC8]), "ror al, 1");
    assert_eq!(text_of(&[0xD1, 0xD3]), "rcl bx, 1");
    assert_eq!(text_of(&[0xD1, 0xDB]), "rcr bx, 1");
    assert_eq!(text_of(&[0xD1, 0xC3]), "rol bx, 1");
    assert_eq!(text_of(&[0xD1, 0xEB]), "shr bx, 1");
    assert_eq!(text_of(&[0xF7, 0xDA]), "neg dx");
    assert_eq!(text_of(&[0xF7, 0xD7]), "not di");
    assert_eq!(text_of(&[0xF7, 0xE7]), "mul di");
    assert_eq!(text_of(&[0xF7, 0xEF]), "imul di");
    assert_eq!(text_of(&[0xF7, 0xF7]), "div di");
    assert_eq!(text_of(&[0xF7, 0xFF]), "idiv di");
    assert_eq!(text_of(&[0xFF, 0x46, 0xF6]), "inc [bp-a]");
    assert_eq!(text_of(&[0xFF, 0x4E, 0xF4]), "dec [bp-c]");
    assert_eq!(text_of(&[0xFF, 0xD3]), "call bx");
    assert_eq!(text_of(&[0xFF, 0xE3]), "jmp bx");
    assert_eq!(text_of(&[0xC2, 0x04, 0x00]), "ret 0004");
    assert_eq!(text_of(&[0xC3]), "ret");
    assert_eq!(text_of(&[0xCC]), "int");
    assert_eq!(text_of(&[0xCD, 0x03]), "int");
    assert_eq!(text_of(&[0xCD, 0x05]), "int 05");
    assert_eq!(text_of(&[0xE4, 0x01]), "in al, 1");
    assert_eq!(text_of(&[0xE5, 0x01]), "in ax, 1");
    assert_eq!(text_of(&[0xEC]), "in al, dx");
    assert_eq!(text_of(&[0xD9, 0xC0]), "esc ax");
    assert_eq!(text_of(&[0xD4, 0x0A]), "aam");
    assert_eq!(text_of(&[0xD5, 0x0A]), "aad");
    assert_eq!(text_of(&[0x27]), "baa");
    assert_eq!(text_of(&[0x2F]), "das");
    assert_eq!(text_of(&[0x37]), "aaa");
    assert_eq!(text_of(&[0x3F]), "aas");
    assert_eq!(text_of(&[0xF2, 0xA5]), "rep movsw");
    assert_eq!(text_of(&[0xF3, 0xA6]), "rep cmpsb");
    assert_eq!(text_of(&[0xAA]), "stosb");
    assert_eq!(text_of(&[0xAD]), "lodsw");
    assert_eq!(text_of(&[0xAF]), "scasw");
    assert_eq!(text_of(&[0x10, 0xC8]), "adc al, cl");
    assert_eq!(text_of(&[0x12, 0xC8]), "adc cl, al");
    assert_eq!(text_of(&[0x13, 0xC8]), "adc cx, ax");
    assert_eq!(text_of(&[0x1B, 0xC8]), "sbb cx, ax");
    assert_eq!(text_of(&[0x0E, 0x05]), "sbb al, 5");
    assert_eq!(text_of(&[0x0D, 0x05, 0x00]), "or ax, 0005");
    assert_eq!(text_of(&[0x25, 0x05, 0x00]), "and ax, 0005");
    assert_eq!(text_of(&[0x35, 0x05, 0x00]), "xor ax, 0005");
    assert_eq!(text_of(&[0x15, 0x05, 0x00]), "adc ax, 0005");
    assert_eq!(text_of(&[0x3C, 0x05]), "cmp al, 5");
    assert_eq!(text_of(&[0x8C, 0xD8]), "mov al, bl");
    assert_eq!(text_of(&[0x8E, 0xD8]), "mov bl, al");
    assert_eq!(text_of(&[0x8E, 0x06, 0x00, 0x10]), "mov al, [1000]");
    assert_eq!(text_of(&[0x8C, 0x06, 0x00, 0x10]), "mov byte [1000], al");
    assert_eq!(text_of(&[0x70, 0x00]), "jo 0002");
    assert_eq!(text_of(&[0x71, 0x00]), "jno 0002");
    assert_eq!(text_of(&[0x72, 0x00]), "jb 0002");
    assert_eq!(text_of(&[0x73, 0x00]), "jnb 0002");
    assert_eq!(text_of(&[0x74, 0x00]), "je 0002");
    assert_eq!(text_of(&[0x75, 0x00]), "jne 0002");
    assert_eq!(text_of(&[0x76, 0x00]), "jbe 0002");
    assert_eq!(text_of(&[0x77, 0x00]), "jnbe 0002");
    assert_eq!(text_of(&[0x78, 0x00]), "js 0002");
    assert_eq!(text_of(&[0x79, 0x00]), "jns 0002");
    assert_eq!(text_of(&[0x7A, 0x00]), "jp 0002");
    assert_eq!(text_of(&[0x7B, 0x00]), "jnp 0002");
    assert_eq!(text_of(&[0x7C, 0x00]), "jl 0002");
    assert_eq!(text_of(&[0x7D, 0x00]), "jnl 0002");
    assert_eq!(text_of(&[0x7E, 0x00]), "jle 0002");
    assert_eq!(text_of(&[0x7F, 0x00]), "jnle 0002");
    assert_eq!(text_of(&[0xE0, 0x00]), "loopnz 0002");
    assert_eq!(text_of(&[0xE1, 0x00]), "loopz 0002");
    assert_eq!(text_of(&[0xE2, 0x00]), "loop 0002");
    assert_eq!(text_of(&[0xE3, 0x00]), "jcxz 0002");
}

#[test]
fn texts_of_instructions_that_no_bytes_decode_to() {
    let ax = Operand::Register(Register::AX);
    let dx = Operand::Register(Register::DX);
    assert_eq!(IR::Out { dest: dx, src: ax }.to_string(), "out dx, ax");
    assert_eq!(IR::Xlat.to_string(), "xlat");
    assert_eq!(IR::Lahf.to_string(), "lahf");
    assert_eq!(IR::Sahf.to_string(), "sahf");
    assert_eq!(IR::Pushf.to_string(), "pushf");
    assert_eq!(IR::Popf.to_string(), "popf");
    assert_eq!(IR::Undefined.to_string(), "(undefined)");
    assert_eq!(
        IR::Ret {
            src: Some(Operand::Immediate(2))
        }
        .to_string(),
        "ret 2"
    );
    assert_eq!(
        IR::Mov {
            dest: ax,
            src: dx,
            byte: true
        }
        .to_string(),
        "mov byte ax, dx"
    );
}

#[test]
fn a_long_record_is_not_cut() {
    let instruction = Instruction::new(IR::Undefined, vec![0xAB; 8]);
    assert_eq!(instruction.to_string(), "abababababababab(undefined)");
    let instruction = Instruction::new(IR::Hlt, vec![]);
    assert_eq!(instruction.to_string(), "              hlt");
}
