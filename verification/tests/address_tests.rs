use minix2_rs::x86::{Address, Displacement, Memory, Operand, Register};

#[test]
fn test_memory_address_display_no_displacement() {
    let address = Address {
        base: Some(Register::BX),
        index: None,
        disp: None,
    };
    assert_eq!(address.to_string(), "[bx]");
}

#[test]
fn test_memory_address_display_with_8bits_displacement() {
    let address = Address {
        base: Some(Register::BX),
        index: None,
        disp: Some(Displacement::Short(0x5)),
    };
    assert_eq!(address.to_string(), "[bx+5]");
}

#[test]
fn test_memory_address_display_with_16bits_displacement() {
    let memory = Address {
        base: Some(Register::BX),
        index: None,
        disp: Some(Displacement::Long(0x1000)),
    };
    assert_eq!(memory.to_string(), "[bx+1000]");
}

#[test]
fn test_memory_address_display_with_base_index_displacement() {
    let address = Address {
        base: Some(Register::BX),
        index: Some(Register::SI),
        disp: Some(Displacement::Short(0x8)),
    };
    assert_eq!(address.to_string(), "[bx+si+8]");
}

#[test]
fn test_memory_address_display_with_displacement_as_ea() {
    let memory = Address {
        base: None,
        index: None,
        disp: Some(Displacement::Long(0x0010)),
    };
    assert_eq!(memory.to_string(), "[0010]");
}

#[test]
fn test_memory_address_display_with_signed_displacement() {
    let address = Address {
        base: Some(Register::BX),
        index: Some(Register::SI),
        disp: Some(Displacement::Long((0x89u8 as i8) as i16)),
    };
    assert_eq!(address.to_string(), "[bx+si-77]");
}

#[test]
fn memory_test_memory_display_no_displacement() {
    let memory = Memory {
        base: Some(Register::BX),
        index: None,
        disp: None,
    };
    assert_eq!(memory.to_string(), "[bx]");
}

#[test]
fn memory_test_memory_display_with_8bits_displacement() {
    let memory = Memory {
        base: Some(Register::BX),
        index: None,
        disp: Some(Displacement::Short(0x5)),
    };
    assert_eq!(memory.to_string(), "[bx+5]");
}

#[test]
fn memory_test_memory_display_with_16bits_displacement() {
    let memory = Memory {
        base: Some(Register::BX),
        index: None,
        disp: Some(Displacement::Long(0x1000)),
    };
    assert_eq!(memory.to_string(), "[bx+1000]");
}

#[test]
fn memory_test_memory_display_with_base_index_displacement() {
    let memory = Memory {
        base: Some(Register::BX),
        index: Some(Register::SI),
        disp: Some(Displacement::Short(0x8)),
    };
    assert_eq!(memory.to_string(), "[bx+si+8]");
}

#[test]
fn memory_test_memory_display_with_displacement_as_ea() {
    let memory = Memory {
        base: None,
        index: None,
        disp: Some(Displacement::Long(0x0010)),
    };
    assert_eq!(memory.to_string(), "[0010]");
}

#[test]
fn memory_test_memory_display_with_signed_displacement() {
    let memory = Memory {
        base: Some(Register::BX),
        index: Some(Register::SI),
        disp: Some(Displacement::Long((0x89u8 as i8) as i16)),
    };
    assert_eq!(memory.to_string(), "[bx+si-77]");
}

#[test]
fn display_test_memory_display_no_displacement() {
    let memory = Memory::new(Some(Register::BX), None, None);
    assert_eq!(memory.to_string(), "[bx]");
}

#[test]
fn display_test_memory_display_with_8bits_displacement() {
    let memory = Memory::new(Some(Register::BX), None, Some(Displacement::Short(0x5)));
    assert_eq!(memory.to_string(), "[bx+5]");
}

#[test]
fn display_test_memory_display_with_16bits_displacement() {
    let memory = Memory::new(Some(Register::BX), None, Some(Displacement::Long(0x1000)));
    assert_eq!(memory.to_string(), "[bx+1000]");
}

#[test]
fn display_test_memory_display_with_base_index_displacement() {
    let memory = Memory::new(
        Some(Register::BX),
        Some(Register::SI),
        Some(Displacement::Short(0x8)),
    );
    assert_eq!(memory.to_string(), "[bx+si+8]");
}

#[test]
fn display_test_memory_display_with_displacement_as_ea() {
    let memory = Memory::new(None, None, Some(Displacement::Long(0x0010)));
    assert_eq!(memory.to_string(), "[0010]");
}

#[test]
fn display_test_memory_display_with_signed_displacement() {
    let memory = Memory::new(
        Some(Register::BX),
        Some(Register::SI),
        Some(Displacement::Long((0x89u8 as i8) as i16)),
    );
    assert_eq!(memory.to_string(), "[bx+si-77]");
}

#[test]
fn index_without_base() {
    let address = Address::new(None, Some(Register::SI), Some(Displacement::Long(2)));
    assert_eq!(address.to_string(), "[si+2]");
    let address = Address::new(None, Some(Register::DI), None);
    assert_eq!(address.to_string(), "[di]");
    let address = Address::new(Some(Register::BP), Some(Register::DI), Some(Displacement::Long(-1)));
    assert_eq!(address.to_string(), "[bp+di-1]");
}

#[test]
fn direct_address_is_the_bit_pattern() {
    assert_eq!(Address::from_word_imm(0xFFFA).to_string(), "[fffa]");
    assert_eq!(
        Address::from_word_imm(0xFFFA).disp,
        Some(Displacement::Long(-6))
    );
    assert_eq!(Address::from_imm(0x80).disp, Some(Displacement::Short(-128)));
    assert_eq!(Address::from_imm(0x80).to_string(), "[ff80]");
    assert_eq!(Address::from_imm(0x7F).to_string(), "[007f]");
}

#[test]
fn displacement_text_and_sign() {
    assert_eq!(Displacement::Long(0).to_string(), "0");
    assert_eq!(Displacement::Long(-0x8000).to_string(), "-8000");
    assert_eq!(Displacement::Long(0x7FFF).to_string(), "7fff");
    assert_eq!(Displacement::Short(-1).to_string(), "-1");
    assert_eq!(Displacement::Short(-128).to_string(), "-80");
    assert!(Displacement::Short(-1).is_neg());
    assert!(!Displacement::Long(0).is_neg());
    assert_eq!(Displacement::Short(-1).to_u16(), 0xFFFF);
    assert_eq!(Displacement::Long(-2).to_i16(), -2);
}

#[test]
fn operand_text() {
    assert_eq!(Operand::Register(Register::AX).to_string(), "ax");
    assert_eq!(Operand::Immediate(0x0a).to_string(), "a");
    assert_eq!(Operand::Immediate(0).to_string(), "0");
    assert_eq!(Operand::LongImmediate(0xff).to_string(), "00ff");
    assert_eq!(Operand::SignExtendedImmediate(-1).to_string(), "-1");
    assert_eq!(Operand::SignExtendedImmediate(-128).to_string(), "-80");
    assert_eq!(Operand::SignExtendedImmediate(0x14).to_string(), "14");
    assert_eq!(
        Operand::Displacement(Displacement::Long(0x025a)).to_string(),
        "025a"
    );
    assert_eq!(
        Operand::Displacement(Displacement::Long(-1)).to_string(),
        "ffff"
    );
    assert_eq!(
        Operand::Displacement(Displacement::Short(-2)).to_string(),
        "fe"
    );
    assert_eq!(
        Operand::Displacement(Displacement::Short(5)).to_string(),
        "05"
    );
}

#[test]
fn test_memory_display_no_displacement() {
    let memory = Memory {
        base: Some(Register::BX),
        index: None,
        disp: None,
    };
    assert_eq!(memory.to_string(), "[bx]");
}

#[test]
fn test_memory_display_with_8bits_displacement() {
    let memory = Memory {
        base: Some(Register::BX),
        index: None,
        disp: Some(Displacement::Short(0x5)),
    };
    assert_eq!(memory.to_string(), "[bx+5]");
}

#[test]
fn test_memory_display_with_16bits_displacement() {
    let memory = Memory {
        base: Some(Register::BX),
        index: None,
        disp: Some(Displacement::Long(0x1000)),
    };
    assert_eq!(memory.to_string(), "[bx+1000]");
}

#[test]
fn test_memory_display_with_base_index_displacement() {
    let memory = Memory {
        base: Some(Register::BX),
        index: Some(Register::SI),
        disp: Some(Displacement::Short(0x8)),
    };
    assert_eq!(memory.to_string(), "[bx+si+8]");
}

#[test]
fn test_memory_display_with_displacement_as_ea() {
    let memory = Memory {
        base: None,
        index: None,
        disp: Some(Displacement::Long(0x0010)),
    };
    assert_eq!(memory.to_string(), "[0010]");
}

#[test]
fn test_memory_display_with_signed_displacement() {
    let memory = Memory {
        base: Some(Register::BX),
        index: Some(Register::SI),
        disp: Some(Displacement::Long((0x89u8 as i8) as i16)),
    };
    assert_eq!(memory.to_string(), "[bx+si-77]");
}
