use r6502::emulator::memory::DeviceMemory;
use r6502::instructions::{AddressingMode, Instruction, OpCode};

fn ins(opcode: OpCode, mode: Option<AddressingMode>) -> Instruction {
    Instruction { opcode, mode }
}

#[test]
fn decode_group_one_opcodes() {
    assert_eq!(Instruction::from(0xA9), ins(OpCode::LDA, Some(AddressingMode::Immediate)));
    assert_eq!(Instruction::from(0x81), ins(OpCode::STA, Some(AddressingMode::IndirectZeroPageX)));
    assert_eq!(Instruction::from(0x71), ins(OpCode::ADC, Some(AddressingMode::IndirectZeroPageY)));
    assert_eq!(Instruction::from(0xC9), ins(OpCode::CMP, Some(AddressingMode::Immediate)));
    assert_eq!(Instruction::from(0xE9), ins(OpCode::SBC, Some(AddressingMode::Immediate)));
    assert_eq!(Instruction::from(0x1D), ins(OpCode::ORA, Some(AddressingMode::DirectAbsoluteX)));
    assert_eq!(Instruction::from(0x59), ins(OpCode::EOR, Some(AddressingMode::DirectAbsoluteY)));
}

#[test]
fn decode_group_two_and_zero_opcodes() {
    assert_eq!(Instruction::from(0x0A), ins(OpCode::ASL, Some(AddressingMode::Accumulator)));
    assert_eq!(Instruction::from(0x96), ins(OpCode::STX, Some(AddressingMode::DirectZeroPageY)));
    assert_eq!(Instruction::from(0xB6), ins(OpCode::LDX, Some(AddressingMode::DirectZeroPageY)));
    assert_eq!(Instruction::from(0xBE), ins(OpCode::LDX, Some(AddressingMode::DirectAbsoluteY)));
    assert_eq!(Instruction::from(0x16), ins(OpCode::ASL, Some(AddressingMode::DirectZeroPageX)));
    assert_eq!(Instruction::from(0xFE), ins(OpCode::INC, Some(AddressingMode::DirectAbsoluteX)));
    assert_eq!(Instruction::from(0xA2), ins(OpCode::LDX, Some(AddressingMode::Immediate)));
    assert_eq!(Instruction::from(0xEE), ins(OpCode::INC, Some(AddressingMode::DirectAbsolute)));
    assert_eq!(Instruction::from(0x4C), ins(OpCode::JMP, Some(AddressingMode::DirectAbsolute)));
    assert_eq!(Instruction::from(0x6C), ins(OpCode::JMPAbsolute, Some(AddressingMode::DirectAbsolute)));
    assert_eq!(Instruction::from(0x24), ins(OpCode::BIT, Some(AddressingMode::DirectZeroPage)));
    assert_eq!(Instruction::from(0xE0), ins(OpCode::CPX, Some(AddressingMode::Immediate)));
    assert_eq!(Instruction::from(0x20), ins(OpCode::JSR, Some(AddressingMode::DirectAbsolute)));
    assert_eq!(Instruction::from(0x40), ins(OpCode::RTI, None));
    assert_eq!(Instruction::from(0x60), ins(OpCode::RTS, None));
}

#[test]
fn decode_single_byte_and_branches() {
    assert_eq!(Instruction::from(0x00), ins(OpCode::BRK, None));
    assert_eq!(Instruction::from(0x48), ins(OpCode::PHA, None));
    assert_eq!(Instruction::from(0xEA), ins(OpCode::NOP, None));
    assert_eq!(Instruction::from(0x9A), ins(OpCode::TXS, None));
    assert_eq!(Instruction::from(0x38), ins(OpCode::SEC, None));
    assert_eq!(Instruction::from(0xD0), ins(OpCode::BNE, Some(AddressingMode::Relative)));
    assert_eq!(Instruction::from(0x10), ins(OpCode::BPL, Some(AddressingMode::Relative)));
}

#[test]
fn decode_undocumented_opcodes_first() {
    assert_eq!(Instruction::from(0xFF), ins(OpCode::ISC, Some(AddressingMode::DirectAbsoluteX)));
    assert_eq!(Instruction::from(0x02), ins(OpCode::KIL, None));
    assert_eq!(Instruction::from(0x80), ins(OpCode::INOP, Some(AddressingMode::Immediate)));
    assert_eq!(Instruction::from(0x1A), ins(OpCode::INOP, Some(AddressingMode::Implied)));
    assert_eq!(Instruction::from(0xB7), ins(OpCode::LAX, Some(AddressingMode::DirectZeroPageY)));
    assert_eq!(Instruction::from(0xEB), ins(OpCode::USBC, Some(AddressingMode::Immediate)));
}

#[test]
fn every_byte_decodes_to_a_known_instruction() {
    for byte in 0..=255u8 {
        let i = Instruction::from(byte);
        assert!(!matches!(i.opcode, OpCode::BadInstruction(_)), "{:#04x}", byte);
        assert!(!matches!(i.opcode, OpCode::UnknownInstruction(_)), "{:#04x}", byte);
    }
}

#[test]
fn device_registers_round_trip() {
    for address in 0..=0x2Cu8 {
        let device = DeviceMemory::try_from(address).unwrap();
        assert_eq!(u8::try_from(device), Ok(address));
    }
    assert_eq!(DeviceMemory::try_from(0x09u8), Ok(DeviceMemory::COLUBK));
    assert_eq!(u8::try_from(DeviceMemory::CXCLR), Ok(0x2C));
}

#[test]
fn device_registers_stop_at_cxclr() {
    assert_eq!(DeviceMemory::try_from(0x2Du8), Err(()));
    assert_eq!(DeviceMemory::try_from(0xFFu8), Err(()));
}
