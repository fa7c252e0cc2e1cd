use r6502::emulator::{CPUEmulatorBuilder, DefaultVirtualMemory, VirtualMemory};
use r6502::instructions::{AddressingMode, Instruction, OpCode};
use r6502::state::{SystemFlags, SystemState};

/// One processor state: the registers and the bytes of memory that matter.
struct Cpu {
    pc: u16,
    s: u8,
    a: u8,
    x: u8,
    y: u8,
    p: u8,
    ram: Vec<(u16, u8)>,
}

fn cpu(pc: u16, s: u8, a: u8, x: u8, y: u8, p: u8, ram: &[(u16, u8)]) -> Cpu {
    Cpu { pc, s, a, x, y, p, ram: ram.to_vec() }
}

/// Runs one instruction from `initial` and checks every register and every
/// listed byte of `expected`.
fn run_vector(initial: Cpu, expected: Cpu) {
    let mut memory = DefaultVirtualMemory::default();
    for (address, value) in initial.ram.iter() {
        memory.write(*address, *value);
    }
    let state = SystemState {
        running: true,
        pc: initial.pc,
        a: initial.a,
        x: initial.x,
        y: initial.y,
        s: initial.s,
        p: SystemFlags::from_bits_retain(initial.p),
        cycles: vec![],
    };
    let mut emulator = CPUEmulatorBuilder::default().memory(memory).state(state).build().unwrap();
    let result = emulator.execute_next_instruction();
    assert!(result.is_ok(), "instruction failed: {:?}", result);
    assert_eq!(emulator.state.pc, expected.pc, "pc");
    assert_eq!(emulator.state.s, expected.s, "s");
    assert_eq!(emulator.state.a, expected.a, "a");
    assert_eq!(emulator.state.x, expected.x, "x");
    assert_eq!(emulator.state.y, expected.y, "y");
    assert_eq!(emulator.state.p.bits(), expected.p, "p");
    for (address, value) in expected.ram.iter() {
        assert_eq!(emulator.memory.read(*address), *value, "ram at {}", address);
    }
}

/// The opcode bytes below 255 that decode to `op`, in order.
fn opcodes_of(op: OpCode) -> Vec<u8> {
    (0..255u8).filter(|b| Instruction::from(*b).opcode == op).collect()
}

#[test]
fn test_all_instructions_groupwise() {
    for byte in 0..=255u8 {
        let opcode = Instruction::from(byte).opcode;
        assert!(!matches!(opcode, OpCode::UnknownInstruction(_) | OpCode::BadInstruction(_)), "{}", byte);
    }
    // ADC #$50 with A = $50: signed overflow into a negative sum.
    run_vector(
        cpu(0x0000, 0x00, 0x50, 0, 0, 0x00, &[(0x0000, 0x69), (0x0001, 0x50)]),
        cpu(0x0002, 0x00, 0xA0, 0, 0, 0xC0, &[(0x0000, 0x69), (0x0001, 0x50)]),
    );
    // LDA ($28),Y across a page.
    run_vector(
        cpu(59082, 39, 57, 33, 174, 96, &[(59082, 177), (59083, 40), (59084, 181), (40, 160), (41, 233), (59982, 119)]),
        cpu(59084, 39, 119, 33, 174, 96, &[(40, 160), (41, 233), (59082, 177), (59083, 40), (59084, 181), (59982, 119)]),
    );
    // JMP ($30FF) takes the high byte from $3000.
    run_vector(
        cpu(0x0200, 0xFD, 0, 0, 0, 0x20, &[(0x0200, 0x6C), (0x0201, 0xFF), (0x0202, 0x30), (0x30FF, 0x80), (0x3000, 0x50), (0x3100, 0x60)]),
        cpu(0x5080, 0xFD, 0, 0, 0, 0x20, &[]),
    );
    // SEC and SED.
    run_vector(cpu(0x0200, 0xFD, 0, 0, 0, 0x20, &[(0x0200, 0x38)]), cpu(0x0201, 0xFD, 0, 0, 0, 0x21, &[]));
    run_vector(cpu(0x0200, 0xFD, 0, 0, 0, 0x20, &[(0x0200, 0xF8)]), cpu(0x0201, 0xFD, 0, 0, 0, 0x28, &[]));
    // The undocumented SBC at $EB.
    run_vector(
        cpu(0x0200, 0xFD, 0x10, 0, 0, 0x21, &[(0x0200, 0xEB), (0x0201, 0x01)]),
        cpu(0x0202, 0xFD, 0x0F, 0, 0, 0x21, &[]),
    );
    // An undocumented NOP reads its operand and changes nothing.
    run_vector(
        cpu(0x0200, 0xFD, 1, 2, 3, 0x20, &[(0x0200, 0x04), (0x0201, 0x10)]),
        cpu(0x0202, 0xFD, 1, 2, 3, 0x20, &[]),
    );
    // The stable undocumented opcodes.
    let zp = |opcode: u8, byte: u8| vec![(0x0200u16, opcode), (0x0201, 0x10), (0x0010, byte)];
    run_vector(cpu(0x0200, 0xFD, 0, 0, 0, 0x20, &zp(0xA7, 0x80)), cpu(0x0202, 0xFD, 0x80, 0x80, 0, 0xA0, &[]));
    run_vector(cpu(0x0200, 0xFD, 0xF0, 0x3C, 0, 0x20, &zp(0x87, 0x00)), cpu(0x0202, 0xFD, 0xF0, 0x3C, 0, 0x20, &[(0x0010, 0x30)]));
    run_vector(cpu(0x0200, 0xFD, 0x10, 0, 0, 0x20, &zp(0xC7, 0x11)), cpu(0x0202, 0xFD, 0x10, 0, 0, 0x23, &[(0x0010, 0x10)]));
    run_vector(cpu(0x0200, 0xFD, 0x05, 0, 0, 0x21, &zp(0xE7, 0x00)), cpu(0x0202, 0xFD, 0x04, 0, 0, 0x21, &[(0x0010, 0x01)]));
    run_vector(cpu(0x0200, 0xFD, 0x02, 0, 0, 0x20, &zp(0x07, 0x81)), cpu(0x0202, 0xFD, 0x02, 0, 0, 0x21, &[(0x0010, 0x02)]));
    run_vector(cpu(0x0200, 0xFD, 0xFF, 0, 0, 0x21, &zp(0x27, 0x40)), cpu(0x0202, 0xFD, 0x81, 0, 0, 0xA0, &[(0x0010, 0x81)]));
    run_vector(cpu(0x0200, 0xFD, 0x01, 0, 0, 0x20, &zp(0x47, 0x03)), cpu(0x0202, 0xFD, 0x00, 0, 0, 0x23, &[(0x0010, 0x01)]));
    run_vector(cpu(0x0200, 0xFD, 0x01, 0, 0, 0x21, &zp(0x67, 0x02)), cpu(0x0202, 0xFD, 0x82, 0, 0, 0xA0, &[(0x0010, 0x81)]));
    let imm = |opcode: u8, byte: u8| vec![(0x0200u16, opcode), (0x0201, byte)];
    run_vector(cpu(0x0200, 0xFD, 0xF0, 0, 0, 0x20, &imm(0x0B, 0x80)), cpu(0x0202, 0xFD, 0x80, 0, 0, 0xA1, &[]));
    run_vector(cpu(0x0200, 0xFD, 0xFF, 0, 0, 0x20, &imm(0x4B, 0x03)), cpu(0x0202, 0xFD, 0x01, 0, 0, 0x21, &[]));
    run_vector(cpu(0x0200, 0xFD, 0xFF, 0, 0, 0x21, &imm(0x6B, 0xFF)), cpu(0x0202, 0xFD, 0xFF, 0, 0, 0xA1, &[]));
    run_vector(cpu(0x0200, 0xFD, 0xF0, 0x3C, 0, 0x20, &imm(0xCB, 0x10)), cpu(0x0202, 0xFD, 0xF0, 0x20, 0, 0x21, &[]));
    run_vector(
        cpu(0x0200, 0x3F, 0, 0, 0, 0x20, &[(0x0200, 0xBB), (0x0201, 0x00), (0x0202, 0x30), (0x3000, 0xF0)]),
        cpu(0x0203, 0x30, 0x30, 0x30, 0, 0x20, &[]),
    );
    // TAX and TXA set N and Z, never C.
    run_vector(cpu(0x0200, 0xFD, 0x80, 0, 0, 0x21, &[(0x0200, 0xAA)]), cpu(0x0201, 0xFD, 0x80, 0x80, 0, 0xA1, &[]));
    run_vector(cpu(0x0200, 0xFD, 0x80, 0, 0, 0xA0, &[(0x0200, 0x8A)]), cpu(0x0201, 0xFD, 0, 0, 0, 0x22, &[]));
}

#[test]
fn test_all_cmp() {
    assert_eq!(opcodes_of(OpCode::CMP), vec![0xC1, 0xC5, 0xC9, 0xCD, 0xD1, 0xD5, 0xD9, 0xDD]);
    run_vector(
        cpu(0x0200, 0xFD, 0x10, 0, 0, 0x20, &[(0x0200, 0xC9), (0x0201, 0x20)]),
        cpu(0x0202, 0xFD, 0x10, 0, 0, 0xA0, &[]),
    );
    run_vector(
        cpu(0x0200, 0xFD, 0x10, 0, 0, 0x21, &[(0x0200, 0xC5), (0x0201, 0x40), (0x0040, 0x10)]),
        cpu(0x0202, 0xFD, 0x10, 0, 0, 0x23, &[]),
    );
    run_vector(
        cpu(0x0200, 0xFD, 0x80, 0, 0, 0x20, &[(0x0200, 0xCD), (0x0201, 0x00), (0x0202, 0x30), (0x3000, 0x05)]),
        cpu(0x0203, 0xFD, 0x80, 0, 0, 0x21, &[]),
    );
    run_vector(
        cpu(0x0200, 0xFD, 0x90, 0x20, 0, 0xA0, &[(0x0200, 0xD5), (0x0201, 0xF0), (0x0010, 0x90)]),
        cpu(0x0202, 0xFD, 0x90, 0x20, 0, 0x23, &[]),
    );
    run_vector(
        cpu(0x0200, 0xFD, 0x00, 0x20, 0, 0x23, &[(0x0200, 0xDD), (0x0201, 0xF0), (0x0202, 0x12), (0x1310, 0x01)]),
        cpu(0x0203, 0xFD, 0x00, 0x20, 0, 0xA0, &[]),
    );
    run_vector(
        cpu(0x0200, 0xFD, 0xFF, 0, 0x05, 0x20, &[(0x0200, 0xD9), (0x0201, 0x00), (0x0202, 0x12), (0x1205, 0x7F)]),
        cpu(0x0203, 0xFD, 0xFF, 0, 0x05, 0xA1, &[]),
    );
    run_vector(
        cpu(0x0200, 0xFD, 0x42, 0x04, 0, 0x20, &[(0x0200, 0xC1), (0x0201, 0x10), (0x0014, 0x00), (0x0015, 0x33), (0x3300, 0x42)]),
        cpu(0x0202, 0xFD, 0x42, 0x04, 0, 0x23, &[]),
    );
    run_vector(
        cpu(0x0200, 0xFD, 0x02, 0, 0x20, 0x20, &[(0x0200, 0xD1), (0x0201, 0x10), (0x0010, 0xF0), (0x0011, 0x33), (0x3410, 0x01)]),
        cpu(0x0202, 0xFD, 0x02, 0, 0x20, 0x21, &[]),
    );
}

#[test]
fn test_all_ldx() {
    assert_eq!(opcodes_of(OpCode::LDX), vec![0xA2, 0xA6, 0xAE, 0xB6, 0xBE]);
    assert_eq!(Instruction::from(0xB6).mode, Some(AddressingMode::DirectZeroPageY));
    assert_eq!(Instruction::from(0xBE).mode, Some(AddressingMode::DirectAbsoluteY));
    run_vector(
        cpu(0x0200, 0xFD, 0, 0, 0, 0x20, &[(0x0200, 0xA2), (0x0201, 0x80)]),
        cpu(0x0202, 0xFD, 0, 0x80, 0, 0xA0, &[]),
    );
    run_vector(
        cpu(0x0200, 0xFD, 0, 0x55, 0x20, 0xA0, &[(0x0200, 0xB6), (0x0201, 0xF0), (0x0010, 0x00)]),
        cpu(0x0202, 0xFD, 0, 0x00, 0x20, 0x22, &[]),
    );
    run_vector(
        cpu(0x0200, 0xFD, 0, 0, 0x10, 0x22, &[(0x0200, 0xBE), (0x0201, 0x00), (0x0202, 0x30), (0x3010, 0x7F)]),
        cpu(0x0203, 0xFD, 0, 0x7F, 0x10, 0x20, &[]),
    );
}

#[test]
fn test_all_rol() {
    assert_eq!(opcodes_of(OpCode::ROL), vec![0x26, 0x2A, 0x2E, 0x36, 0x3E]);
    run_vector(
        cpu(0x0200, 0xFD, 0x80, 0, 0, 0x20, &[(0x0200, 0x2A)]),
        cpu(0x0201, 0xFD, 0x00, 0, 0, 0x23, &[]),
    );
    run_vector(
        cpu(0x0200, 0xFD, 0, 0, 0, 0x21, &[(0x0200, 0x26), (0x0201, 0x10), (0x0010, 0x40)]),
        cpu(0x0202, 0xFD, 0, 0, 0, 0xA0, &[(0x0010, 0x81)]),
    );
}

#[test]
fn test_all_ror() {
    assert_eq!(opcodes_of(OpCode::ROR), vec![0x66, 0x6A, 0x6E, 0x76, 0x7E]);
    run_vector(
        cpu(0x0200, 0xFD, 0x01, 0, 0, 0x20, &[(0x0200, 0x6A)]),
        cpu(0x0201, 0xFD, 0x00, 0, 0, 0x23, &[]),
    );
    run_vector(
        cpu(0x0200, 0xFD, 0, 0, 0, 0x21, &[(0x0200, 0x66), (0x0201, 0x10), (0x0010, 0x02)]),
        cpu(0x0202, 0xFD, 0, 0, 0, 0xA0, &[(0x0010, 0x81)]),
    );
    run_vector(
        cpu(0x0200, 0xFD, 0, 0x01, 0, 0x20, &[(0x0200, 0x7E), (0x0201, 0x00), (0x0202, 0x30), (0x3001, 0x03)]),
        cpu(0x0203, 0xFD, 0, 0x01, 0, 0x21, &[(0x3001, 0x01)]),
    );
}

#[test]
fn test_all_lsr() {
    assert_eq!(opcodes_of(OpCode::LSR), vec![0x46, 0x4A, 0x4E, 0x56, 0x5E]);
    run_vector(
        cpu(0x0200, 0xFD, 0x81, 0, 0, 0xA0, &[(0x0200, 0x4A)]),
        cpu(0x0201, 0xFD, 0x40, 0, 0, 0x21, &[]),
    );
    run_vector(
        cpu(0x0200, 0xFD, 0, 0, 0, 0x20, &[(0x0200, 0x46), (0x0201, 0x10), (0x0010, 0x01)]),
        cpu(0x0202, 0xFD, 0, 0, 0, 0x23, &[(0x0010, 0x00)]),
    );
}

#[test]
fn test_all_tya() {
    assert_eq!(opcodes_of(OpCode::TYA), vec![0x98]);
    run_vector(cpu(0x0200, 0xFD, 0, 0, 0x80, 0x22, &[(0x0200, 0x98)]), cpu(0x0201, 0xFD, 0x80, 0, 0x80, 0xA0, &[]));
    run_vector(cpu(0x0200, 0xFD, 5, 0, 0, 0x21, &[(0x0200, 0x98)]), cpu(0x0201, 0xFD, 0, 0, 0, 0x23, &[]));
}

#[test]
fn test_all_tsx() {
    assert_eq!(opcodes_of(OpCode::TSX), vec![0xBA]);
    run_vector(cpu(0x0200, 0xFD, 0, 0, 0, 0x22, &[(0x0200, 0xBA)]), cpu(0x0201, 0xFD, 0, 0xFD, 0, 0xA0, &[]));
    run_vector(cpu(0x0200, 0x00, 0, 7, 0, 0x20, &[(0x0200, 0xBA)]), cpu(0x0201, 0x00, 0, 0, 0, 0x22, &[]));
}

#[test]
fn test_all_asl() {
    assert_eq!(opcodes_of(OpCode::ASL), vec![0x06, 0x0A, 0x0E, 0x16, 0x1E]);
    run_vector(
        cpu(0x0200, 0xFD, 0x81, 0, 0, 0x20, &[(0x0200, 0x0A)]),
        cpu(0x0201, 0xFD, 0x02, 0, 0, 0x21, &[]),
    );
    run_vector(
        cpu(0x0200, 0xFD, 0, 0, 0, 0x21, &[(0x0200, 0x0E), (0x0201, 0x00), (0x0202, 0x30), (0x3000, 0x40)]),
        cpu(0x0203, 0xFD, 0, 0, 0, 0xA0, &[(0x3000, 0x80)]),
    );
}

#[test]
fn test_all_sty() {
    assert_eq!(opcodes_of(OpCode::STY), vec![0x84, 0x8C, 0x94]);
    run_vector(
        cpu(0x0200, 0xFD, 0, 0, 0x77, 0x20, &[(0x0200, 0x84), (0x0201, 0x10)]),
        cpu(0x0202, 0xFD, 0, 0, 0x77, 0x20, &[(0x0010, 0x77)]),
    );
    run_vector(
        cpu(0x0200, 0xFD, 0, 0x02, 0x66, 0x20, &[(0x0200, 0x94), (0x0201, 0xFF)]),
        cpu(0x0202, 0xFD, 0, 0x02, 0x66, 0x20, &[(0x0001, 0x66)]),
    );
}

#[test]
fn test_all_stx() {
    assert_eq!(opcodes_of(OpCode::STX), vec![0x86, 0x8E, 0x96]);
    assert_eq!(Instruction::from(0x96).mode, Some(AddressingMode::DirectZeroPageY));
    run_vector(
        cpu(0x0200, 0xFD, 0, 0x99, 0x05, 0x20, &[(0x0200, 0x96), (0x0201, 0x10)]),
        cpu(0x0202, 0xFD, 0, 0x99, 0x05, 0x20, &[(0x0015, 0x99)]),
    );
    run_vector(
        cpu(0x0200, 0xFD, 0, 0x42, 0, 0x20, &[(0x0200, 0x8E), (0x0201, 0x34), (0x0202, 0x12)]),
        cpu(0x0203, 0xFD, 0, 0x42, 0, 0x20, &[(0x1234, 0x42)]),
    );
}

#[test]
fn test_all_ldy() {
    assert_eq!(opcodes_of(OpCode::LDY), vec![0xA0, 0xA4, 0xAC, 0xB4, 0xBC]);
    run_vector(
        cpu(0x0200, 0xFD, 0, 0, 0, 0x20, &[(0x0200, 0xA0), (0x0201, 0xFF)]),
        cpu(0x0202, 0xFD, 0, 0, 0xFF, 0xA0, &[]),
    );
    run_vector(
        cpu(0x0200, 0xFD, 0, 0x90, 0x11, 0xA0, &[(0x0200, 0xB4), (0x0201, 0x80), (0x0010, 0x00)]),
        cpu(0x0202, 0xFD, 0, 0x90, 0x00, 0x22, &[]),
    );
}

#[test]
fn test_all_cpx() {
    assert_eq!(opcodes_of(OpCode::CPX), vec![0xE0, 0xE4, 0xEC]);
    run_vector(
        cpu(0x0200, 0xFD, 0, 0x00, 0, 0x20, &[(0x0200, 0xE0), (0x0201, 0x01)]),
        cpu(0x0202, 0xFD, 0, 0x00, 0, 0xA0, &[]),
    );
    run_vector(
        cpu(0x0200, 0xFD, 0, 0x30, 0, 0x20, &[(0x0200, 0xE4), (0x0201, 0x10), (0x0010, 0x30)]),
        cpu(0x0202, 0xFD, 0, 0x30, 0, 0x23, &[]),
    );
}

#[test]
fn test_all_bit() {
    assert_eq!(opcodes_of(OpCode::BIT), vec![0x24, 0x2C]);
    run_vector(
        cpu(0x0200, 0xFD, 0x01, 0, 0, 0x20, &[(0x0200, 0x24), (0x0201, 0x10), (0x0010, 0xC0)]),
        cpu(0x0202, 0xFD, 0x01, 0, 0, 0xE2, &[]),
    );
    run_vector(
        cpu(0x0200, 0xFD, 0x01, 0, 0, 0xE2, &[(0x0200, 0x2C), (0x0201, 0x00), (0x0202, 0x30), (0x3000, 0x01)]),
        cpu(0x0203, 0xFD, 0x01, 0, 0, 0x20, &[]),
    );
}

#[test]
fn test_all_php() {
    assert_eq!(opcodes_of(OpCode::PHP), vec![0x08]);
    run_vector(cpu(0x0200, 0xFF, 0, 0, 0, 0x21, &[(0x0200, 0x08)]), cpu(0x0201, 0xFE, 0, 0, 0, 0x21, &[(0x01FF, 0x31)]));
    run_vector(cpu(0x0200, 0x00, 0, 0, 0, 0xE3, &[(0x0200, 0x08)]), cpu(0x0201, 0xFF, 0, 0, 0, 0xE3, &[(0x0100, 0xF3)]));
}

#[test]
fn test_all_plp() {
    assert_eq!(opcodes_of(OpCode::PLP), vec![0x28]);
    run_vector(
        cpu(0x0200, 0xFE, 0, 0, 0, 0x20, &[(0x0200, 0x28), (0x01FF, 0xFF)]),
        cpu(0x0201, 0xFF, 0, 0, 0, 0xEF, &[]),
    );
    run_vector(
        cpu(0x0200, 0xFF, 0, 0, 0, 0xE3, &[(0x0200, 0x28), (0x0100, 0x00)]),
        cpu(0x0201, 0x00, 0, 0, 0, 0x20, &[]),
    );
}

#[test]
fn test_all_pla() {
    assert_eq!(opcodes_of(OpCode::PLA), vec![0x68]);
    run_vector(
        cpu(0x0200, 0xFE, 0, 0, 0, 0x22, &[(0x0200, 0x68), (0x01FF, 0x80)]),
        cpu(0x0201, 0xFF, 0x80, 0, 0, 0xA0, &[]),
    );
    run_vector(
        cpu(0x0200, 0xFE, 0x11, 0, 0, 0xA0, &[(0x0200, 0x68), (0x01FF, 0x00)]),
        cpu(0x0201, 0xFF, 0x00, 0, 0, 0x22, &[]),
    );
}

#[test]
fn test_all_dey() {
    assert_eq!(opcodes_of(OpCode::DEY), vec![0x88]);
    run_vector(cpu(0x0200, 0xFD, 0, 9, 0, 0x20, &[(0x0200, 0x88)]), cpu(0x0201, 0xFD, 0, 9, 0xFF, 0xA0, &[]));
    run_vector(cpu(0x0200, 0xFD, 0, 9, 1, 0xA0, &[(0x0200, 0x88)]), cpu(0x0201, 0xFD, 0, 9, 0, 0x22, &[]));
}

#[test]
fn test_all_dex() {
    assert_eq!(opcodes_of(OpCode::DEX), vec![0xCA]);
    run_vector(cpu(0x0200, 0xFD, 0, 0x80, 7, 0xA0, &[(0x0200, 0xCA)]), cpu(0x0201, 0xFD, 0, 0x7F, 7, 0x20, &[]));
    run_vector(cpu(0x0200, 0xFD, 0, 0x01, 7, 0x20, &[(0x0200, 0xCA)]), cpu(0x0201, 0xFD, 0, 0x00, 7, 0x22, &[]));
}

#[test]
fn test_all_inx() {
    assert_eq!(opcodes_of(OpCode::INX), vec![0xE8]);
    run_vector(cpu(0x0200, 0xFD, 0, 0xFF, 0, 0xA0, &[(0x0200, 0xE8)]), cpu(0x0201, 0xFD, 0, 0x00, 0, 0x22, &[]));
    run_vector(cpu(0x0200, 0xFD, 0, 0x7F, 0, 0x20, &[(0x0200, 0xE8)]), cpu(0x0201, 0xFD, 0, 0x80, 0, 0xA0, &[]));
}

#[test]
fn test_all_iny() {
    assert_eq!(opcodes_of(OpCode::INY), vec![0xC8]);
    run_vector(cpu(0x0200, 0xFD, 0, 0, 0xFF, 0xA0, &[(0x0200, 0xC8)]), cpu(0x0201, 0xFD, 0, 0, 0x00, 0x22, &[]));
    run_vector(cpu(0x0200, 0xFD, 0, 0, 0x10, 0x20, &[(0x0200, 0xC8)]), cpu(0x0201, 0xFD, 0, 0, 0x11, 0x20, &[]));
}

#[test]
fn test_all_txs() {
    assert_eq!(opcodes_of(OpCode::TXS), vec![0x9A]);
    run_vector(cpu(0x0200, 0xFF, 0, 0x00, 0, 0x20, &[(0x0200, 0x9A)]), cpu(0x0201, 0x00, 0, 0x00, 0, 0x20, &[]));
    run_vector(cpu(0x0200, 0xFF, 0, 0x80, 0, 0x22, &[(0x0200, 0x9A)]), cpu(0x0201, 0x80, 0, 0x80, 0, 0x22, &[]));
}

#[test]
fn test_all_brk() {
    assert_eq!(opcodes_of(OpCode::BRK), vec![0x00]);
    run_vector(
        cpu(0x0200, 0xFF, 0, 0, 0, 0x20, &[(0x0200, 0x00), (0xFFFE, 0x00), (0xFFFF, 0x40)]),
        cpu(0x4000, 0xFC, 0, 0, 0, 0x24, &[(0x01FF, 0x02), (0x01FE, 0x02), (0x01FD, 0x30)]),
    );
    run_vector(
        cpu(0x12FF, 0x01, 0, 0, 0, 0xCB, &[(0x12FF, 0x00), (0xFFFE, 0x34), (0xFFFF, 0x12)]),
        cpu(0x1234, 0xFE, 0, 0, 0, 0xCF, &[(0x0101, 0x13), (0x0100, 0x01), (0x01FF, 0xFB)]),
    );
}

#[test]
fn test_all_cpy() {
    assert_eq!(opcodes_of(OpCode::CPY), vec![0xC0, 0xC4, 0xCC]);
    run_vector(
        cpu(0x0200, 0xFD, 0, 0, 0x20, 0x20, &[(0x0200, 0xC0), (0x0201, 0x10)]),
        cpu(0x0202, 0xFD, 0, 0, 0x20, 0x21, &[]),
    );
    run_vector(
        cpu(0x0200, 0xFD, 0, 0, 0x7F, 0x20, &[(0x0200, 0xCC), (0x0201, 0x00), (0x0202, 0x30), (0x3000, 0x80)]),
        cpu(0x0203, 0xFD, 0, 0, 0x7F, 0xA0, &[]),
    );
}

#[test]
fn test_all_jmp() {
    assert_eq!(opcodes_of(OpCode::JMP), vec![0x4C]);
    assert_eq!(opcodes_of(OpCode::JMPAbsolute), vec![0x6C]);
    run_vector(
        cpu(0x0200, 0xFD, 0, 0, 0, 0x20, &[(0x0200, 0x4C), (0x0201, 0x34), (0x0202, 0x12)]),
        cpu(0x1234, 0xFD, 0, 0, 0, 0x20, &[]),
    );
    run_vector(
        cpu(0x0200, 0xFD, 0, 0, 0, 0x20, &[(0x0200, 0x6C), (0x0201, 0x00), (0x0202, 0x30), (0x3000, 0x78), (0x3001, 0x56)]),
        cpu(0x5678, 0xFD, 0, 0, 0, 0x20, &[]),
    );
}

#[test]
fn test_all_rti() {
    assert_eq!(opcodes_of(OpCode::RTI), vec![0x40]);
    run_vector(
        cpu(0x0200, 0xFC, 0, 0, 0, 0x20, &[(0x0200, 0x40), (0x01FD, 0xC3), (0x01FE, 0x34), (0x01FF, 0x12)]),
        cpu(0x1234, 0xFF, 0, 0, 0, 0xE3, &[]),
    );
}

#[test]
fn test_all_rts() {
    assert_eq!(opcodes_of(OpCode::RTS), vec![0x60]);
    run_vector(
        cpu(0x0200, 0xFD, 0, 0, 0, 0x20, &[(0x0200, 0x60), (0x01FE, 0x34), (0x01FF, 0x12)]),
        cpu(0x1235, 0xFF, 0, 0, 0, 0x20, &[]),
    );
    run_vector(
        cpu(0x0200, 0xFE, 0, 0, 0, 0x20, &[(0x0200, 0x60), (0x01FF, 0xFF), (0x0100, 0xFF)]),
        cpu(0x0000, 0x00, 0, 0, 0, 0x20, &[]),
    );
}

#[test]
fn test_all_bcs() {
    assert_eq!(opcodes_of(OpCode::BCS), vec![0xB0]);
    run_vector(cpu(0x0200, 0xFD, 0, 0, 0, 0x21, &[(0x0200, 0xB0), (0x0201, 0x10)]), cpu(0x0212, 0xFD, 0, 0, 0, 0x21, &[]));
    run_vector(cpu(0x0200, 0xFD, 0, 0, 0, 0x20, &[(0x0200, 0xB0), (0x0201, 0x10)]), cpu(0x0202, 0xFD, 0, 0, 0, 0x20, &[]));
    run_vector(cpu(0x0200, 0xFD, 0, 0, 0, 0x21, &[(0x0200, 0xB0), (0x0201, 0xFC)]), cpu(0x01FE, 0xFD, 0, 0, 0, 0x21, &[]));
}

#[test]
fn test_all_jsr() {
    assert_eq!(opcodes_of(OpCode::JSR), vec![0x20]);
    run_vector(
        cpu(0x0200, 0xFF, 0, 0, 0, 0x20, &[(0x0200, 0x20), (0x0201, 0x00), (0x0202, 0x30)]),
        cpu(0x3000, 0xFD, 0, 0, 0, 0x20, &[(0x01FF, 0x02), (0x01FE, 0x02)]),
    );
}

#[test]
fn test_all_sbc() {
    assert_eq!(opcodes_of(OpCode::SBC), vec![0xE1, 0xE5, 0xE9, 0xED, 0xF1, 0xF5, 0xF9, 0xFD]);
    run_vector(
        cpu(0x0200, 0xFD, 0x00, 0, 0, 0x21, &[(0x0200, 0xE9), (0x0201, 0x01)]),
        cpu(0x0202, 0xFD, 0xFF, 0, 0, 0xA0, &[]),
    );
    run_vector(
        cpu(0x0200, 0xFD, 0x50, 0, 0, 0x21, &[(0x0200, 0xE9), (0x0201, 0xB0)]),
        cpu(0x0202, 0xFD, 0xA0, 0, 0, 0xE0, &[]),
    );
    run_vector(
        cpu(0x0200, 0xFD, 0x05, 0, 0, 0x20, &[(0x0200, 0xE5), (0x0201, 0x10), (0x0010, 0x01)]),
        cpu(0x0202, 0xFD, 0x03, 0, 0, 0x21, &[]),
    );
}
