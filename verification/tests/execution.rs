use r6502::emulator::{
    CPUEmulator, CPUEmulatorBuilder, CPUEmulatorBuilderError, DefaultVirtualMemory, VirtualMemory,
};
use r6502::instructions::{AddressingMode, Instruction, OpCode};
use r6502::state::{EmulatorError, SystemAction, SystemCycle, SystemFlags, SystemState};

fn machine(program_at: u16, program: &[u8], pokes: &[(u16, u8)]) -> CPUEmulator<DefaultVirtualMemory> {
    let mut memory = DefaultVirtualMemory::default();
    for (i, byte) in program.iter().enumerate() {
        memory.write(program_at + i as u16, *byte);
    }
    for (address, value) in pokes {
        memory.write(*address, *value);
    }
    let state = SystemState {
        running: true,
        pc: program_at,
        a: 0,
        x: 0,
        y: 0,
        s: 0xFF,
        p: SystemFlags::from_bits_retain(0),
        cycles: vec![],
    };
    CPUEmulatorBuilder::default().memory(memory).state(state).build().unwrap()
}

fn read(address: u16, value: u8) -> SystemCycle {
    SystemCycle { address, value, action: SystemAction::READ }
}

fn write(address: u16, value: u8) -> SystemCycle {
    SystemCycle { address, value, action: SystemAction::WRITE }
}

#[test]
fn lda_immediate_loads_and_logs_the_operand_read() {
    let mut emu = machine(0x0200, &[0xA9, 0x05], &[]);
    let r = emu.execute_next_instruction();
    assert_eq!(r, Ok(Instruction { opcode: OpCode::LDA, mode: Some(AddressingMode::Immediate) }));
    assert_eq!(emu.state.a, 0x05);
    assert_eq!(emu.state.pc, 0x0202);
    assert_eq!(emu.state.p.bits(), 0);
    assert_eq!(emu.state.cycles, vec![read(0x0201, 0x05)]);
    assert!(emu.state.running);
}

#[test]
fn lda_zero_sets_zero_flag() {
    let mut emu = machine(0x0200, &[0xA9, 0x00], &[]);
    emu.execute_next_instruction().unwrap();
    assert_eq!(emu.state.p.bits(), 0b0000_0010);
}

#[test]
fn adc_with_carry_sets_carry_without_signed_overflow() {
    let mut emu = machine(0x0200, &[0x69, 0x01], &[]);
    emu.state.a = 0xFF;
    emu.state.p = SystemFlags::from_bits_retain(0b0000_0001);
    emu.execute_next_instruction().unwrap();
    assert_eq!(emu.state.a, 0x01);
    assert_eq!(emu.state.p.bits(), 0b0000_0001);
}

#[test]
fn adc_signed_overflow_sets_overflow_and_negative() {
    let mut emu = machine(0x0200, &[0x69, 0x50], &[]);
    emu.state.a = 0x50;
    emu.execute_next_instruction().unwrap();
    assert_eq!(emu.state.a, 0xA0);
    assert_eq!(emu.state.p.bits(), 0b1100_0000);
}

#[test]
fn adc_without_overflow() {
    let mut emu = machine(0x0200, &[0x69, 0x22], &[]);
    emu.state.a = 0x11;
    emu.execute_next_instruction().unwrap();
    assert_eq!(emu.state.a, 0x33);
    assert_eq!(emu.state.p.bits(), 0);
}

#[test]
fn sta_absolute_writes_memory_and_logs_every_cycle() {
    let mut emu = machine(0x0200, &[0x8D, 0x34, 0x12], &[]);
    emu.state.a = 0x77;
    emu.execute_next_instruction().unwrap();
    assert_eq!(emu.memory.read(0x1234), 0x77);
    assert_eq!(emu.state.pc, 0x0203);
    assert_eq!(
        emu.state.cycles,
        vec![read(0x0201, 0x34), read(0x0202, 0x12), read(0x1234, 0x00), write(0x1234, 0x77)]
    );
}

#[test]
fn stopped_machine_answers_none_and_changes_nothing() {
    let mut emu = machine(0x0200, &[0xA9, 0x05], &[]);
    emu.state.running = false;
    assert_eq!(emu.execute_next_instruction(), Err(None));
    assert_eq!(emu.state.a, 0);
    assert_eq!(emu.state.pc, 0x0200);
    assert!(emu.state.cycles.is_empty());
}

#[test]
fn brk_pushes_and_jumps_through_the_vector_and_rti_comes_back() {
    let mut emu = machine(0x0200, &[0x00], &[(0xFFFE, 0x00), (0xFFFF, 0x40), (0x4000, 0x40)]);
    emu.state.p = SystemFlags::from_bits_retain(0b1000_0001);
    let r = emu.execute_next_instruction();
    assert_eq!(r, Ok(Instruction { opcode: OpCode::BRK, mode: None }));
    assert_eq!(emu.state.pc, 0x4000);
    assert_eq!(emu.state.s, 0xFC);
    assert_eq!(emu.state.p.bits(), 0b1000_0101);
    assert_eq!(emu.memory.read(0x01FF), 0x02);
    assert_eq!(emu.memory.read(0x01FE), 0x02);
    assert_eq!(emu.memory.read(0x01FD), 0b1011_0001);
    assert_eq!(
        emu.state.cycles,
        vec![
            write(0x01FF, 0x02),
            write(0x01FE, 0x02),
            write(0x01FD, 0b1011_0001),
            read(0xFFFE, 0x00),
            read(0xFFFF, 0x40),
        ]
    );
    emu.execute_next_instruction().unwrap();
    assert_eq!(emu.state.pc, 0x0202);
    assert_eq!(emu.state.s, 0xFF);
    assert_eq!(emu.state.p.bits(), 0b1000_0001);
}

#[test]
fn unimplemented_instruction_fails_after_reading_its_operand() {
    let mut emu = machine(0x0200, &[0x8B, 0x10], &[]);
    let r = emu.execute_next_instruction();
    assert_eq!(r, Err(Some(Instruction { opcode: OpCode::ANE, mode: Some(AddressingMode::Immediate) })));
    assert!(!emu.state.running);
    assert_eq!(emu.state.pc, 0x0202);
    assert_eq!(emu.state.cycles, vec![read(0x0201, 0x10)]);
    assert_eq!((emu.state.a, emu.state.x, emu.state.y, emu.state.s), (0, 0, 0, 0xFF));
    assert_eq!(emu.state.p.bits(), 0);
}

#[test]
fn sbc_subtracts_with_borrow() {
    let mut emu = machine(0x0200, &[0xE9, 0x01, 0xE9, 0x01], &[]);
    emu.state.a = 0x05;
    emu.state.p = SystemFlags::carry();
    emu.execute_next_instruction().unwrap();
    assert_eq!(emu.state.a, 0x04);
    assert_eq!(emu.state.p.bits(), 0b0000_0001);
    emu.state.p = SystemFlags::empty();
    emu.execute_next_instruction().unwrap();
    assert_eq!(emu.state.a, 0x02);
    assert_eq!(emu.state.p.bits(), 0b0000_0001);
}

#[test]
fn execute_reports_unimplemented_instruction() {
    let mut emu = machine(0x0200, &[], &[]);
    let kil = Instruction { opcode: OpCode::KIL, mode: None };
    assert_eq!(kil.execute(&mut emu), Err(EmulatorError::UnimplementedInstruction));
    let jmp = Instruction { opcode: OpCode::JMP, mode: None };
    assert_eq!(jmp.execute(&mut emu), Err(EmulatorError::ExpectedMemoryPair));
    let sec = Instruction { opcode: OpCode::SEC, mode: None };
    assert_eq!(sec.execute(&mut emu), Ok(()));
    assert_eq!(emu.state.p.bits(), 0b0000_0001);
}

#[test]
fn push_then_pull_accumulator_round_trip() {
    let mut emu = machine(0x0200, &[0x48, 0xA9, 0x00, 0x68], &[]);
    emu.state.a = 0x82;
    emu.execute_next_instruction().unwrap();
    assert_eq!(emu.state.s, 0xFE);
    assert_eq!(emu.memory.read(0x01FF), 0x82);
    emu.execute_next_instruction().unwrap();
    assert_eq!(emu.state.a, 0);
    assert_eq!(emu.state.p.bits(), 0b0000_0010);
    emu.execute_next_instruction().unwrap();
    assert_eq!(emu.state.a, 0x82);
    assert_eq!(emu.state.p.bits(), 0b1000_0000);
    assert_eq!(emu.state.s, 0xFF);
}

#[test]
fn push_then_pull_status_round_trip() {
    let mut emu = machine(0x0200, &[0x08, 0x18, 0x28], &[]);
    emu.state.p = SystemFlags::from_bits_retain(0b1100_0011);
    emu.execute_next_instruction().unwrap();
    assert_eq!(emu.memory.read(0x01FF), 0b1111_0011);
    emu.execute_next_instruction().unwrap();
    assert_eq!(emu.state.p.bits(), 0b1100_0010);
    emu.execute_next_instruction().unwrap();
    assert_eq!(emu.state.p.bits(), 0b1100_0011);
    assert_eq!(emu.state.s, 0xFF);
}

#[test]
fn bne_taken_backwards() {
    let mut emu = machine(0x0200, &[0xD0, 0xFC], &[]);
    emu.execute_next_instruction().unwrap();
    assert_eq!(emu.state.pc, 0x01FE);
}

#[test]
fn branch_by_minus_128() {
    let mut emu = machine(0x0200, &[0xF0, 0x80], &[]);
    emu.state.p = SystemFlags::zero();
    emu.execute_next_instruction().unwrap();
    assert_eq!(emu.state.pc, 0x0182);
}

#[test]
fn bne_not_taken_falls_through() {
    let mut emu = machine(0x0200, &[0xD0, 0x10], &[]);
    emu.state.p = SystemFlags::zero();
    emu.execute_next_instruction().unwrap();
    assert_eq!(emu.state.pc, 0x0202);
}

#[test]
fn bcs_branches_on_set_carry() {
    let mut emu = machine(0x0200, &[0xB0, 0x10], &[]);
    emu.state.p = SystemFlags::carry();
    emu.execute_next_instruction().unwrap();
    assert_eq!(emu.state.pc, 0x0212);
    let mut emu = machine(0x0200, &[0xB0, 0x10], &[]);
    emu.execute_next_instruction().unwrap();
    assert_eq!(emu.state.pc, 0x0202);
}

#[test]
fn jmp_absolute() {
    let mut emu = machine(0x0200, &[0x4C, 0x00, 0x30], &[(0x3000, 0xAB)]);
    emu.execute_next_instruction().unwrap();
    assert_eq!(emu.state.pc, 0x3000);
    assert_eq!(emu.state.cycles.last(), Some(&read(0x3000, 0xAB)));
}

#[test]
fn jsr_pushes_the_last_operand_address_into_page_one() {
    let mut emu = machine(0x0200, &[0x00, 0x30], &[]);
    emu.state.s = 0xFD;
    let jsr = Instruction { opcode: OpCode::JSR, mode: Some(AddressingMode::DirectAbsolute) };
    assert_eq!(jsr.execute(&mut emu), Ok(()));
    assert_eq!(emu.state.pc, 0x3000);
    assert_eq!(emu.state.s, 0xFB);
    assert_eq!(emu.memory.read(0x01FD), 0x02);
    assert_eq!(emu.memory.read(0x01FC), 0x01);
}

#[test]
fn rts_resumes_one_past_the_pulled_address() {
    let mut emu = machine(0x0200, &[], &[(0x01FE, 0x34), (0x01FF, 0x12)]);
    emu.state.s = 0xFD;
    let rts = Instruction { opcode: OpCode::RTS, mode: None };
    assert_eq!(rts.execute(&mut emu), Ok(()));
    assert_eq!(emu.state.pc, 0x1235);
    assert_eq!(emu.state.s, 0xFF);
}

#[test]
fn rti_pulls_status_then_program_counter() {
    let mut emu = machine(0x0200, &[], &[(0x01FD, 0xC3), (0x01FE, 0x34), (0x01FF, 0x12)]);
    emu.state.s = 0xFC;
    let rti = Instruction { opcode: OpCode::RTI, mode: None };
    assert_eq!(rti.execute(&mut emu), Ok(()));
    assert_eq!(emu.state.p.bits(), 0xC3);
    assert_eq!(emu.state.pc, 0x1234);
    assert_eq!(emu.state.s, 0xFF);
}

#[test]
fn rol_accumulator_takes_carry_in() {
    let mut emu = machine(0x0200, &[0x2A], &[]);
    emu.state.a = 0x40;
    emu.state.p = SystemFlags::carry();
    emu.execute_next_instruction().unwrap();
    assert_eq!(emu.state.a, 0x81);
    assert_eq!(emu.state.p.bits(), 0b1000_0000);
}

#[test]
fn ror_memory_takes_carry_into_bit_seven() {
    let mut emu = machine(0x0200, &[0x66, 0x10], &[(0x0010, 0x02)]);
    emu.state.p = SystemFlags::carry();
    emu.execute_next_instruction().unwrap();
    assert_eq!(emu.memory.read(0x0010), 0x81);
    assert_eq!(emu.state.p.bits(), 0b1000_0000);
}

#[test]
fn ror_accumulator_sets_bit_seven() {
    let mut emu = machine(0x0200, &[0x6A], &[]);
    emu.state.a = 0x03;
    emu.state.p = SystemFlags::carry();
    emu.execute_next_instruction().unwrap();
    assert_eq!(emu.state.a, 0x81);
    assert_eq!(emu.state.p.bits(), 0b1000_0001);
}

#[test]
fn asl_memory_moves_bit_seven_into_carry() {
    let mut emu = machine(0x0200, &[0x06, 0x10], &[(0x0010, 0x81)]);
    emu.execute_next_instruction().unwrap();
    assert_eq!(emu.memory.read(0x0010), 0x02);
    assert_eq!(emu.state.p.bits(), 0b0000_0001);
}

#[test]
fn lsr_accumulator() {
    let mut emu = machine(0x0200, &[0x4A], &[]);
    emu.state.a = 0x01;
    emu.execute_next_instruction().unwrap();
    assert_eq!(emu.state.a, 0);
    assert_eq!(emu.state.p.bits(), 0b0000_0011);
}

#[test]
fn dex_decrements_x() {
    let mut emu = machine(0x0200, &[0xCA], &[]);
    emu.state.x = 5;
    emu.execute_next_instruction().unwrap();
    assert_eq!(emu.state.x, 4);
    assert_eq!(emu.state.y, 0);
    assert_eq!(emu.state.p.bits(), 0);
}

#[test]
fn inx_wraps_to_zero() {
    let mut emu = machine(0x0200, &[0xE8], &[]);
    emu.state.x = 0xFF;
    emu.execute_next_instruction().unwrap();
    assert_eq!(emu.state.x, 0x00);
    assert_eq!(emu.state.p.bits(), 0b0000_0010);
}

#[test]
fn ldx_negative_follows_bit_seven() {
    let mut emu = machine(0x0200, &[0xA2, 0x40], &[]);
    emu.execute_next_instruction().unwrap();
    assert_eq!(emu.state.x, 0x40);
    assert_eq!(emu.state.p.bits(), 0);
    let mut emu = machine(0x0200, &[0xA2, 0x80], &[]);
    emu.execute_next_instruction().unwrap();
    assert_eq!(emu.state.p.bits(), 0b1000_0000);
}

#[test]
fn tax_sets_negative_from_bit_seven() {
    let mut emu = machine(0x0200, &[0xAA], &[]);
    emu.state.a = 0x80;
    emu.execute_next_instruction().unwrap();
    assert_eq!(emu.state.x, 0x80);
    assert_eq!(emu.state.p.bits(), 0b1000_0000);
}

#[test]
fn cmp_flags() {
    let mut emu = machine(0x0200, &[0xC9, 0x20], &[]);
    emu.state.a = 0x10;
    emu.execute_next_instruction().unwrap();
    assert_eq!(emu.state.p.bits(), 0b1000_0000);
    let mut emu = machine(0x0200, &[0xC9, 0x90], &[]);
    emu.state.a = 0x90;
    emu.execute_next_instruction().unwrap();
    assert_eq!(emu.state.p.bits(), 0b0000_0011);
}

#[test]
fn bit_copies_bits_six_and_seven() {
    let mut emu = machine(0x0200, &[0x24, 0x10], &[(0x0010, 0xC0)]);
    emu.state.a = 0x01;
    emu.execute_next_instruction().unwrap();
    assert_eq!(emu.state.p.bits(), 0b1100_0010);
}

#[test]
fn indirect_y_carries_into_high_byte() {
    let mut emu = machine(0x0200, &[0xB1, 0x10], &[(0x0010, 0xFF), (0x0011, 0x12), (0x1300, 0x99)]);
    emu.state.y = 0x01;
    emu.execute_next_instruction().unwrap();
    assert_eq!(emu.state.a, 0x99);
    assert_eq!(emu.state.p.bits(), 0b1000_0000);
    assert_eq!(
        emu.state.cycles,
        vec![read(0x0201, 0x10), read(0x0010, 0xFF), read(0x0011, 0x12), read(0x1300, 0x99)]
    );
}

#[test]
fn indirect_x_wraps_in_page_zero() {
    let mut emu = machine(0x0200, &[0xA1, 0xFE], &[(0x00FF, 0x00), (0x0000, 0x40), (0x4000, 0x11)]);
    emu.state.x = 0x01;
    emu.execute_next_instruction().unwrap();
    assert_eq!(emu.state.a, 0x11);
}

#[test]
fn zero_page_x_wraps() {
    let mut emu = machine(0x0200, &[0xB5, 0xF0], &[(0x0010, 0x21)]);
    emu.state.x = 0x20;
    emu.execute_next_instruction().unwrap();
    assert_eq!(emu.state.a, 0x21);
}

#[test]
fn absolute_y_wraps_around_memory() {
    let mut emu = machine(0x0200, &[0xB9, 0xFF, 0xFF], &[(0x0001, 0x5A)]);
    emu.state.y = 0x02;
    emu.execute_next_instruction().unwrap();
    assert_eq!(emu.state.a, 0x5A);
}

#[test]
fn inc_and_dec_memory() {
    let mut emu = machine(0x0200, &[0xE6, 0x10, 0xC6, 0x11], &[(0x0010, 0xFF), (0x0011, 0x00)]);
    emu.execute_next_instruction().unwrap();
    assert_eq!(emu.memory.read(0x0010), 0x00);
    assert_eq!(emu.state.p.bits(), 0b0000_0010);
    emu.execute_next_instruction().unwrap();
    assert_eq!(emu.memory.read(0x0011), 0xFF);
    assert_eq!(emu.state.p.bits(), 0b1000_0000);
}

#[test]
fn program_counter_wraps() {
    let mut emu = machine(0xFFFF, &[0xEA], &[]);
    emu.execute_next_instruction().unwrap();
    assert_eq!(emu.state.pc, 0x0000);
}

#[test]
fn builder_reports_missing_parts() {
    let missing_memory = CPUEmulatorBuilder::<DefaultVirtualMemory>::default().build();
    assert!(matches!(missing_memory, Err(CPUEmulatorBuilderError::UninitializedField("memory"))));
    let missing_state = CPUEmulatorBuilder::default().memory(DefaultVirtualMemory::default()).build();
    assert!(matches!(missing_state, Err(CPUEmulatorBuilderError::UninitializedField("state"))));
    let built = CPUEmulatorBuilder::default()
        .memory(DefaultVirtualMemory::default())
        .state(SystemState::default())
        .build();
    assert!(built.is_ok());
}

#[test]
fn stack_wraps_within_page_one() {
    let mut emu = machine(0x0200, &[0x48, 0x68], &[]);
    emu.state.s = 0x00;
    emu.state.a = 0x11;
    emu.execute_next_instruction().unwrap();
    assert_eq!(emu.state.s, 0xFF);
    assert_eq!(emu.state.cycles.last(), Some(&write(0x0100, 0x11)));
    emu.state.a = 0;
    emu.execute_next_instruction().unwrap();
    assert_eq!(emu.state.s, 0x00);
    assert_eq!(emu.state.a, 0x11);
    assert_eq!(emu.state.cycles.last(), Some(&read(0x0100, 0x11)));
}

#[test]
fn subroutine_call_then_return_resumes_after_the_call() {
    let mut emu = machine(0x0200, &[0x20, 0x00, 0x30], &[(0x3000, 0x60)]);
    emu.execute_next_instruction().unwrap();
    assert_eq!(emu.state.pc, 0x3000);
    assert_eq!(emu.state.s, 0xFD);
    emu.execute_next_instruction().unwrap();
    assert_eq!(emu.state.pc, 0x0203);
    assert_eq!(emu.state.s, 0xFF);
}

#[test]
fn indirect_jump_wraps_within_the_pointer_page() {
    let mut emu = machine(0x0200, &[0x6C, 0xFF, 0x30], &[(0x30FF, 0x80), (0x3000, 0x50), (0x3100, 0x60)]);
    emu.execute_next_instruction().unwrap();
    assert_eq!(emu.state.pc, 0x5080);
    assert_eq!(emu.state.cycles.last(), Some(&read(0x3000, 0x50)));
}

#[test]
fn txs_changes_no_flag() {
    let mut emu = machine(0x0200, &[0x9A], &[]);
    emu.state.x = 0x00;
    emu.state.p = SystemFlags::carry();
    emu.execute_next_instruction().unwrap();
    assert_eq!(emu.state.s, 0x00);
    assert_eq!(emu.state.p.bits(), 0b0000_0001);
}


#[test]
fn the_last_write_to_an_address_is_what_a_read_gives() {
    // STA $10; STX $10
    let mut emu = machine(0x0200, &[0x85, 0x10, 0x86, 0x10], &[]);
    emu.state.a = 0x11;
    emu.state.x = 0x22;
    emu.execute_next_instruction().unwrap();
    emu.execute_next_instruction().unwrap();
    assert_eq!(emu.memory.read(0x0010), 0x22);
    assert_eq!(emu.state.cycles.last(), Some(&write(0x0010, 0x22)));
}

#[test]
fn calls_write_only_to_page_one() {
    let mut emu = machine(0x0200, &[0x20, 0x00, 0x30], &[(0x3000, 0x00), (0xFFFE, 0x00), (0xFFFF, 0x40)]);
    emu.state.s = 0x00;
    emu.execute_next_instruction().unwrap();
    emu.execute_next_instruction().unwrap();
    for cycle in emu.state.cycles.iter() {
        if cycle.action == SystemAction::WRITE {
            assert!((0x0100..=0x01FF).contains(&cycle.address), "{}", cycle.address);
        }
    }
    assert_eq!(emu.state.s, 0xFB);
}
