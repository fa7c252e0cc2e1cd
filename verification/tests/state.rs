use r6502::emulator::state::{StatusFlags, SystemState as StoredState};
use r6502::emulator::{DefaultVirtualMemory, VirtualMemory};
use r6502::instructions::{AddressingMode, Instruction, OpCode};
use r6502::state::{EmulatorError, SystemAction, SystemFlags};

#[test]
fn system_flags_insert_remove_contains() {
    let mut p = SystemFlags::empty();
    assert!(!p.contains(SystemFlags::carry()));
    p.insert(SystemFlags::carry());
    p.insert(SystemFlags::negative());
    assert!(p.contains(SystemFlags::carry()));
    assert_eq!(p.bits(), 0b1000_0001);
    p.remove(SystemFlags::carry());
    assert!(!p.contains(SystemFlags::carry()));
    assert!(p.contains(SystemFlags::negative()));
    p.set(SystemFlags::zero(), true);
    assert_eq!(p.as_u8(), 0b1000_0010);
    p.set(SystemFlags::negative(), false);
    assert_eq!(p.bits(), 0b0000_0010);
}

#[test]
fn system_flags_keep_unknown_bits() {
    assert_eq!(SystemFlags::from_bits_retain(0xFF).bits(), 0xFF);
    assert_eq!(SystemFlags::from(0x24).bits(), 0x24);
    assert_eq!(SystemFlags::overflow().bits(), 0x40);
    assert_eq!(SystemFlags::expansion().bits(), 0x20);
    assert_eq!(SystemFlags::break_command().bits(), 0x10);
    assert_eq!(SystemFlags::decimal().bits(), 0x08);
    assert_eq!(SystemFlags::interrupt_disable().bits(), 0x04);
}

#[test]
fn status_flags_set_then_get() {
    let mut f = StatusFlags::new(0);
    f.set_negative_flag(true);
    f.set_carry_flag(true);
    assert!(f.negative_flag());
    assert!(f.carry_flag());
    assert!(!f.zero_flag());
    assert_eq!(f.value, 0b1000_0001);
    f.set_negative_flag(false);
    assert!(!f.negative_flag());
    assert!(f.carry_flag());
    f.set_overflow_flag(true);
    f.set_expansion_flag(true);
    f.set_break_command_flag(true);
    f.set_decimal_flag(true);
    f.set_interrupt_disable_flag(true);
    f.set_zero_flag(true);
    assert_eq!(f.value, 0b0111_1111);
    assert!(f.overflow_flag() && f.expansion_flag() && f.break_command_flag());
    assert!(f.decimal_flag() && f.interrupt_disable_flag() && f.zero_flag());
}

#[test]
fn error_messages() {
    assert_eq!(EmulatorError::MemoryReadError.message(), "Memory read error");
    assert_eq!(EmulatorError::MemoryWriteError.message(), "Memory write error");
    assert_eq!(EmulatorError::UnimplementedInstruction.message(), "Instruction not implemented");
    assert_eq!(EmulatorError::InvalidInstructionMode.message(), "Instruction mode is not a valid mode");
    assert_eq!(EmulatorError::ExpectedMemoryPair.message(), "Memory pair was expected but received None");
    assert_eq!(SystemAction::READ.name(), "read");
    assert_eq!(SystemAction::WRITE.name(), "write");
}

#[test]
fn default_memory_is_64k_of_zeros() {
    let mut m = DefaultVirtualMemory::default();
    assert_eq!(m.as_slice().len(), 0x10000);
    assert!(m.as_slice().iter().all(|b| *b == 0));
    m.write(0xFFFF, 9);
    assert_eq!(m.read(0xFFFF), 9);
    assert_eq!(m.read(0xFFFE), 0);
}

#[test]
fn memory_from_bytes_pads_and_cuts() {
    let mut short = DefaultVirtualMemory::from_bytes(vec![1, 2, 3]);
    assert_eq!(short.as_slice().len(), 0x10000);
    assert_eq!(short.read(2), 3);
    assert_eq!(short.read(3), 0);
    let mut long_bytes = vec![7u8; 0x10005];
    long_bytes[0xFFFF] = 8;
    let mut long = DefaultVirtualMemory::from_bytes(long_bytes);
    assert_eq!(long.as_slice().len(), 0x10000);
    assert_eq!(long.read(0xFFFF), 8);
    let copy = long.clone();
    assert_eq!(copy.as_slice(), long.as_slice());
}

#[test]
fn stored_state_defaults() {
    let st = StoredState::default();
    assert_eq!(st.m.len(), 128_000);
    assert!(st.m.iter().all(|b| *b == 0));
    assert_eq!(st.pc(), 0);
    assert!(!st.running);
}

#[test]
fn stored_state_write_grows_memory() {
    let mut st = StoredState::default();
    st.m = vec![1; 10];
    assert_eq!(st.write(20, 7), Ok(()));
    assert_eq!(st.m.len(), 21);
    assert_eq!(st.m[20], 7);
    assert!(st.m[10..20].iter().all(|b| *b == 0));
    assert_eq!(st.write(3, 5), Ok(()));
    assert_eq!(st.m[3], 5);
    assert_eq!(st.m.len(), 21);
}

#[test]
fn stored_state_read_past_end_fails() {
    let mut st = StoredState::default();
    st.m = vec![4; 10];
    assert_eq!(st.read(9), Ok(4));
    assert_eq!(st.read(10), Err(EmulatorError::MemoryReadError));
}

#[test]
fn stored_state_runs_an_instruction() {
    let mut st = StoredState::default();
    st.write(0x0200, 0xA9).unwrap();
    st.write(0x0201, 0x07).unwrap();
    st.set_pc(0x0200);
    st.running = true;
    let r = st.execute_next_instruction();
    assert_eq!(r, Ok(Instruction { opcode: OpCode::LDA, mode: Some(AddressingMode::Immediate) }));
    assert_eq!(st.a, 7);
    assert_eq!(st.pc(), 0x0202);
    assert_eq!(st.m.len(), 128_000);
    assert!(st.running);
}

#[test]
fn stored_state_failure_keeps_program_counter() {
    let mut st = StoredState::default();
    st.write(0x0200, 0x8B).unwrap();
    st.set_pc(0x0200);
    st.running = true;
    let r = st.execute_next_instruction();
    assert_eq!(r, Err(Some(Instruction { opcode: OpCode::ANE, mode: Some(AddressingMode::Immediate) })));
    assert_eq!(st.pc(), 0x0200);
    assert!(!st.running);
}

#[test]
fn stored_state_writes_reach_memory_above_64k_untouched() {
    let mut st = StoredState::default();
    st.m[0x10000] = 0x55;
    st.write(0x0200, 0x85).unwrap();
    st.write(0x0201, 0x40).unwrap();
    st.a = 0x66;
    st.set_pc(0x0200);
    st.execute_next_instruction().unwrap();
    assert_eq!(st.m[0x40], 0x66);
    assert_eq!(st.m[0x10000], 0x55);
}

#[test]
fn stored_state_program_counter_past_memory_answers_none() {
    let mut st = StoredState { m: vec![0xEA; 16], ..StoredState::default() };
    st.set_pc(16);
    st.running = true;
    assert_eq!(st.execute_next_instruction(), Err(None));
    assert!(!st.running);
    assert_eq!(st.pc(), 16);
    assert_eq!(st.m, vec![0xEA; 16]);
}

#[test]
fn stored_state_short_memory_runs_and_grows_on_write() {
    // LDA #$42; PHA on eight bytes of memory.
    let mut st = StoredState { m: vec![0xA9, 0x42, 0x48, 0, 0, 0, 0, 0], ..StoredState::default() };
    st.s = 0xFF;
    st.running = true;
    st.execute_next_instruction().unwrap();
    assert_eq!(st.a, 0x42);
    assert_eq!(st.m.len(), 8);
    let r = st.execute_next_instruction();
    assert_eq!(r, Ok(Instruction { opcode: OpCode::PHA, mode: None }));
    assert_eq!(st.pc(), 3);
    assert_eq!(st.s, 0xFE);
    assert_eq!(st.m.len(), 0x200);
    assert_eq!(st.m[0x1FF], 0x42);
    assert_eq!(st.m[0x100], 0);
    assert!(st.running);
}

#[test]
fn stored_state_store_past_end_reads_its_target_and_fails() {
    // STA $20 on four bytes of memory: the operand fetch reads $20 first.
    let mut st = StoredState { m: vec![0x85, 0x20, 0, 0], ..StoredState::default() };
    st.running = true;
    let r = st.execute_next_instruction();
    assert_eq!(r, Err(Some(Instruction { opcode: OpCode::STA, mode: Some(AddressingMode::DirectZeroPage) })));
    assert_eq!(st.m, vec![0x85, 0x20, 0, 0]);
    assert!(!st.running);
}

#[test]
fn stored_state_short_memory_read_past_end_fails() {
    // LDA $30 on four bytes of memory.
    let mut st = StoredState { m: vec![0xA5, 0x30, 0, 0], ..StoredState::default() };
    st.running = true;
    st.a = 9;
    let r = st.execute_next_instruction();
    assert_eq!(r, Err(Some(Instruction { opcode: OpCode::LDA, mode: Some(AddressingMode::DirectZeroPage) })));
    assert!(!st.running);
    assert_eq!(st.a, 9);
    assert_eq!(st.pc(), 0);
    assert_eq!(st.m, vec![0xA5, 0x30, 0, 0]);
}

#[test]
fn stored_state_short_memory_break_without_vector_fails() {
    let mut st = StoredState { m: vec![0x00; 0x300], ..StoredState::default() };
    st.s = 0xFF;
    st.running = true;
    let r = st.execute_next_instruction();
    assert_eq!(r, Err(Some(Instruction { opcode: OpCode::BRK, mode: None })));
    assert_eq!(st.s, 0xFF);
    assert_eq!(st.m, vec![0x00; 0x300]);
}

#[test]
fn memory_from_vector_pads_with_zeros() {
    let mut memory = DefaultVirtualMemory::from(vec![9u8, 8, 7]);
    assert_eq!(memory.as_slice().len(), 0x10000);
    assert_eq!(memory.read(0), 9);
    assert_eq!(memory.read(2), 7);
    assert_eq!(memory.read(3), 0);
    assert!(memory == DefaultVirtualMemory::from_bytes(vec![9, 8, 7]));
}

#[test]
fn cycle_text_names_direction_address_and_value() {
    let cycle = r6502::state::SystemCycle { address: 512, value: 169, action: SystemAction::READ };
    assert_eq!(cycle.text(), "read from 512 with value 169 ");
    let cycle = r6502::state::SystemCycle { address: 0, value: 7, action: SystemAction::WRITE };
    assert_eq!(cycle.text(), "write from 0 with value 7 ");
    let cycle = r6502::state::SystemCycle { address: 65535, value: 255, action: SystemAction::WRITE };
    assert_eq!(cycle.text(), "write from 65535 with value 255 ");
}

#[test]
fn processor_states_compare_by_every_field() {
    let a = r6502::state::SystemState::default();
    let mut b = r6502::state::SystemState::default();
    assert_eq!(a, b);
    b.cycles.push(r6502::state::SystemCycle { address: 1, value: 2, action: SystemAction::READ });
    assert_ne!(a, b);
}

#[test]
fn flag_text_names_set_flags_in_declaration_order() {
    assert_eq!(SystemFlags::from_bits_retain(0b0000_0011).text(), "zero | carry");
    assert_eq!(SystemFlags::empty().text(), "");
    assert_eq!(SystemFlags::from_bits_retain(0b1000_0000).text(), "negative");
    assert_eq!(
        SystemFlags::from_bits_retain(0xFF).text(),
        "negative | overflow | expansion | break_command | decimal | interrupt_disable | zero | carry"
    );
    assert_eq!(SystemFlags::from_bits_retain(0b0011_0100).text(), "expansion | break_command | interrupt_disable");
}

#[test]
fn memory_reads_the_last_write_or_the_initial_byte() {
    let mut memory = DefaultVirtualMemory::from(vec![5u8, 6, 7]);
    memory.write(0x0001, 0x10);
    memory.write(0x4000, 0x20);
    memory.write(0x0001, 0x30);
    assert_eq!(memory.read(0x0001), 0x30);
    assert_eq!(memory.read(0x4000), 0x20);
    assert_eq!(memory.read(0x0002), 7);
    assert_eq!(memory.read(0x0003), 0);
    assert_eq!(memory.read(0x0001), 0x30);
    let mut fresh = DefaultVirtualMemory::default();
    fresh.write(0xFFFF, 1);
    assert_eq!(fresh.read(0xFFFF), 1);
    assert_eq!(fresh.read(0xFFFE), 0);
}
