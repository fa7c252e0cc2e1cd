//! A processor state that owns its memory as a plain vector of bytes, with
//! the status register held as a byte behind named flag accessors.
use vstd::prelude::*;

use crate::emulator::instructions::{decode, Instruction, OpCode};
use crate::emulator::semantics::{law_failed_step_changes_nothing, mem_after, regs, step, wrap16, Registers};
use crate::emulator::{mem_of, VirtualMemory, next_instruction, CPUEmulator, DefaultVirtualMemory, MEMORY_SIZE};
use crate::state::{
    flag_set, SystemAction, SystemCycle, SystemFlags, FLAG_BREAK, FLAG_CARRY, FLAG_DECIMAL, FLAG_EXPANSION,
    FLAG_INTERRUPT_DISABLE, FLAG_NEGATIVE, FLAG_OVERFLOW, FLAG_ZERO,
};

pub use crate::state::EmulatorError;

verus! {

/// The status register as a raw byte.
#[derive(Debug, PartialEq, Eq, Structural, Clone, Copy)]
pub struct StatusFlags {
    pub value: u8,
}

impl StatusFlags {
    pub fn new(value: u8) -> (f: StatusFlags)
        ensures
            f.value == value,
    {
        StatusFlags { value }
    }

    /// Whether the negative flag is set.
    pub fn negative_flag(&self) -> (b: bool)
        ensures
            b == ((self.value & FLAG_NEGATIVE) != 0),
    {
        (self.value & FLAG_NEGATIVE) != 0
    }

    /// Sets or clears the negative flag.
    pub fn set_negative_flag(&mut self, set: bool)
        ensures
            final(self).value == flag_set(old(self).value, FLAG_NEGATIVE, set),
    {
        if set {
            self.value = self.value | FLAG_NEGATIVE;
        } else {
            self.value = self.value & !FLAG_NEGATIVE;
        }
    }

    /// Whether the overflow flag is set.
    pub fn overflow_flag(&self) -> (b: bool)
        ensures
            b == ((self.value & FLAG_OVERFLOW) != 0),
    {
        (self.value & FLAG_OVERFLOW) != 0
    }

    /// Sets or clears the overflow flag.
    pub fn set_overflow_flag(&mut self, set: bool)
        ensures
            final(self).value == flag_set(old(self).value, FLAG_OVERFLOW, set),
    {
        if set {
            self.value = self.value | FLAG_OVERFLOW;
        } else {
            self.value = self.value & !FLAG_OVERFLOW;
        }
    }

    /// Whether the expansion bit is set.
    pub fn expansion_flag(&self) -> (b: bool)
        ensures
            b == ((self.value & FLAG_EXPANSION) != 0),
    {
        (self.value & FLAG_EXPANSION) != 0
    }

    /// Sets or clears the expansion bit.
    pub fn set_expansion_flag(&mut self, set: bool)
        ensures
            final(self).value == flag_set(old(self).value, FLAG_EXPANSION, set),
    {
        if set {
            self.value = self.value | FLAG_EXPANSION;
        } else {
            self.value = self.value & !FLAG_EXPANSION;
        }
    }

    /// Whether the break flag is set.
    pub fn break_command_flag(&self) -> (b: bool)
        ensures
            b == ((self.value & FLAG_BREAK) != 0),
    {
        (self.value & FLAG_BREAK) != 0
    }

    /// Sets or clears the break flag.
    pub fn set_break_command_flag(&mut self, set: bool)
        ensures
            final(self).value == flag_set(old(self).value, FLAG_BREAK, set),
    {
        if set {
            self.value = self.value | FLAG_BREAK;
        } else {
            self.value = self.value & !FLAG_BREAK;
        }
    }

    /// Whether the decimal flag is set.
    pub fn decimal_flag(&self) -> (b: bool)
        ensures
            b == ((self.value & FLAG_DECIMAL) != 0),
    {
        (self.value & FLAG_DECIMAL) != 0
    }

    /// Sets or clears the decimal flag.
    pub fn set_decimal_flag(&mut self, set: bool)
        ensures
            final(self).value == flag_set(old(self).value, FLAG_DECIMAL, set),
    {
        if set {
            self.value = self.value | FLAG_DECIMAL;
        } else {
            self.value = self.value & !FLAG_DECIMAL;
        }
    }

    /// Whether the interrupt-disable flag is set.
    pub fn interrupt_disable_flag(&self) -> (b: bool)
        ensures
            b == ((self.value & FLAG_INTERRUPT_DISABLE) != 0),
    {
        (self.value & FLAG_INTERRUPT_DISABLE) != 0
    }

    /// Sets or clears the interrupt-disable flag.
    pub fn set_interrupt_disable_flag(&mut self, set: bool)
        ensures
            final(self).value == flag_set(old(self).value, FLAG_INTERRUPT_DISABLE, set),
    {
        if set {
            self.value = self.value | FLAG_INTERRUPT_DISABLE;
        } else {
            self.value = self.value & !FLAG_INTERRUPT_DISABLE;
        }
    }

    /// Whether the zero flag is set.
    pub fn zero_flag(&self) -> (b: bool)
        ensures
            b == ((self.value & FLAG_ZERO) != 0),
    {
        (self.value & FLAG_ZERO) != 0
    }

    /// Sets or clears the zero flag.
    pub fn set_zero_flag(&mut self, set: bool)
        ensures
            final(self).value == flag_set(old(self).value, FLAG_ZERO, set),
    {
        if set {
            self.value = self.value | FLAG_ZERO;
        } else {
            self.value = self.value & !FLAG_ZERO;
        }
    }

    /// Whether the carry flag is set.
    pub fn carry_flag(&self) -> (b: bool)
        ensures
            b == ((self.value & FLAG_CARRY) != 0),
    {
        (self.value & FLAG_CARRY) != 0
    }

    /// Sets or clears the carry flag.
    pub fn set_carry_flag(&mut self, set: bool)
        ensures
            final(self).value == flag_set(old(self).value, FLAG_CARRY, set),
    {
        if set {
            self.value = self.value | FLAG_CARRY;
        } else {
            self.value = self.value & !FLAG_CARRY;
        }
    }
}

/// Size of the memory of a fresh [`SystemState`].
pub const DEFAULT_MEMORY_SIZE: usize = 128_000;

/// A processor state holding its own memory.
#[derive(Debug, PartialEq, Eq)]
pub struct SystemState {
    pub running: bool,
    pub pc: u16,
    pub m: Vec<u8>,
    pub a: u8,
    pub x: u8,
    pub y: u8,
    /// Stack pointer. The processor's 256-byte stack lies between $0100
    /// and $01FF.
    pub s: u8,
    pub p: StatusFlags,
}

/// The registers of a state.
pub open spec fn state_regs(st: SystemState) -> Registers {
    Registers { pc: st.pc, a: st.a, x: st.x, y: st.y, s: st.s, p: st.p.value }
}

/// The bytes of `m` after a write of `value` at `address`: bytes past the
/// end that lie before `address` become zero.
pub open spec fn written(m: Seq<u8>, address: u16, value: u8) -> Seq<u8> {
    if address < m.len() {
        m.update(address as int, value)
    } else {
        m + Seq::new((address - m.len()) as nat, |i: int| 0u8) + seq![value]
    }
}

/// A read after a write gives the byte written, and every other byte that
/// memory held before keeps its value.
pub proof fn law_read_after_write(m: Seq<u8>, address: u16, value: u8)
    ensures
        address < written(m, address, value).len(),
        written(m, address, value)[address as int] == value,
        forall|i: int| 0 <= i < m.len() && i != address ==> #[trigger] written(m, address, value)[i] == m[i],
{
}

impl Default for SystemState {
    fn default() -> (st: SystemState)
        ensures
            !st.running,
            st.pc == 0,
            st.a == 0,
            st.x == 0,
            st.y == 0,
            st.s == 0,
            st.p.value == 0,
            st.m@.len() == DEFAULT_MEMORY_SIZE,
            forall|i: int| 0 <= i < DEFAULT_MEMORY_SIZE ==> #[trigger] st.m@[i] == 0u8,
    {
        let mut memory: Vec<u8> = Vec::new();
        memory.resize(DEFAULT_MEMORY_SIZE, 0x00);
        SystemState {
            running: false,
            pc: 0,
            m: memory,
            a: 0,
            x: 0,
            y: 0,
            s: 0,
            p: StatusFlags { value: 0 },
        }
    }
}

/// The memory that a state's bytes give the processor: the bytes in order,
/// and zero past their end.
pub open spec fn padded(m: Seq<u8>) -> spec_fn(u16) -> u8 {
    |a: u16| if (a as int) < m.len() { m[a as int] } else { 0u8 }
}

/// The length that memory of `len` bytes reaches when the writes of `log`
/// are made in order: a write past the end grows it to just cover the
/// address written.
pub open spec fn grown_len(log: Seq<SystemCycle>, len: nat) -> nat
    decreases log.len(),
{
    if log.len() == 0 {
        len
    } else {
        let g = grown_len(log.drop_last(), len);
        if log.last().action is WRITE && log.last().address >= g {
            (log.last().address + 1) as nat
        } else {
            g
        }
    }
}

/// Whether some read of `log` falls past the end of memory that starts with
/// `len` bytes and grows with the writes made before that read.
pub open spec fn faults(log: Seq<SystemCycle>, len: nat) -> bool
    decreases log.len(),
{
    if log.len() == 0 {
        false
    } else {
        faults(log.drop_last(), len) || (log.last().action is READ && log.last().address >= grown_len(
            log.drop_last(),
            len,
        ))
    }
}

/// Memory only grows, and no write reaches past the address space.
proof fn lemma_grown_len_bounds(log: Seq<SystemCycle>, len: nat)
    ensures
        len <= grown_len(log, len),
        len <= MEMORY_SIZE ==> grown_len(log, len) <= MEMORY_SIZE,
    decreases log.len(),
{
    if log.len() > 0 {
        lemma_grown_len_bounds(log.drop_last(), len);
    }
}

/// Memory that covers the address space never grows, and no read falls
/// past its end.
proof fn lemma_full_memory(log: Seq<SystemCycle>, len: nat)
    requires
        len >= MEMORY_SIZE,
    ensures
        grown_len(log, len) == len,
        !faults(log, len),
    decreases log.len(),
{
    if log.len() > 0 {
        lemma_full_memory(log.drop_last(), len);
    }
}

/// `post` is `pre` after running the decoded instruction at its program
/// counter. When the instruction succeeds and reads nothing past the end of
/// memory, the registers and the first 64 KiB are those that the processor
/// leaves on the zero-padded memory, memory grows to cover every write, and
/// bytes past 64 KiB stay. Otherwise the state stops and nothing else
/// changes.
pub open spec fn executed(pre: SystemState, post: SystemState, res: Result<Instruction, Option<Instruction>>) -> bool {
    let mem = padded(pre.m@);
    let next = next_instruction(state_regs(pre), mem);
    let len = pre.m@.len();
    if next.0 is Ok && !faults(next.3, len) {
        &&& res == next.0
        &&& state_regs(post) == next.1
        &&& post.running == pre.running
        &&& post.m@.len() == grown_len(next.3, len)
        &&& forall|i: int|
            0 <= i < post.m@.len() ==> #[trigger] post.m@[i] == if i < MEMORY_SIZE {
                mem_after(next.3, mem, i as u16)
            } else {
                pre.m@[i]
            }
    } else {
        &&& res == Err::<Instruction, Option<Instruction>>(Some(decode(mem(pre.pc))))
        &&& state_regs(post) == state_regs(pre)
        &&& !post.running
        &&& post.m@ == pre.m@
    }
}

impl SystemState {
    /// The byte at `address`; an address past the end of memory is an error.
    pub fn read(&mut self, address: u16) -> (r: Result<u8, EmulatorError>)
        ensures
            *final(self) == *old(self),
            address < old(self).m@.len() ==> r == Ok::<u8, EmulatorError>(old(self).m@[address as int]),
            address >= old(self).m@.len() ==> r == Err::<u8, EmulatorError>(EmulatorError::MemoryReadError),
    {
        if (address as usize) < self.m.len() {
            Ok(self.m[address as usize])
        } else {
            Err(EmulatorError::MemoryReadError)
        }
    }

    /// The program counter.
    pub fn pc(&self) -> (pc: u16)
        ensures
            pc == self.pc,
    {
        self.pc
    }

    /// Sets the program counter.
    pub fn set_pc(&mut self, address: u16)
        ensures
            *final(self) == (SystemState { pc: address, ..*old(self) }),
    {
        self.pc = address
    }

    /// Writes `value` at `address`, first growing memory with zeros when
    /// `address` lies past its end. Memory of exactly `address` bytes cannot
    /// be written at `address`.
    pub fn write(&mut self, address: u16, value: u8) -> (r: Result<(), EmulatorError>)
        requires
            old(self).m@.len() != address,
        ensures
            r is Ok,
            final(self).m@ == written(old(self).m@, address, value),
            *final(self) == (SystemState { m: final(self).m, ..*old(self) }),
    {
        let length = self.m.len();
        if length < address as usize {
            self.m.resize(address as usize + 1, 0x00);
        }
        self.m[address as usize] = value;
        proof {
            let expected = written(old(self).m@, address, value);
            if address >= old(self).m@.len() {
                assert forall|i: int| 0 <= i < self.m@.len() implies #[trigger] self.m@[i] == expected[i] by {
                    if i < old(self).m@.len() {
                        assert(self.m@[i] == self.m@.subrange(0, old(self).m@.len() as int)[i]);
                    }
                }
                assert(self.m@ =~= expected);
            }
        }
        Ok(())
    }

    /// Fetches, decodes and executes the instruction at the program counter.
    /// Memory past the end of the bytes reads as missing: a program counter
    /// there is answered with `Err(None)`, and an instruction that reads
    /// there fails. Writes past the end grow memory, filling the gap with
    /// zeros. An opcode that does not decode, or an instruction that fails,
    /// stops the state, changes nothing else and is answered with
    /// `Err(Some(instruction))`.
    pub fn execute_next_instruction(&mut self) -> (res: Result<Instruction, Option<Instruction>>)
        ensures
            old(self).pc >= old(self).m@.len() ==> res == Err::<Instruction, Option<Instruction>>(None)
                && state_regs(*final(self)) == state_regs(*old(self)) && !final(self).running
                && final(self).m@ == old(self).m@,
            old(self).pc < old(self).m@.len() ==> executed(*old(self), *final(self), res),
    {
        let location = self.pc;
        let ibyte = match self.read(location) {
            Ok(ibyte) => ibyte,
            Err(_) => {
                self.running = false;
                return Err(None);
            },
        };
        let instruction = Instruction::from(ibyte);
        match instruction.opcode {
            OpCode::UnknownInstruction(_) => {
                self.running = false;
                return Err(Some(instruction));
            },
            OpCode::BadInstruction(_) => {
                self.running = false;
                return Err(Some(instruction));
            },
            _ => (),
        };
        let location = location.wrapping_add(1);
        if self.m.len() >= MEMORY_SIZE {
            self.run_in_place(instruction, location)
        } else {
            self.run_on_copy(instruction, location)
        }
    }

    /// Runs a decoded instruction on memory that covers the whole address
    /// space: the first 64 KiB are lent to a processor for the length of
    /// the instruction while the rest waits aside.
    fn run_in_place(&mut self, instruction: Instruction, location: u16) -> (res: Result<
        Instruction,
        Option<Instruction>,
    >)
        requires
            old(self).m@.len() >= MEMORY_SIZE,
            old(self).pc < old(self).m@.len(),
            instruction == decode(old(self).m@[old(self).pc as int]),
            !(instruction.opcode is UnknownInstruction),
            !(instruction.opcode is BadInstruction),
            location == wrap16(old(self).pc + 1),
        ensures
            executed(*old(self), *final(self), res),
    {
        let ghost mem = padded(old(self).m@);
        let ghost next = next_instruction(state_regs(*old(self)), mem);
        let ghost len = old(self).m@.len();
        let mut bytes: Vec<u8> = Vec::new();
        std::mem::swap(&mut bytes, &mut self.m);
        let mut rest = bytes.split_off(MEMORY_SIZE);
        let mut cpu = CPUEmulator {
            memory: DefaultVirtualMemory { m: bytes },
            state: crate::state::SystemState {
                running: true,
                pc: location,
                a: self.a,
                x: self.x,
                y: self.y,
                s: self.s,
                p: SystemFlags::from_bits_retain(self.p.value),
                cycles: Vec::new(),
            },
        };
        let ghost start = cpu;
        proof {
            assert(mem_of(start.memory) =~= mem);
            lemma_full_memory(next.3, len);
        }
        let result = instruction.execute(&mut cpu);
        let ghost done = step(instruction, regs(start.state), mem_of(start.memory));
        proof {
            assert(regs(start.state) == (Registers { pc: wrap16(old(self).pc + 1), ..state_regs(*old(self)) }));
            assert(next.3 == done.2);
            use_type_invariant(&cpu.memory);
            cpu.memory.lemma_bytes();
        }
        let mut bytes = cpu.memory.m;
        bytes.append(&mut rest);
        proof {
            assert forall|i: int| 0 <= i < MEMORY_SIZE implies #[trigger] bytes@[i] == mem_after(done.2, mem, i as u16) by {
                assert((i as u16) as int == i);
                assert(cpu.memory.peek(i as u16) == bytes@[i]);
            }
        }
        self.m = bytes;
        match result {
            Ok(_) => {
                self.a = cpu.state.a;
                self.x = cpu.state.x;
                self.y = cpu.state.y;
                self.s = cpu.state.s;
                self.p = StatusFlags::new(cpu.state.p.bits());
                self.pc = cpu.state.pc;
                Ok(instruction)
            },
            Err(_) => {
                proof {
                    law_failed_step_changes_nothing(instruction, regs(start.state), mem);
                    assert forall|i: int| 0 <= i < len implies #[trigger] self.m@[i] == old(self).m@[i] by {
                        if i < MEMORY_SIZE {
                            assert((i as u16) as int == i);
                            assert(mem_after(done.2, mem, i as u16) == mem(i as u16));
                        }
                    }
                    assert(self.m@ =~= old(self).m@);
                }
                self.running = false;
                Err(Some(instruction))
            },
        }
    }

    /// Runs a decoded instruction on memory shorter than the address space:
    /// a processor works on a copy padded with zeros, and the state takes
    /// its results only when no read fell past the end of memory.
    fn run_on_copy(&mut self, instruction: Instruction, location: u16) -> (res: Result<
        Instruction,
        Option<Instruction>,
    >)
        requires
            old(self).m@.len() < MEMORY_SIZE,
            old(self).pc < old(self).m@.len(),
            instruction == decode(old(self).m@[old(self).pc as int]),
            !(instruction.opcode is UnknownInstruction),
            !(instruction.opcode is BadInstruction),
            location == wrap16(old(self).pc + 1),
        ensures
            executed(*old(self), *final(self), res),
    {
        let ghost mem = padded(old(self).m@);
        let ghost next = next_instruction(state_regs(*old(self)), mem);
        let len = self.m.len();
        let copy = self.m.clone();
        proof {
            assert(copy@ =~= self.m@);
        }
        let mut cpu = CPUEmulator {
            memory: DefaultVirtualMemory::from_bytes(copy),
            state: crate::state::SystemState {
                running: true,
                pc: location,
                a: self.a,
                x: self.x,
                y: self.y,
                s: self.s,
                p: SystemFlags::from_bits_retain(self.p.value),
                cycles: Vec::new(),
            },
        };
        let ghost start = cpu;
        proof {
            assert forall|a: u16| #[trigger] start.memory.peek(a) == mem(a) by {
                assert(start.memory.bytes()[a as int] == mem(a));
            }
            assert(mem_of(start.memory) =~= mem);
        }
        let result = instruction.execute(&mut cpu);
        let ghost done = step(instruction, regs(start.state), mem_of(start.memory));
        proof {
            assert(regs(start.state) == (Registers { pc: wrap16(old(self).pc + 1), ..state_regs(*old(self)) }));
            assert(next.3 == done.2);
            assert(cpu.state.cycles@ =~= done.2);
            lemma_grown_len_bounds(done.2, len as nat);
        }
        let (fault, grown) = scan_cycles(&cpu.state.cycles, len);
        if result.is_err() || fault {
            self.running = false;
            return Err(Some(instruction));
        }
        proof {
            use_type_invariant(&cpu.memory);
            cpu.memory.lemma_bytes();
        }
        let mut bytes = cpu.memory.m;
        bytes.truncate(grown);
        proof {
            assert forall|i: int| 0 <= i < bytes@.len() implies #[trigger] bytes@[i] == mem_after(done.2, mem, i as u16) by {
                assert((i as u16) as int == i);
                assert(cpu.memory.peek(i as u16) == cpu.memory.m@[i]);
            }
        }
        self.m = bytes;
        self.a = cpu.state.a;
        self.x = cpu.state.x;
        self.y = cpu.state.y;
        self.s = cpu.state.s;
        self.p = StatusFlags::new(cpu.state.p.bits());
        self.pc = cpu.state.pc;
        Ok(instruction)
    }
}

/// Walks the bus cycles of an instruction over memory of `len` bytes that
/// grows with each write past its end: whether some read fell past the end,
/// and the length that memory reached.
fn scan_cycles(cycles: &Vec<SystemCycle>, len: usize) -> (r: (bool, usize))
    requires
        len <= MEMORY_SIZE,
    ensures
        r.0 == faults(cycles@, len as nat),
        r.1 == grown_len(cycles@, len as nat),
{
    let mut fault = false;
    let mut current = len;
    let mut i: usize = 0;
    while i < cycles.len()
        invariant
            i <= cycles@.len(),
            len <= current <= MEMORY_SIZE,
            current == grown_len(cycles@.take(i as int), len as nat),
            fault == faults(cycles@.take(i as int), len as nat),
        decreases cycles@.len() - i,
    {
        let address = cycles[i].address as usize;
        match cycles[i].action {
            SystemAction::READ => {
                if address >= current {
                    fault = true;
                }
            },
            SystemAction::WRITE => {
                if address >= current {
                    current = address + 1;
                }
            },
        }
        proof {
            assert(cycles@.take(i + 1).drop_last() =~= cycles@.take(i as int));
            assert(cycles@.take(i + 1).last() == cycles@[i as int]);
        }
        i = i + 1;
    }
    proof {
        assert(cycles@.take(i as int) =~= cycles@);
    }
    (fault, current)
}

} // verus!
