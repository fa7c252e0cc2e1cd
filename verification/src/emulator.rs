//! The emulated machine: a processor attached to a byte-addressed memory.
use vstd::prelude::*;

pub mod instructions;
pub mod matrix;
pub mod memory;
pub mod semantics;
pub mod state;

use crate::emulator::instructions::{decode, Instruction, OpCode};
use crate::emulator::semantics::{mem_after, regs, step, wrap16, Registers};
use crate::state::{SystemAction, SystemCycle, SystemState};

verus! {

/// A 64 KiB address space seen by the processor. Implementations behave as
/// plain memory: a read gives the byte last written at its address and
/// changes nothing, a write changes only the byte it addresses.
pub trait VirtualMemory {
    /// The byte that a read of `address` gives.
    spec fn peek(&self, address: u16) -> u8;

    fn read(&mut self, address: u16) -> (byte: u8)
        ensures
            byte == old(self).peek(address),
            forall|a: u16| #[trigger] final(self).peek(a) == old(self).peek(a),
    ;

    fn write(&mut self, address: u16, value: u8)
        ensures
            forall|a: u16|
                #[trigger] final(self).peek(a) == if a == address {
                    value
                } else {
                    old(self).peek(a)
                },
    ;
}

/// The contents of a memory as a function from address to byte.
pub open spec fn mem_of<M: VirtualMemory>(m: M) -> spec_fn(u16) -> u8 {
    |a: u16| m.peek(a)
}

/// Number of bytes in the address space.
pub const MEMORY_SIZE: usize = 0x10000;

/// A memory of 64 KiB of plain RAM.
#[derive(PartialEq, Eq, PartialOrd, Ord)]
pub struct DefaultVirtualMemory {
    m: Vec<u8>,
}

impl DefaultVirtualMemory {
    #[verifier::type_invariant]
    spec fn covers_address_space(self) -> bool {
        self.m@.len() == MEMORY_SIZE
    }

    /// The bytes of the memory, from address 0 up.
    pub closed spec fn bytes(self) -> Seq<u8> {
        self.m@
    }

    /// The bytes of the memory are those of its vector.
    proof fn lemma_bytes(&self)
        ensures
            self.bytes() == self.m@,
    {
    }

    /// A memory holding `value`, cut or padded with zeros to 64 KiB.
    pub fn from_bytes(value: Vec<u8>) -> (mem: DefaultVirtualMemory)
        ensures
            mem.bytes().len() == MEMORY_SIZE,
            forall|i: int|
                0 <= i < MEMORY_SIZE ==> #[trigger] mem.bytes()[i] == if i < value@.len() {
                    value@[i]
                } else {
                    0u8
                },
    {
        let mut nvec = value;
        nvec.resize(MEMORY_SIZE, 0);
        proof {
            assert forall|i: int| 0 <= i < MEMORY_SIZE implies #[trigger] nvec@[i] == if i < value@.len() {
                value@[i]
            } else {
                0u8
            } by {
                if i < value@.len() {
                    if value@.len() > MEMORY_SIZE {
                        assert(nvec@ == value@.subrange(0, MEMORY_SIZE as int));
                    } else {
                        assert(nvec@.subrange(0, value@.len() as int) == value@);
                        assert(nvec@.subrange(0, value@.len() as int)[i] == nvec@[i]);
                    }
                }
            }
        }
        DefaultVirtualMemory { m: nvec }
    }

    /// The bytes of the memory, from address 0 up; there are always 64 KiB.
    pub fn as_slice(&self) -> (s: &[u8])
        ensures
            s@ == self.bytes(),
            s@.len() == MEMORY_SIZE,
    {
        proof {
            use_type_invariant(self);
        }
        self.m.as_slice()
    }
}

impl From<Vec<u8>> for DefaultVirtualMemory {
    /// A memory holding `value`, cut or padded with zeros to 64 KiB.
    fn from(value: Vec<u8>) -> (mem: DefaultVirtualMemory)
        ensures
            mem.bytes().len() == MEMORY_SIZE,
            forall|i: int|
                0 <= i < MEMORY_SIZE ==> #[trigger] mem.bytes()[i] == if i < value@.len() {
                    value@[i]
                } else {
                    0u8
                },
    {
        DefaultVirtualMemory::from_bytes(value)
    }
}

/// The bytes of a memory made from `value`: `value` cut or padded with
/// zeros to 64 KiB.
pub open spec fn padded_bytes(value: Seq<u8>) -> Seq<u8> {
    Seq::new(MEMORY_SIZE as nat, |i: int| if i < value.len() { value[i] } else { 0u8 })
}

impl vstd::std_specs::convert::FromSpecImpl<Vec<u8>> for DefaultVirtualMemory {
    /// A memory is not determined by its bytes alone as far as the verifier
    /// knows, so the conversion's result is stated by the `ensures` of
    /// `from` above rather than claimed here.
    open spec fn obeys_from_spec() -> bool {
        false
    }

    open spec fn from_spec(v: Vec<u8>) -> DefaultVirtualMemory {
        choose|mem: DefaultVirtualMemory| mem.bytes() == padded_bytes(v@)
    }
}

impl Clone for DefaultVirtualMemory {
    fn clone(&self) -> (copy: DefaultVirtualMemory)
        ensures
            copy.bytes() == self.bytes(),
    {
        proof {
            use_type_invariant(self);
        }
        let m = self.m.clone();
        assert(m@ =~= self.m@);
        DefaultVirtualMemory { m }
    }
}

impl Default for DefaultVirtualMemory {
    fn default() -> (mem: DefaultVirtualMemory)
        ensures
            mem.bytes().len() == MEMORY_SIZE,
            forall|i: int| 0 <= i < MEMORY_SIZE ==> #[trigger] mem.bytes()[i] == 0u8,
    {
        DefaultVirtualMemory { m: vec![0u8; MEMORY_SIZE] }
    }
}

impl VirtualMemory for DefaultVirtualMemory {
    open spec fn peek(&self, address: u16) -> u8 {
        self.bytes()[address as int]
    }

    fn read(&mut self, address: u16) -> (byte: u8) {
        proof {
            use_type_invariant(&*self);
        }
        self.m[address as usize]
    }

    fn write(&mut self, address: u16, value: u8) {
        proof {
            use_type_invariant(&*self);
        }
        self.m[address as usize] = value;
    }
}

/// The byte at `address` once the writes of `writes`, each an address and
/// a value, are made in order over memory `initial`: the value of the last
/// write to `address`, or the initial byte when none writes there.
pub open spec fn after_writes(initial: spec_fn(u16) -> u8, writes: Seq<(u16, u8)>, address: u16) -> u8
    decreases writes.len(),
{
    if writes.len() == 0 {
        initial(address)
    } else if writes.last().0 == address {
        writes.last().1
    } else {
        after_writes(initial, writes.drop_last(), address)
    }
}

/// `after` is `before` with the single write `w` made, as the contract of
/// [`VirtualMemory::write`] gives it.
pub open spec fn one_write<M: VirtualMemory>(before: M, after: M, w: (u16, u8)) -> bool {
    forall|a: u16| #[trigger] after.peek(a) == if a == w.0 { w.1 } else { before.peek(a) }
}

/// `states` are a memory before each write of `writes` and after the last.
pub open spec fn written_in_turn<M: VirtualMemory>(states: Seq<M>, writes: Seq<(u16, u8)>) -> bool {
    &&& states.len() == writes.len() + 1
    &&& forall|i: int| 0 <= i < writes.len() ==> one_write(states[i], states[i + 1], #[trigger] writes[i])
}

/// A memory written in turn reads as `after_writes` of its first state.
proof fn lemma_written_in_turn<M: VirtualMemory>(states: Seq<M>, writes: Seq<(u16, u8)>, address: u16)
    requires
        written_in_turn(states, writes),
    ensures
        states.last().peek(address) == after_writes(mem_of(states[0]), writes, address),
    decreases writes.len(),
{
    if writes.len() > 0 {
        let k = writes.len() - 1;
        let earlier = states.drop_last();
        assert forall|i: int| 0 <= i < writes.drop_last().len() implies one_write(
            earlier[i],
            earlier[i + 1],
            #[trigger] writes.drop_last()[i],
        ) by {
            assert(writes.drop_last()[i] == writes[i]);
            assert(one_write(states[i], states[i + 1], writes[i]));
        }
        lemma_written_in_turn(earlier, writes.drop_last(), address);
        assert(one_write(states[k], states[k + 1], writes[k]));
        assert(states.last().peek(address) == if address == writes[k].0 {
            writes[k].1
        } else {
            states[k].peek(address)
        });
    }
}

/// The last write to an address decides it: `after_writes` is the value of
/// the last write there, or the initial byte when no write goes there.
proof fn lemma_after_writes(initial: spec_fn(u16) -> u8, writes: Seq<(u16, u8)>, address: u16)
    ensures
        forall|j: int|
            0 <= j < writes.len() && writes[j].0 == address && (forall|k: int|
                j < k < writes.len() ==> #[trigger] writes[k].0 != address) ==> after_writes(initial, writes, address)
                == #[trigger] writes[j].1,
        (forall|j: int| 0 <= j < writes.len() ==> #[trigger] writes[j].0 != address) ==> after_writes(
            initial,
            writes,
            address,
        ) == initial(address),
    decreases writes.len(),
{
    if writes.len() > 0 {
        let rest = writes.drop_last();
        lemma_after_writes(initial, rest, address);
        assert forall|j: int|
            0 <= j < writes.len() && writes[j].0 == address && (forall|k: int|
                j < k < writes.len() ==> #[trigger] writes[k].0 != address) implies after_writes(
            initial,
            writes,
            address,
        ) == #[trigger] writes[j].1 by {
            if j < writes.len() - 1 {
                assert(writes[writes.len() - 1].0 != address);
                assert(rest[j] == writes[j]);
                assert forall|k: int| j < k < rest.len() implies #[trigger] rest[k].0 != address by {
                    assert(rest[k] == writes[k]);
                }
            }
        }
        if forall|j: int| 0 <= j < writes.len() ==> #[trigger] writes[j].0 != address {
            assert(writes[writes.len() - 1].0 != address);
            assert forall|j: int| 0 <= j < rest.len() implies #[trigger] rest[j].0 != address by {
                assert(rest[j] == writes[j]);
            }
        }
    }
}

/// Reading a memory made from the bytes `initial` (cut or padded with
/// zeros to 64 KiB, as [`DefaultVirtualMemory::from`] and, with no bytes,
/// [`DefaultVirtualMemory::default`] make it) after any sequence of writes
/// gives the value of the last write to that address, or, when no write
/// went there, the initial byte: `initial`'s byte, or zero past its end.
pub proof fn law_read_after_writes_to_memory(
    states: Seq<DefaultVirtualMemory>,
    writes: Seq<(u16, u8)>,
    initial: Seq<u8>,
    address: u16,
)
    requires
        written_in_turn(states, writes),
        forall|i: int|
            0 <= i < MEMORY_SIZE ==> #[trigger] states[0].bytes()[i] == if i < initial.len() {
                initial[i]
            } else {
                0u8
            },
    ensures
        forall|j: int|
            0 <= j < writes.len() && writes[j].0 == address && (forall|k: int|
                j < k < writes.len() ==> #[trigger] writes[k].0 != address) ==> states.last().peek(address)
                == #[trigger] writes[j].1,
        (forall|j: int| 0 <= j < writes.len() ==> #[trigger] writes[j].0 != address) ==> states.last().peek(
            address,
        ) == if (address as int) < initial.len() {
            initial[address as int]
        } else {
            0u8
        },
{
    lemma_written_in_turn(states, writes, address);
    lemma_after_writes(mem_of(states[0]), writes, address);
    assert(states[0].peek(address) == states[0].bytes()[address as int]);
}

/// A processor attached to a memory.
pub struct CPUEmulator<M: VirtualMemory> {
    pub memory: M,
    pub state: SystemState,
}

/// What running the next instruction gives, for a machine that is running,
/// has registers `r` and memory `mem`: the result, the registers after it,
/// whether it still runs, and the bus cycles of the instruction. The opcode
/// fetch itself is not among the cycles.
pub open spec fn next_instruction(r: Registers, mem: spec_fn(u16) -> u8) -> (
    Result<Instruction, Option<Instruction>>,
    Registers,
    bool,
    Seq<SystemCycle>,
) {
    let instruction = decode(mem(r.pc));
    if instruction.opcode is UnknownInstruction || instruction.opcode is BadInstruction {
        (Err(Some(instruction)), r, false, seq![])
    } else {
        let done = step(instruction, Registers { pc: wrap16(r.pc + 1), ..r }, mem);
        match done.0 {
            Ok(_) => (Ok(instruction), done.1, true, done.2),
            Err(_) => (Err(Some(instruction)), done.1, false, done.2),
        }
    }
}

impl<M: VirtualMemory> CPUEmulator<M> {
    /// Fetches, decodes and executes the instruction at the program counter.
    /// A stopped machine answers `Err(None)` and changes nothing. An opcode
    /// that does not decode, or an instruction that fails, stops the machine
    /// and is answered with `Err(Some(instruction))`.
    pub fn execute_next_instruction(&mut self) -> (res: Result<Instruction, Option<Instruction>>)
        ensures
            !old(self).state.running ==> res == Err::<Instruction, Option<Instruction>>(None)
                && regs(final(self).state) == regs(old(self).state)
                && !final(self).state.running
                && final(self).state.cycles@ == old(self).state.cycles@
                && forall|a: u16| #[trigger] final(self).memory.peek(a) == old(self).memory.peek(a),
            old(self).state.running ==> ({
                let next = next_instruction(regs(old(self).state), mem_of(old(self).memory));
                &&& res == next.0
                &&& regs(final(self).state) == next.1
                &&& final(self).state.running == next.2
                &&& final(self).state.cycles@ == old(self).state.cycles@ + next.3
                &&& forall|a: u16| #[trigger]
                    final(self).memory.peek(a) == mem_after(next.3, mem_of(old(self).memory), a)
            }),
    {
        if !self.state.running {
            return Err(None);
        }
        let ibyte = self.memory.read(self.state.pc);
        let instruction = Instruction::from(ibyte);
        match instruction.opcode {
            OpCode::UnknownInstruction(_) => {
                self.state.running = false;
                return Err(Some(instruction));
            },
            OpCode::BadInstruction(_) => {
                self.state.running = false;
                return Err(Some(instruction));
            },
            _ => (),
        };
        self.state.pc = self.state.pc.wrapping_add(1);
        let ghost start = *self;
        proof {
            assert(mem_of(start.memory) =~= mem_of(old(self).memory));
        }
        match instruction.execute(self) {
            Ok(_) => Ok(instruction),
            Err(_) => {
                self.state.running = false;
                Err(Some(instruction))
            },
        }
    }
}

impl<M: VirtualMemory> VirtualMemory for CPUEmulator<M> {
    open spec fn peek(&self, address: u16) -> u8 {
        self.memory.peek(address)
    }

    /// Reads a byte and logs the read cycle.
    fn read(&mut self, address: u16) -> (byte: u8)
        ensures
            byte == old(self).memory.peek(address),
            forall|a: u16| #[trigger] final(self).memory.peek(a) == old(self).memory.peek(a),
            final(self).state.cycles@ == old(self).state.cycles@.push(
                SystemCycle { address, value: byte, action: SystemAction::READ },
            ),
            regs(final(self).state) == regs(old(self).state),
            final(self).state.running == old(self).state.running,
    {
        let byte = self.memory.read(address);
        self.state.cycles.push(SystemCycle { address, value: byte, action: SystemAction::READ });
        byte
    }

    /// Writes a byte and logs the write cycle.
    fn write(&mut self, address: u16, value: u8)
        ensures
            forall|a: u16|
                #[trigger] final(self).memory.peek(a) == if a == address {
                    value
                } else {
                    old(self).memory.peek(a)
                },
            final(self).state.cycles@ == old(self).state.cycles@.push(
                SystemCycle { address, value, action: SystemAction::WRITE },
            ),
            regs(final(self).state) == regs(old(self).state),
            final(self).state.running == old(self).state.running,
    {
        self.memory.write(address, value);
        self.state.cycles.push(SystemCycle { address, value, action: SystemAction::WRITE });
    }
}

/// The emulator, by its shorter name.
pub type Emulator<M> = CPUEmulator<M>;

/// The emulator's builder, by its shorter name.
pub type EmulatorBuilder<M> = CPUEmulatorBuilder<M>;

/// Why a [`CPUEmulatorBuilder`] could not build an emulator.
#[derive(Debug, PartialEq, Eq, Clone, Copy)]
pub enum CPUEmulatorBuilderError {
    /// The named field was never given.
    UninitializedField(&'static str),
}

/// Collects the parts of a [`CPUEmulator`] one by one.
pub struct CPUEmulatorBuilder<M: VirtualMemory> {
    pub memory: Option<M>,
    pub state: Option<SystemState>,
}

impl<M: VirtualMemory> Default for CPUEmulatorBuilder<M> {
    fn default() -> (b: CPUEmulatorBuilder<M>)
        ensures
            b.memory is None,
            b.state is None,
    {
        CPUEmulatorBuilder { memory: None, state: None }
    }
}

impl<M: VirtualMemory> CPUEmulatorBuilder<M> {
    /// Sets the memory.
    pub fn memory(self, value: M) -> (b: CPUEmulatorBuilder<M>)
        ensures
            b.memory == Some(value),
            b.state == self.state,
    {
        CPUEmulatorBuilder { memory: Some(value), state: self.state }
    }

    /// Sets the processor state.
    pub fn state(self, value: SystemState) -> (b: CPUEmulatorBuilder<M>)
        ensures
            b.memory == self.memory,
            b.state == Some(value),
    {
        CPUEmulatorBuilder { memory: self.memory, state: Some(value) }
    }

    /// The emulator of the given parts; an error names the first part, in
    /// the order memory then state, that was not given.
    pub fn build(self) -> (r: Result<CPUEmulator<M>, CPUEmulatorBuilderError>)
        ensures
            self.memory is None ==> r == Err::<CPUEmulator<M>, CPUEmulatorBuilderError>(
                CPUEmulatorBuilderError::UninitializedField("memory"),
            ),
            self.memory is Some && self.state is None ==> r == Err::<
                CPUEmulator<M>,
                CPUEmulatorBuilderError,
            >(CPUEmulatorBuilderError::UninitializedField("state")),
            self.memory is Some && self.state is Some ==> (r matches Ok(e) && e.memory
                == self.memory.unwrap() && e.state == self.state.unwrap()),
    {
        match self.memory {
            None => Err(CPUEmulatorBuilderError::UninitializedField("memory")),
            Some(memory) => match self.state {
                None => Err(CPUEmulatorBuilderError::UninitializedField("state")),
                Some(state) => Ok(CPUEmulator { memory, state }),
            },
        }
    }
}

} // verus!
