//! The meaning of one instruction: how its operand is fetched, what it does
//! to the registers, and which bus cycles it performs. Memory is seen as a
//! function from address to byte; the bytes an instruction writes are the
//! `WRITE` cycles of its log.
use vstd::prelude::*;

use crate::emulator::instructions::{AddressingMode, Instruction, MemoryPair, OpCode};
use crate::state::{
    flag_on, flag_set, EmulatorError, SystemAction, SystemCycle, SystemState, FLAG_CARRY,
    FLAG_DECIMAL, FLAG_INTERRUPT_DISABLE, FLAG_NEGATIVE, FLAG_OVERFLOW, FLAG_ZERO,
};

verus! {

/// The register file of the processor.
#[derive(Debug, PartialEq, Eq, Structural, Clone, Copy)]
pub struct Registers {
    pub pc: u16,
    pub a: u8,
    pub x: u8,
    pub y: u8,
    pub s: u8,
    pub p: u8,
}

/// The registers held by a processor state.
pub open spec fn regs(st: SystemState) -> Registers {
    Registers { pc: st.pc, a: st.a, x: st.x, y: st.y, s: st.s, p: st.p@ }
}

/// `v` reduced modulo 256.
pub open spec fn wrap8(v: int) -> u8 {
    (v % 256) as u8
}

/// `v` reduced modulo 65536.
pub open spec fn wrap16(v: int) -> u16 {
    (v % 65536) as u16
}

/// The little-endian 16-bit word of two bytes.
pub open spec fn word(low: u8, high: u8) -> u16 {
    (high * 256 + low) as u16
}

/// A byte read as a two's-complement offset.
pub open spec fn signed_offset(v: u8) -> int {
    if v < 128 {
        v as int
    } else {
        v - 256
    }
}

/// The address of a stack slot in page one.
pub open spec fn stack_address(s: u8) -> u16 {
    (0x100 + s) as u16
}

/// Whether bit 7 of `v` is set.
pub open spec fn bit7(v: u8) -> bool {
    (v & 0b1000_0000) == 0b1000_0000
}

/// Whether bit 6 of `v` is set.
pub open spec fn bit6(v: u8) -> bool {
    (v & 0b0100_0000) == 0b0100_0000
}

/// `p` with Z set from `v == 0` and N from bit 7 of `v`.
pub open spec fn with_nz(p: u8, v: u8) -> u8 {
    flag_set(flag_set(p, FLAG_ZERO, v == 0), FLAG_NEGATIVE, bit7(v))
}

/// A read cycle.
pub open spec fn read_cycle(address: u16, value: u8) -> SystemCycle {
    SystemCycle { address, value, action: SystemAction::READ }
}

/// A write cycle.
pub open spec fn write_cycle(address: u16, value: u8) -> SystemCycle {
    SystemCycle { address, value, action: SystemAction::WRITE }
}

/// The byte at `address` once the writes of `log` are applied, in order, to
/// `mem`: the value of the last write to `address`, or `mem(address)` when
/// the log never writes there.
pub open spec fn mem_after(log: Seq<SystemCycle>, mem: spec_fn(u16) -> u8, address: u16) -> u8
    decreases log.len(),
{
    if log.len() == 0 {
        mem(address)
    } else if log.last().action is WRITE && log.last().address == address {
        log.last().value
    } else {
        mem_after(log.drop_last(), mem, address)
    }
}

/// Whether `log` holds only read cycles.
pub open spec fn only_reads(log: Seq<SystemCycle>) -> bool {
    forall|i: int| 0 <= i < log.len() ==> (#[trigger] log[i]).action is READ
}

/// Operand fetch of an indexed absolute mode.
pub open spec fn absolute_operand(r: Registers, mem: spec_fn(u16) -> u8, index: u8) -> (
    Option<MemoryPair>,
    u16,
    Seq<SystemCycle>,
) {
    let pc1 = wrap16(r.pc + 1);
    let low = mem(r.pc);
    let high = mem(pc1);
    let address = wrap16(word(low, high) + index);
    let value = mem(address);
    (
        Some(MemoryPair { address, value }),
        wrap16(r.pc + 2),
        seq![read_cycle(r.pc, low), read_cycle(pc1, high), read_cycle(address, value)],
    )
}

/// Operand fetch of an indexed zero-page mode.
pub open spec fn zero_page_operand(r: Registers, mem: spec_fn(u16) -> u8, index: u8) -> (
    Option<MemoryPair>,
    u16,
    Seq<SystemCycle>,
) {
    let zp = mem(r.pc);
    let address = wrap8(zp + index) as u16;
    let value = mem(address);
    (
        Some(MemoryPair { address, value }),
        wrap16(r.pc + 1),
        seq![read_cycle(r.pc, zp), read_cycle(address, value)],
    )
}

/// The operand that `mode` resolves for registers `r` over memory `mem`: the
/// effective address and the byte there (none for the accumulator and
/// implied modes), the program counter after the operand bytes, and the
/// read cycles performed, in order.
pub open spec fn operand(mode: Option<AddressingMode>, r: Registers, mem: spec_fn(u16) -> u8) -> (
    Option<MemoryPair>,
    u16,
    Seq<SystemCycle>,
) {
    let pc1 = wrap16(r.pc + 1);
    match mode {
        Some(AddressingMode::Immediate) | Some(AddressingMode::Relative) => {
            let value = mem(r.pc);
            (Some(MemoryPair { address: r.pc, value }), pc1, seq![read_cycle(r.pc, value)])
        },
        Some(AddressingMode::DirectZeroPage) => {
            let zp = mem(r.pc);
            let address = zp as u16;
            let value = mem(address);
            (
                Some(MemoryPair { address, value }),
                pc1,
                seq![read_cycle(r.pc, zp), read_cycle(address, value)],
            )
        },
        Some(AddressingMode::DirectZeroPageX) => zero_page_operand(r, mem, r.x),
        Some(AddressingMode::DirectZeroPageY) => zero_page_operand(r, mem, r.y),
        Some(AddressingMode::DirectAbsolute) => absolute_operand(r, mem, 0),
        Some(AddressingMode::DirectAbsoluteX) => absolute_operand(r, mem, r.x),
        Some(AddressingMode::DirectAbsoluteY) => absolute_operand(r, mem, r.y),
        Some(AddressingMode::IndirectZeroPageX) => {
            let zp = mem(r.pc);
            let pointer = wrap8(zp + r.x);
            let low = mem(pointer as u16);
            let high_at = wrap8(pointer + 1) as u16;
            let high = mem(high_at);
            let address = word(low, high);
            let value = mem(address);
            (
                Some(MemoryPair { address, value }),
                pc1,
                seq![
                    read_cycle(r.pc, zp),
                    read_cycle(pointer as u16, low),
                    read_cycle(high_at, high),
                    read_cycle(address, value),
                ],
            )
        },
        Some(AddressingMode::IndirectZeroPageY) => {
            let zp = mem(r.pc);
            let base = mem(zp as u16);
            let sum = base + r.y;
            let high_at = wrap8(zp + 1) as u16;
            let base_high = mem(high_at);
            let high = wrap8(base_high + (if sum > 255 { 1int } else { 0int }));
            let address = word(wrap8(sum), high);
            let value = mem(address);
            (
                Some(MemoryPair { address, value }),
                pc1,
                seq![
                    read_cycle(r.pc, zp),
                    read_cycle(zp as u16, base),
                    read_cycle(high_at, base_high),
                    read_cycle(address, value),
                ],
            )
        },
        _ => (None, r.pc, seq![]),
    }
}

/// Whether bit 0 of `v` is set.
pub open spec fn bit0(v: u8) -> bool {
    (v & 0b0000_0001) == 0b0000_0001
}

/// Whether `op` takes no operand value and only changes registers.
pub open spec fn is_register_op(op: OpCode) -> bool {
    match op {
        OpCode::CLC | OpCode::CLD | OpCode::CLI | OpCode::CLV | OpCode::SEC | OpCode::SED
        | OpCode::SEI | OpCode::DEX | OpCode::DEY | OpCode::INX | OpCode::INY | OpCode::TAX
        | OpCode::TAY | OpCode::TSX | OpCode::TXA | OpCode::TXS | OpCode::TYA | OpCode::NOP
        | OpCode::INOP => true,
        _ => false,
    }
}

/// Effect of a register-only instruction. Transfers, increments and
/// decrements set Z and N from the value they leave; a transfer into the
/// stack pointer changes no flag.
pub open spec fn register_op(op: OpCode, r: Registers) -> Registers {
    match op {
        OpCode::CLC => Registers { p: r.p & !FLAG_CARRY, ..r },
        OpCode::CLD => Registers { p: r.p & !FLAG_DECIMAL, ..r },
        OpCode::CLI => Registers { p: r.p & !FLAG_INTERRUPT_DISABLE, ..r },
        OpCode::CLV => Registers { p: r.p & !FLAG_OVERFLOW, ..r },
        OpCode::SEC => Registers { p: r.p | FLAG_CARRY, ..r },
        OpCode::SED => Registers { p: r.p | FLAG_DECIMAL, ..r },
        OpCode::SEI => Registers { p: r.p | FLAG_INTERRUPT_DISABLE, ..r },
        OpCode::DEX => Registers { x: wrap8(r.x - 1), p: with_nz(r.p, wrap8(r.x - 1)), ..r },
        OpCode::DEY => Registers { y: wrap8(r.y - 1), p: with_nz(r.p, wrap8(r.y - 1)), ..r },
        OpCode::INX => Registers { x: wrap8(r.x + 1), p: with_nz(r.p, wrap8(r.x + 1)), ..r },
        OpCode::INY => Registers { y: wrap8(r.y + 1), p: with_nz(r.p, wrap8(r.y + 1)), ..r },
        OpCode::TAX => Registers { x: r.a, p: with_nz(r.p, r.a), ..r },
        OpCode::TAY => Registers { y: r.a, p: with_nz(r.p, r.a), ..r },
        OpCode::TSX => Registers { x: r.s, p: with_nz(r.p, r.s), ..r },
        OpCode::TXA => Registers { a: r.x, p: with_nz(r.p, r.x), ..r },
        OpCode::TXS => Registers { s: r.x, ..r },
        OpCode::TYA => Registers { a: r.y, p: with_nz(r.p, r.y), ..r },
        _ => r,
    }
}

/// Whether `op` reads its operand's value and only changes registers.
pub open spec fn is_value_op(op: OpCode) -> bool {
    match op {
        OpCode::ADC | OpCode::AND | OpCode::BIT | OpCode::CMP | OpCode::CPX | OpCode::CPY
        | OpCode::EOR | OpCode::LDA | OpCode::LDX | OpCode::LDY | OpCode::ORA | OpCode::SBC
        | OpCode::USBC | OpCode::LAX | OpCode::LAS | OpCode::ANC | OpCode::ANC2 | OpCode::ALR
        | OpCode::ARR | OpCode::SBX => true,
        _ => false,
    }
}

/// Whether bit 5 of `v` is set.
pub open spec fn bit5(v: u8) -> bool {
    (v & 0b0010_0000) == 0b0010_0000
}

/// Whether adding `a` and `v` into `sum` overflows as a signed addition:
/// both operands have one sign and the sum the other.
pub open spec fn signed_overflow(a: u8, v: u8, sum: u8) -> bool {
    bit7(a) == bit7(v) && bit7(sum) != bit7(a)
}

/// Binary addition of `v` and the carry to the accumulator. C is the carry
/// out of bit 7, V the signed overflow, Z and N follow the sum; the decimal
/// flag plays no part.
pub open spec fn add_with_carry(r: Registers, v: u8) -> Registers {
    let total = r.a + v + (if flag_on(r.p, FLAG_CARRY) { 1int } else { 0int });
    let sum = wrap8(total);
    Registers {
        a: sum,
        p: with_nz(
            flag_set(flag_set(r.p, FLAG_CARRY, total > 255), FLAG_OVERFLOW, signed_overflow(r.a, v, sum)),
            sum,
        ),
        ..r
    }
}

/// Flags of a comparison of register value `reg` with `v`: C when
/// `v <= reg`, Z and N from the difference `reg - v` taken modulo 256.
pub open spec fn compare_flags(p: u8, reg: u8, v: u8) -> u8 {
    with_nz(flag_set(p, FLAG_CARRY, v <= reg), wrap8(reg - v))
}

/// Effect of an instruction that combines the operand value `v` with the
/// registers. A subtraction adds the complement of `v`, so that a clear
/// carry borrows one.
pub open spec fn value_op(op: OpCode, r: Registers, v: u8) -> Registers {
    match op {
        OpCode::ADC => add_with_carry(r, v),
        OpCode::SBC | OpCode::USBC => add_with_carry(r, (255 - v) as u8),
        OpCode::AND => Registers { a: r.a & v, p: with_nz(r.p, r.a & v), ..r },
        OpCode::EOR => Registers { a: r.a ^ v, p: with_nz(r.p, r.a ^ v), ..r },
        OpCode::ORA => Registers { a: r.a | v, p: with_nz(r.p, r.a | v), ..r },
        OpCode::BIT => Registers {
            p: flag_set(
                flag_set(flag_set(r.p, FLAG_ZERO, (v & r.a) == 0), FLAG_OVERFLOW, bit6(v)),
                FLAG_NEGATIVE,
                bit7(v),
            ),
            ..r
        },
        OpCode::CMP => Registers { p: compare_flags(r.p, r.a, v), ..r },
        OpCode::CPX => Registers { p: compare_flags(r.p, r.x, v), ..r },
        OpCode::CPY => Registers { p: compare_flags(r.p, r.y, v), ..r },
        OpCode::LDA => Registers { a: v, p: with_nz(r.p, v), ..r },
        OpCode::LDX => Registers { x: v, p: with_nz(r.p, v), ..r },
        OpCode::LDY => Registers { y: v, p: with_nz(r.p, v), ..r },
        OpCode::LAX => Registers { a: v, x: v, p: with_nz(r.p, v), ..r },
        OpCode::LAS => Registers { a: v & r.s, x: v & r.s, s: v & r.s, p: with_nz(r.p, v & r.s), ..r },
        OpCode::ANC | OpCode::ANC2 => Registers {
            a: r.a & v,
            p: flag_set(with_nz(r.p, r.a & v), FLAG_CARRY, bit7(r.a & v)),
            ..r
        },
        OpCode::ALR => Registers {
            a: (r.a & v) / 2,
            p: shift_flags(r.p, bit0(r.a & v), (r.a & v) / 2),
            ..r
        },
        OpCode::ARR => {
            let out = rotate_right(r.a & v, flag_on(r.p, FLAG_CARRY));
            Registers {
                a: out,
                p: flag_set(
                    flag_set(with_nz(r.p, out), FLAG_CARRY, bit6(out)),
                    FLAG_OVERFLOW,
                    bit6(out) != bit5(out),
                ),
                ..r
            }
        },
        OpCode::SBX => Registers {
            x: wrap8((r.a & r.x) - v),
            p: compare_flags(r.p, r.a & r.x, v),
            ..r
        },
        _ => r,
    }
}

/// Whether the branch `op` is taken under status `p`.
pub open spec fn branch_taken(op: OpCode, p: u8) -> bool {
    match op {
        OpCode::BCC => !flag_on(p, FLAG_CARRY),
        OpCode::BCS => flag_on(p, FLAG_CARRY),
        OpCode::BEQ => flag_on(p, FLAG_ZERO),
        OpCode::BMI => flag_on(p, FLAG_NEGATIVE),
        OpCode::BNE => !flag_on(p, FLAG_ZERO),
        OpCode::BPL => !flag_on(p, FLAG_NEGATIVE),
        OpCode::BVC => !flag_on(p, FLAG_OVERFLOW),
        OpCode::BVS => flag_on(p, FLAG_OVERFLOW),
        _ => false,
    }
}

/// The target of a branch from `pc` by the offset byte `offset`.
pub open spec fn branch_target(pc: u16, offset: u8) -> u16 {
    wrap16(pc + signed_offset(offset))
}

/// `v` shifted left by one, the top bit dropped.
pub open spec fn shift_left(v: u8) -> u8 {
    wrap8(v * 2)
}

/// `v` rotated left through a carry-in of `carry`, which enters at bit 0.
pub open spec fn rotate_left(v: u8, carry: bool) -> u8 {
    wrap8(v * 2 + (if carry { 1int } else { 0int }))
}

/// `v` rotated right through a carry-in of `carry`, which enters at bit 7.
pub open spec fn rotate_right(v: u8, carry: bool) -> u8 {
    if carry {
        (v / 2) | 0b1000_0000
    } else {
        v / 2
    }
}

/// Flags after a shift or rotate: C takes the bit shifted out, Z and N
/// follow the result.
pub open spec fn shift_flags(p: u8, carry: bool, result: u8) -> u8 {
    with_nz(flag_set(p, FLAG_CARRY, carry), result)
}

/// Outcome, registers and cycles of an instruction that needed an operand
/// and had none.
pub open spec fn missing_operand(r: Registers) -> (Result<(), EmulatorError>, Registers, Seq<SystemCycle>) {
    (Err(EmulatorError::ExpectedMemoryPair), r, seq![])
}

/// Outcome of a shift or rotate: `result` gives the new byte from the old
/// one, and `carry_out` the bit that leaves it.
pub open spec fn read_modify_write(
    mode: Option<AddressingMode>,
    pair: Option<MemoryPair>,
    r: Registers,
    result: spec_fn(u8) -> u8,
    carry_out: spec_fn(u8) -> bool,
) -> (Result<(), EmulatorError>, Registers, Seq<SystemCycle>) {
    if mode == Some(AddressingMode::Accumulator) {
        let out = result(r.a);
        (Ok(()), Registers { a: out, p: shift_flags(r.p, carry_out(r.a), out), ..r }, seq![])
    } else {
        match pair {
            Some(mp) => {
                let out = result(mp.value);
                (
                    Ok(()),
                    Registers { p: shift_flags(r.p, carry_out(mp.value), out), ..r },
                    seq![write_cycle(mp.address, out)],
                )
            },
            None => missing_operand(r),
        }
    }
}

/// Effect of an instruction that combines its operand's value with the
/// registers.
pub open spec fn value_effect(op: OpCode, pair: Option<MemoryPair>, r: Registers) -> (
    Result<(), EmulatorError>,
    Registers,
    Seq<SystemCycle>,
) {
    match pair {
        Some(mp) => (Ok(()), value_op(op, r, mp.value), seq![]),
        None => missing_operand(r),
    }
}

/// Effect of a conditional branch: when taken, the program counter moves by
/// the operand's offset.
pub open spec fn branch_effect(op: OpCode, pair: Option<MemoryPair>, r: Registers) -> (
    Result<(), EmulatorError>,
    Registers,
    Seq<SystemCycle>,
) {
    if branch_taken(op, r.p) {
        match pair {
            Some(mp) => (Ok(()), Registers { pc: branch_target(r.pc, mp.value), ..r }, seq![]),
            None => missing_operand(r),
        }
    } else {
        (Ok(()), r, seq![])
    }
}

/// Effect of a store of A, X or Y at the operand's address.
pub open spec fn store_effect(op: OpCode, pair: Option<MemoryPair>, r: Registers) -> (
    Result<(), EmulatorError>,
    Registers,
    Seq<SystemCycle>,
) {
    match pair {
        Some(mp) => {
            let v = if op == OpCode::STA {
                r.a
            } else if op == OpCode::STX {
                r.x
            } else if op == OpCode::STY {
                r.y
            } else {
                r.a & r.x
            };
            (Ok(()), r, seq![write_cycle(mp.address, v)])
        },
        None => missing_operand(r),
    }
}

/// Effect of a decrement (DEC) or increment (INC) of the operand's byte.
pub open spec fn step_effect(op: OpCode, pair: Option<MemoryPair>, r: Registers) -> (
    Result<(), EmulatorError>,
    Registers,
    Seq<SystemCycle>,
) {
    match pair {
        Some(mp) => {
            let v = if op == OpCode::DEC {
                wrap8(mp.value - 1)
            } else {
                wrap8(mp.value + 1)
            };
            (Ok(()), Registers { p: with_nz(r.p, v), ..r }, seq![write_cycle(mp.address, v)])
        },
        None => missing_operand(r),
    }
}

/// Whether `op` is an undocumented read-modify-write: a shift, rotate,
/// increment or decrement of the operand's byte followed by a documented
/// operation on the byte written.
pub open spec fn is_combined_op(op: OpCode) -> bool {
    match op {
        OpCode::SLO | OpCode::RLA | OpCode::SRE | OpCode::RRA | OpCode::DCP | OpCode::ISC => true,
        _ => false,
    }
}

/// The byte that the first half of a combined `op` makes of `v`, and the
/// registers after that half.
pub open spec fn modify(op: OpCode, v: u8, r: Registers) -> (u8, Registers) {
    let carry = flag_on(r.p, FLAG_CARRY);
    match op {
        OpCode::SLO => (shift_left(v), Registers { p: shift_flags(r.p, bit7(v), shift_left(v)), ..r }),
        OpCode::RLA => (
            rotate_left(v, carry),
            Registers { p: shift_flags(r.p, bit7(v), rotate_left(v, carry)), ..r },
        ),
        OpCode::SRE => (v / 2, Registers { p: shift_flags(r.p, bit0(v), v / 2), ..r }),
        OpCode::RRA => (
            rotate_right(v, carry),
            Registers { p: shift_flags(r.p, bit0(v), rotate_right(v, carry)), ..r },
        ),
        OpCode::DCP => (wrap8(v - 1), Registers { p: with_nz(r.p, wrap8(v - 1)), ..r }),
        _ => (wrap8(v + 1), Registers { p: with_nz(r.p, wrap8(v + 1)), ..r }),
    }
}

/// The documented operation that the second half of a combined `op` applies
/// to the byte written.
pub open spec fn follow_up(op: OpCode) -> OpCode {
    match op {
        OpCode::SLO => OpCode::ORA,
        OpCode::RLA => OpCode::AND,
        OpCode::SRE => OpCode::EOR,
        OpCode::RRA => OpCode::ADC,
        OpCode::DCP => OpCode::CMP,
        _ => OpCode::SBC,
    }
}

/// Effect of a combined read-modify-write: the byte is rewritten, then the
/// follow-up operation combines it with the registers.
pub open spec fn combined_effect(op: OpCode, pair: Option<MemoryPair>, r: Registers) -> (
    Result<(), EmulatorError>,
    Registers,
    Seq<SystemCycle>,
) {
    match pair {
        Some(mp) => {
            let (out, r1) = modify(op, mp.value, r);
            (Ok(()), value_op(follow_up(op), r1, out), seq![write_cycle(mp.address, out)])
        },
        None => missing_operand(r),
    }
}

/// The high byte of a word.
pub open spec fn high_byte(w: u16) -> u8 {
    (w / 256) as u8
}

/// The low byte of a word.
pub open spec fn low_byte(w: u16) -> u8 {
    (w % 256) as u8
}

/// Effect of a jump (JMP) and of a subroutine call (JSR). A call pushes the
/// address of the last byte of its own operand, high byte first, onto the
/// stack in page one; `r.pc` is the address just past that operand.
pub open spec fn jump_effect(op: OpCode, pair: Option<MemoryPair>, r: Registers) -> (
    Result<(), EmulatorError>,
    Registers,
    Seq<SystemCycle>,
) {
    match pair {
        Some(mp) => {
            if op == OpCode::JMP {
                (Ok(()), Registers { pc: mp.address, ..r }, seq![])
            } else {
                let back = wrap16(r.pc - 1);
                let s1 = wrap8(r.s - 1);
                (
                    Ok(()),
                    Registers { pc: mp.address, s: wrap8(s1 - 1), ..r },
                    seq![
                        write_cycle(stack_address(r.s), high_byte(back)),
                        write_cycle(stack_address(s1), low_byte(back)),
                    ],
                )
            }
        },
        None => missing_operand(r),
    }
}

/// The address that follows `pointer` within its page: the high byte of an
/// indirect jump's target is read there, so a pointer at the end of a page
/// takes it from the start of the same page.
pub open spec fn pointer_next(pointer: u16) -> u16 {
    ((pointer / 256) * 256 + (pointer + 1) % 256) as u16
}

/// Effect of an indirect jump: the operand's address is a pointer and the
/// operand's byte the low byte of the target.
pub open spec fn indirect_jump_effect(pair: Option<MemoryPair>, r: Registers, mem: spec_fn(u16) -> u8) -> (
    Result<(), EmulatorError>,
    Registers,
    Seq<SystemCycle>,
) {
    match pair {
        Some(mp) => {
            let high_at = pointer_next(mp.address);
            let high = mem(high_at);
            (Ok(()), Registers { pc: word(mp.value, high), ..r }, seq![read_cycle(high_at, high)])
        },
        None => missing_operand(r),
    }
}

/// The status register as a push stores it: with the break and expansion
/// bits set.
pub open spec fn pushed_status(p: u8) -> u8 {
    p | 0b0011_0000
}

/// The status register after pulling `v` over `p`: every flag comes from
/// `v`, while the break and expansion bits, which are no flags, stay as
/// they were.
pub open spec fn pulled_status(p: u8, v: u8) -> u8 {
    (v & 0b1100_1111) | (p & 0b0011_0000)
}

/// Address of the low byte of the break vector.
pub const BREAK_VECTOR: u16 = 0xFFFE;

/// Effect of a break: pushes the address two past its opcode, high byte
/// first, and the status register with the break bit set; then sets the
/// interrupt-disable flag and jumps through the vector at $FFFE.
pub open spec fn break_effect(r: Registers, mem: spec_fn(u16) -> u8) -> (
    Result<(), EmulatorError>,
    Registers,
    Seq<SystemCycle>,
) {
    let back = wrap16(r.pc + 1);
    let s1 = wrap8(r.s - 1);
    let s2 = wrap8(s1 - 1);
    let low = mem(BREAK_VECTOR);
    let high = mem((BREAK_VECTOR + 1) as u16);
    (
        Ok(()),
        Registers { pc: word(low, high), s: wrap8(s2 - 1), p: r.p | FLAG_INTERRUPT_DISABLE, ..r },
        seq![
            write_cycle(stack_address(r.s), high_byte(back)),
            write_cycle(stack_address(s1), low_byte(back)),
            write_cycle(stack_address(s2), pushed_status(r.p)),
            read_cycle(BREAK_VECTOR, low),
            read_cycle((BREAK_VECTOR + 1) as u16, high),
        ],
    )
}

/// Effect of pushing A (PHA) or the status register (PHP).
pub open spec fn push_effect(op: OpCode, r: Registers) -> (Result<(), EmulatorError>, Registers, Seq<SystemCycle>) {
    let v = if op == OpCode::PHA { r.a } else { pushed_status(r.p) };
    (Ok(()), Registers { s: wrap8(r.s - 1), ..r }, seq![write_cycle(stack_address(r.s), v)])
}

/// Effect of pulling A (PLA), which sets Z and N, or the status register
/// (PLP).
pub open spec fn pull_effect(op: OpCode, r: Registers, mem: spec_fn(u16) -> u8) -> (
    Result<(), EmulatorError>,
    Registers,
    Seq<SystemCycle>,
) {
    let s1 = wrap8(r.s + 1);
    let v = mem(stack_address(s1));
    let r2 = if op == OpCode::PLA {
        Registers { s: s1, a: v, p: with_nz(r.p, v), ..r }
    } else {
        Registers { s: s1, p: pulled_status(r.p, v), ..r }
    };
    (Ok(()), r2, seq![read_cycle(stack_address(s1), v)])
}

/// Effect of a return from interrupt (RTI: status, then program counter low
/// and high) or from subroutine (RTS: program counter low and high, then one
/// past the address pulled).
pub open spec fn return_effect(op: OpCode, r: Registers, mem: spec_fn(u16) -> u8) -> (
    Result<(), EmulatorError>,
    Registers,
    Seq<SystemCycle>,
) {
    let s1 = wrap8(r.s + 1);
    let s2 = wrap8(s1 + 1);
    let s3 = wrap8(s2 + 1);
    let b1 = mem(stack_address(s1));
    let b2 = mem(stack_address(s2));
    let b3 = mem(stack_address(s3));
    if op == OpCode::RTI {
        (
            Ok(()),
            Registers { s: s3, p: pulled_status(r.p, b1), pc: word(b2, b3), ..r },
            seq![
                read_cycle(stack_address(s1), b1),
                read_cycle(stack_address(s2), b2),
                read_cycle(stack_address(s3), b3),
            ],
        )
    } else {
        (
            Ok(()),
            Registers { s: s2, pc: wrap16(word(b1, b2) + 1), ..r },
            seq![read_cycle(stack_address(s1), b1), read_cycle(stack_address(s2), b2)],
        )
    }
}

/// What `op` does once its operand has been fetched: the outcome, the
/// registers after it and the cycles it performs. `r.pc` is the program
/// counter after the operand bytes, and `mem` the memory before the
/// instruction. Operations without an implementation fail.
pub open spec fn effect(
    op: OpCode,
    mode: Option<AddressingMode>,
    pair: Option<MemoryPair>,
    r: Registers,
    mem: spec_fn(u16) -> u8,
) -> (Result<(), EmulatorError>, Registers, Seq<SystemCycle>) {
    match op {
        OpCode::CLC | OpCode::CLD | OpCode::CLI | OpCode::CLV | OpCode::SEC | OpCode::SED
        | OpCode::SEI | OpCode::DEX | OpCode::DEY | OpCode::INX | OpCode::INY | OpCode::TAX
        | OpCode::TAY | OpCode::TSX | OpCode::TXA | OpCode::TXS | OpCode::TYA | OpCode::NOP
        | OpCode::INOP => (Ok(()), register_op(op, r), seq![]),
        OpCode::ADC | OpCode::AND | OpCode::BIT | OpCode::CMP | OpCode::CPX | OpCode::CPY
        | OpCode::EOR | OpCode::LDA | OpCode::LDX | OpCode::LDY | OpCode::ORA | OpCode::SBC
        | OpCode::USBC | OpCode::LAX | OpCode::LAS | OpCode::ANC | OpCode::ANC2 | OpCode::ALR
        | OpCode::ARR | OpCode::SBX => value_effect(op, pair, r),
        OpCode::BCC | OpCode::BCS | OpCode::BEQ | OpCode::BMI | OpCode::BNE | OpCode::BPL
        | OpCode::BVC | OpCode::BVS => branch_effect(op, pair, r),
        OpCode::STA | OpCode::STX | OpCode::STY | OpCode::SAX => store_effect(op, pair, r),
        OpCode::SLO | OpCode::RLA | OpCode::SRE | OpCode::RRA | OpCode::DCP | OpCode::ISC => combined_effect(
            op,
            pair,
            r,
        ),
        OpCode::DEC | OpCode::INC => step_effect(op, pair, r),
        OpCode::ASL => read_modify_write(mode, pair, r, |v: u8| shift_left(v), |v: u8| bit7(v)),
        OpCode::LSR => read_modify_write(mode, pair, r, |v: u8| v / 2, |v: u8| bit0(v)),
        OpCode::ROL => read_modify_write(
            mode,
            pair,
            r,
            |v: u8| rotate_left(v, flag_on(r.p, FLAG_CARRY)),
            |v: u8| bit7(v),
        ),
        OpCode::ROR => read_modify_write(
            mode,
            pair,
            r,
            |v: u8| rotate_right(v, flag_on(r.p, FLAG_CARRY)),
            |v: u8| bit0(v),
        ),
        OpCode::JMP | OpCode::JSR => jump_effect(op, pair, r),
        OpCode::JMPAbsolute => indirect_jump_effect(pair, r, mem),
        OpCode::BRK => break_effect(r, mem),
        OpCode::PHA | OpCode::PHP => push_effect(op, r),
        OpCode::PLA | OpCode::PLP => pull_effect(op, r, mem),
        OpCode::RTI | OpCode::RTS => return_effect(op, r, mem),
        _ => (Err(EmulatorError::UnimplementedInstruction), r, seq![]),
    }
}
/// One instruction from start to end: the outcome, the registers after it,
/// and every bus cycle it performs after its opcode byte was fetched.
#[verifier::opaque]
pub open spec fn step(instr: Instruction, r: Registers, mem: spec_fn(u16) -> u8) -> (
    Result<(), EmulatorError>,
    Registers,
    Seq<SystemCycle>,
) {
    let fetched = operand(instr.mode, r, mem);
    let done = effect(instr.opcode, instr.mode, fetched.0, Registers { pc: fetched.1, ..r }, mem);
    (done.0, done.1, fetched.2 + done.2)
}

/// Replaying a cycle appended to a log.
pub proof fn lemma_mem_after_push(log: Seq<SystemCycle>, c: SystemCycle, mem: spec_fn(u16) -> u8, address: u16)
    ensures
        mem_after(log.push(c), mem, address) == if c.action is WRITE && c.address == address {
            c.value
        } else {
            mem_after(log, mem, address)
        },
{
    assert(log.push(c).drop_last() =~= log);
}

/// A log of reads changes no byte.
pub proof fn lemma_mem_after_reads(log: Seq<SystemCycle>, mem: spec_fn(u16) -> u8, address: u16)
    requires
        only_reads(log),
    ensures
        mem_after(log, mem, address) == mem(address),
    decreases log.len(),
{
    if log.len() > 0 {
        assert(log[log.len() - 1].action is READ);
        lemma_mem_after_reads(log.drop_last(), mem, address);
    }
}

/// Reads in front of a log do not change what the log leaves in memory.
pub proof fn lemma_mem_after_read_prefix(
    reads: Seq<SystemCycle>,
    log: Seq<SystemCycle>,
    mem: spec_fn(u16) -> u8,
    address: u16,
)
    requires
        only_reads(reads),
    ensures
        mem_after(reads + log, mem, address) == mem_after(log, mem, address),
    decreases log.len(),
{
    if log.len() == 0 {
        assert(reads + log =~= reads);
        lemma_mem_after_reads(reads, mem, address);
    } else {
        assert((reads + log).drop_last() =~= reads + log.drop_last());
        lemma_mem_after_read_prefix(reads, log.drop_last(), mem, address);
    }
}

/// Memory changes only where a log writes: a byte to which no cycle of the
/// log writes keeps its value.
pub proof fn lemma_mem_after_unwritten(log: Seq<SystemCycle>, mem: spec_fn(u16) -> u8, address: u16)
    requires
        forall|i: int|
            0 <= i < log.len() ==> !((#[trigger] log[i]).action is WRITE && log[i].address == address),
    ensures
        mem_after(log, mem, address) == mem(address),
    decreases log.len(),
{
    if log.len() > 0 {
        assert(!(log[log.len() - 1].action is WRITE && log[log.len() - 1].address == address));
        lemma_mem_after_unwritten(log.drop_last(), mem, address);
    }
}

/// The operand fetch only reads memory.
pub proof fn lemma_operand_only_reads(mode: Option<AddressingMode>, r: Registers, mem: spec_fn(u16) -> u8)
    ensures
        only_reads(operand(mode, r, mem).2),
{
}


/// An instruction without an operand is its operation alone.
pub proof fn lemma_step_without_operand(instr: Instruction, r: Registers, mem: spec_fn(u16) -> u8)
    requires
        instr.mode is None,
    ensures
        step(instr, r, mem) == effect(instr.opcode, None, None, r, mem),
{
    reveal(step);
    let done = effect(instr.opcode, None, None, r, mem);
    assert(Seq::<SystemCycle>::empty() + done.2 =~= done.2);
    assert(Registers { pc: r.pc, ..r } == r);
}

/// Memory after a single logged cycle.
pub proof fn lemma_mem_after_one(c: SystemCycle, mem: spec_fn(u16) -> u8, address: u16)
    ensures
        mem_after(seq![c], mem, address) == if c.action is WRITE && c.address == address {
            c.value
        } else {
            mem(address)
        },
{
    assert(seq![c] =~= Seq::<SystemCycle>::empty().push(c));
    lemma_mem_after_push(Seq::<SystemCycle>::empty(), c, mem, address);
}

/// Memory after two logged cycles.
pub proof fn lemma_mem_after_two(c1: SystemCycle, c2: SystemCycle, mem: spec_fn(u16) -> u8, address: u16)
    ensures
        mem_after(seq![c1, c2], mem, address) == if c2.action is WRITE && c2.address == address {
            c2.value
        } else {
            mem_after(seq![c1], mem, address)
        },
{
    assert(seq![c1, c2] =~= seq![c1].push(c2));
    lemma_mem_after_push(seq![c1], c2, mem, address);
}

/// Memory after three logged cycles.
pub proof fn lemma_mem_after_three(
    c1: SystemCycle,
    c2: SystemCycle,
    c3: SystemCycle,
    mem: spec_fn(u16) -> u8,
    address: u16,
)
    ensures
        mem_after(seq![c1, c2, c3], mem, address) == if c3.action is WRITE && c3.address == address {
            c3.value
        } else {
            mem_after(seq![c1, c2], mem, address)
        },
{
    assert(seq![c1, c2, c3] =~= seq![c1, c2].push(c3));
    lemma_mem_after_push(seq![c1, c2], c3, mem, address);
}

/// Reading an address after a run of bus cycles gives the value of the last
/// cycle that wrote there, whatever came before it.
pub proof fn law_read_after_writes(log: Seq<SystemCycle>, mem: spec_fn(u16) -> u8, address: u16, i: int)
    requires
        0 <= i < log.len(),
        log[i].action is WRITE,
        log[i].address == address,
        forall|j: int| i < j < log.len() ==> !((#[trigger] log[j]).action is WRITE && log[j].address == address),
    ensures
        mem_after(log, mem, address) == log[i].value,
    decreases log.len(),
{
    if i < log.len() - 1 {
        let rest = log.drop_last();
        assert forall|j: int| i < j < rest.len() implies !((#[trigger] rest[j]).action is WRITE
            && rest[j].address == address) by {
            assert(rest[j] == log[j]);
        }
        assert(!(log[log.len() - 1].action is WRITE && log[log.len() - 1].address == address));
        law_read_after_writes(rest, mem, address, i);
    }
}

/// Pushing the accumulator and pulling it again gives back every register as
/// it was, but for Z and N, which the pull sets from the accumulator.
pub proof fn law_push_then_pull_accumulator(r: Registers, mem: spec_fn(u16) -> u8)
    ensures
        ({
            let pushed = step(Instruction { opcode: OpCode::PHA, mode: None }, r, mem);
            let after_push = |a: u16| mem_after(pushed.2, mem, a);
            let pulled = step(Instruction { opcode: OpCode::PLA, mode: None }, pushed.1, after_push);
            &&& pushed.0 is Ok
            &&& pulled.0 is Ok
            &&& pulled.1 == (Registers { p: with_nz(r.p, r.a), ..r })
        }),
{
    let push = Instruction { opcode: OpCode::PHA, mode: None };
    let pull = Instruction { opcode: OpCode::PLA, mode: None };
    lemma_step_without_operand(push, r, mem);
    let pushed = step(push, r, mem);
    let c = write_cycle(stack_address(r.s), r.a);
    assert(pushed.2 == seq![c]);
    let after_push = |a: u16| mem_after(pushed.2, mem, a);
    lemma_step_without_operand(pull, pushed.1, after_push);
    let s1 = wrap8(r.s - 1);
    assert(wrap8(s1 + 1) == r.s);
    lemma_mem_after_one(c, mem, stack_address(r.s));
    assert(pushed.1.s == s1);
    assert(after_push(stack_address(r.s)) == c.value);
}

/// Pushing the status register and pulling it again gives back every
/// register as it was.
pub proof fn law_push_then_pull_status(r: Registers, mem: spec_fn(u16) -> u8)
    ensures
        ({
            let pushed = step(Instruction { opcode: OpCode::PHP, mode: None }, r, mem);
            let after_push = |a: u16| mem_after(pushed.2, mem, a);
            let pulled = step(Instruction { opcode: OpCode::PLP, mode: None }, pushed.1, after_push);
            &&& pushed.0 is Ok
            &&& pulled.0 is Ok
            &&& pulled.1 == r
        }),
{
    let push = Instruction { opcode: OpCode::PHP, mode: None };
    let pull = Instruction { opcode: OpCode::PLP, mode: None };
    lemma_step_without_operand(push, r, mem);
    let pushed = step(push, r, mem);
    let c = write_cycle(stack_address(r.s), pushed_status(r.p));
    assert(pushed.2 == seq![c]);
    let after_push = |a: u16| mem_after(pushed.2, mem, a);
    lemma_step_without_operand(pull, pushed.1, after_push);
    let s1 = wrap8(r.s - 1);
    assert(wrap8(s1 + 1) == r.s);
    lemma_mem_after_one(c, mem, stack_address(r.s));
    assert(pushed.1.s == s1);
    assert(after_push(stack_address(r.s)) == c.value);
    let p = r.p;
    assert(((p | 0b0011_0000) & 0b1100_1111) | (p & 0b0011_0000) == p) by (bit_vector);
}

/// A word is its high byte times 256 plus its low byte.
pub proof fn lemma_word_bytes(w: u16)
    ensures
        word(low_byte(w), high_byte(w)) == w,
{
}

/// A subroutine call is its operand fetch followed by the pushes and the
/// jump.
proof fn lemma_call_step(r: Registers, mem: spec_fn(u16) -> u8)
    ensures
        ({
            let call = Instruction { opcode: OpCode::JSR, mode: Some(AddressingMode::DirectAbsolute) };
            let fetched = operand(call.mode, r, mem);
            let done = jump_effect(OpCode::JSR, fetched.0, Registers { pc: fetched.1, ..r });
            step(call, r, mem) == (done.0, done.1, fetched.2 + done.2)
        }),
{
    reveal(step);
}

/// A return takes no operand: it is its effect alone.
proof fn lemma_return_step(op: OpCode, r: Registers, mem: spec_fn(u16) -> u8)
    requires
        op == OpCode::RTS || op == OpCode::RTI,
    ensures
        step(Instruction { opcode: op, mode: None }, r, mem) == return_effect(op, r, mem),
{
    lemma_step_without_operand(Instruction { opcode: op, mode: None }, r, mem);
}

/// A break takes no operand: it is its effect alone.
proof fn lemma_break_step(r: Registers, mem: spec_fn(u16) -> u8)
    ensures
        step(Instruction { opcode: OpCode::BRK, mode: None }, r, mem) == break_effect(r, mem),
{
    lemma_step_without_operand(Instruction { opcode: OpCode::BRK, mode: None }, r, mem);
}

/// The stack pointer after two pushes and two pulls, or three of each, is
/// where it started, and the slots of consecutive pushes differ.
proof fn lemma_stack_pointer_round_trip(s: u8)
    ensures
        wrap8(wrap8(wrap8(s - 1) - 1) + 1) == wrap8(s - 1),
        wrap8(wrap8(s - 1) + 1) == s,
        wrap8(wrap8(wrap8(wrap8(s - 1) - 1) - 1) + 1) == wrap8(wrap8(s - 1) - 1),
        stack_address(s) != stack_address(wrap8(s - 1)),
        stack_address(s) != stack_address(wrap8(wrap8(s - 1) - 1)),
        stack_address(wrap8(s - 1)) != stack_address(wrap8(wrap8(s - 1) - 1)),
{
}

/// A subroutine call followed by a return, wherever the return is, comes
/// back to the instruction after the call, with the stack pointer and every
/// other register as they were before the call. `r.pc` is the address of
/// the call's operand.
pub proof fn law_call_then_return(r: Registers, mem: spec_fn(u16) -> u8, pc: u16)
    ensures
        ({
            let call = Instruction { opcode: OpCode::JSR, mode: Some(AddressingMode::DirectAbsolute) };
            let called = step(call, r, mem);
            let after_call = |a: u16| mem_after(called.2, mem, a);
            let back = step(Instruction { opcode: OpCode::RTS, mode: None }, Registers { pc, ..called.1 }, after_call);
            &&& called.0 is Ok
            &&& called.1.pc == word(mem(r.pc), mem(wrap16(r.pc + 1)))
            &&& back.0 is Ok
            &&& back.1 == (Registers { pc: wrap16(r.pc + 2), ..r })
        }),
{
    let call = Instruction { opcode: OpCode::JSR, mode: Some(AddressingMode::DirectAbsolute) };
    lemma_call_step(r, mem);
    let fetched = operand(call.mode, r, mem);
    let r1 = Registers { pc: fetched.1, ..r };
    let done = jump_effect(OpCode::JSR, fetched.0, r1);
    let called = step(call, r, mem);
    let back_to = wrap16(r1.pc - 1);
    let s1 = wrap8(r.s - 1);
    let c1 = write_cycle(stack_address(r.s), high_byte(back_to));
    let c2 = write_cycle(stack_address(s1), low_byte(back_to));
    assert(done.2 == seq![c1, c2]);
    let after_call = |a: u16| mem_after(called.2, mem, a);
    lemma_stack_pointer_round_trip(r.s);
    lemma_operand_only_reads(call.mode, r, mem);
    lemma_mem_after_read_prefix(fetched.2, done.2, mem, stack_address(r.s));
    lemma_mem_after_read_prefix(fetched.2, done.2, mem, stack_address(s1));
    lemma_mem_after_two(c1, c2, mem, stack_address(r.s));
    lemma_mem_after_one(c1, mem, stack_address(r.s));
    lemma_mem_after_two(c1, c2, mem, stack_address(s1));
    assert(after_call(stack_address(s1)) == low_byte(back_to));
    assert(after_call(stack_address(r.s)) == high_byte(back_to));
    lemma_return_step(OpCode::RTS, Registers { pc, ..called.1 }, after_call);
    lemma_word_bytes(back_to);
}

/// A break followed by a return from interrupt, wherever the return is,
/// resumes two bytes past the break's opcode with every register as it was
/// before the break, the status register included. `r.pc` is the address
/// just past the break's opcode.
pub proof fn law_break_then_return(r: Registers, mem: spec_fn(u16) -> u8, pc: u16)
    ensures
        ({
            let broke = step(Instruction { opcode: OpCode::BRK, mode: None }, r, mem);
            let after_break = |a: u16| mem_after(broke.2, mem, a);
            let back = step(Instruction { opcode: OpCode::RTI, mode: None }, Registers { pc, ..broke.1 }, after_break);
            &&& broke.0 is Ok
            &&& broke.1.pc == word(mem(BREAK_VECTOR), mem((BREAK_VECTOR + 1) as u16))
            &&& flag_on(broke.1.p, FLAG_INTERRUPT_DISABLE)
            &&& back.0 is Ok
            &&& back.1 == (Registers { pc: wrap16(r.pc + 1), ..r })
        }),
{
    lemma_break_step(r, mem);
    let broke = break_effect(r, mem);
    let back_to = wrap16(r.pc + 1);
    let s1 = wrap8(r.s - 1);
    let s2 = wrap8(s1 - 1);
    let c1 = write_cycle(stack_address(r.s), high_byte(back_to));
    let c2 = write_cycle(stack_address(s1), low_byte(back_to));
    let c3 = write_cycle(stack_address(s2), pushed_status(r.p));
    let c4 = read_cycle(BREAK_VECTOR, mem(BREAK_VECTOR));
    let c5 = read_cycle((BREAK_VECTOR + 1) as u16, mem((BREAK_VECTOR + 1) as u16));
    assert(broke.2 =~= seq![c1, c2, c3].push(c4).push(c5));
    let after_break = |a: u16| mem_after(broke.2, mem, a);
    lemma_stack_pointer_round_trip(r.s);
    assert forall|a: u16| #[trigger] after_break(a) == mem_after(seq![c1, c2, c3], mem, a) by {
        lemma_mem_after_push(seq![c1, c2, c3].push(c4), c5, mem, a);
        lemma_mem_after_push(seq![c1, c2, c3], c4, mem, a);
    }
    lemma_mem_after_three(c1, c2, c3, mem, stack_address(r.s));
    lemma_mem_after_two(c1, c2, mem, stack_address(r.s));
    lemma_mem_after_one(c1, mem, stack_address(r.s));
    lemma_mem_after_three(c1, c2, c3, mem, stack_address(s1));
    lemma_mem_after_two(c1, c2, mem, stack_address(s1));
    lemma_mem_after_three(c1, c2, c3, mem, stack_address(s2));
    assert(after_break(stack_address(s2)) == pushed_status(r.p));
    assert(after_break(stack_address(s1)) == low_byte(back_to));
    assert(after_break(stack_address(r.s)) == high_byte(back_to));
    lemma_return_step(OpCode::RTI, Registers { pc, ..broke.1 }, after_break);
    lemma_word_bytes(back_to);
    let p = r.p;
    assert(((p | 0b0011_0000) & 0b1100_1111) | ((p | 0b0000_0100) & 0b0011_0000) == p) by (bit_vector);
    assert((p | 0b0000_0100) & 0b0000_0100 == 0b0000_0100) by (bit_vector);
}

/// Setting N, Z, V and C in turn leaves C as it was set.
proof fn lemma_carry_survives(p: u8, c: bool, v: bool, z: bool, n: bool)
    ensures
        flag_on(
            flag_set(flag_set(flag_set(flag_set(p, FLAG_CARRY, c), FLAG_OVERFLOW, v), FLAG_ZERO, z), FLAG_NEGATIVE, n),
            FLAG_CARRY,
        ) == c,
{
    assert(flag_on(
        flag_set(flag_set(flag_set(flag_set(p, FLAG_CARRY, c), FLAG_OVERFLOW, v), FLAG_ZERO, z), FLAG_NEGATIVE, n),
        FLAG_CARRY,
    ) == c) by (bit_vector);
}

/// Setting N, Z, V and C in turn leaves V as it was set.
proof fn lemma_overflow_survives(p: u8, c: bool, v: bool, z: bool, n: bool)
    ensures
        flag_on(
            flag_set(flag_set(flag_set(flag_set(p, FLAG_CARRY, c), FLAG_OVERFLOW, v), FLAG_ZERO, z), FLAG_NEGATIVE, n),
            FLAG_OVERFLOW,
        ) == v,
{
    assert(flag_on(
        flag_set(flag_set(flag_set(flag_set(p, FLAG_CARRY, c), FLAG_OVERFLOW, v), FLAG_ZERO, z), FLAG_NEGATIVE, n),
        FLAG_OVERFLOW,
    ) == v) by (bit_vector);
}

/// Bit 7 of a byte is its sign: it is set exactly from 128 up.
proof fn lemma_bit7_is_sign(x: u8)
    ensures
        bit7(x) == (x >= 128),
{
    assert(bit7(x) == (x >= 128)) by (bit_vector);
}

/// ADC and SBC are additions with carry, of the operand and of its
/// complement.
proof fn lemma_add_and_subtract(r: Registers, v: u8)
    ensures
        value_op(OpCode::ADC, r, v) == add_with_carry(r, v),
        value_op(OpCode::SBC, r, v) == add_with_carry(r, (255 - v) as u8),
{
}

/// Addition with carry: A and the carry out together hold the whole sum of
/// A, the operand and the carry in, and V is set exactly when that sum,
/// with the bytes read as signed numbers, falls outside -128 to 127.
#[verifier::rlimit(40)]
pub proof fn law_add_with_carry(r: Registers, v: u8)
    ensures
        ({
            let c: int = if flag_on(r.p, FLAG_CARRY) { 1 } else { 0 };
            let after = value_op(OpCode::ADC, r, v);
            let carry_out: int = if flag_on(after.p, FLAG_CARRY) { 1 } else { 0 };
            let signed_sum = signed_offset(r.a) + signed_offset(v) + c;
            &&& after.a + 256 * carry_out == r.a + v + c
            &&& flag_on(after.p, FLAG_OVERFLOW) == !(-128 <= signed_sum <= 127)
        }),
{
    let c: int = if flag_on(r.p, FLAG_CARRY) { 1 } else { 0 };
    lemma_add_and_subtract(r, v);
    let total = r.a + v + c;
    let sum = wrap8(total);
    assert(sum == if total > 255 { total - 256 } else { total });
    lemma_carry_survives(r.p, total > 255, signed_overflow(r.a, v, sum), sum == 0, bit7(sum));
    lemma_overflow_survives(r.p, total > 255, signed_overflow(r.a, v, sum), sum == 0, bit7(sum));
    lemma_bit7_is_sign(r.a);
    lemma_bit7_is_sign(v);
    lemma_bit7_is_sign(sum);
}

/// Adding the complement of `v` and the carry subtracts `v` and the borrow.
proof fn lemma_add_complement(r: Registers, v: u8)
    ensures
        ({
            let borrow: int = if flag_on(r.p, FLAG_CARRY) { 0 } else { 1 };
            let after = add_with_carry(r, (255 - v) as u8);
            &&& after.a == wrap8(r.a - v - borrow)
            &&& flag_on(after.p, FLAG_CARRY) == (r.a - v - borrow >= 0)
        }),
{
    let c: int = if flag_on(r.p, FLAG_CARRY) { 1 } else { 0 };
    let w = (255 - v) as u8;
    let total = r.a + w + c;
    let sum = wrap8(total);
    assert(w == 255 - v);
    assert(sum == wrap8(r.a - v - (1 - c))) by {
        assert(total == (r.a - v - (1 - c)) + 256);
    }
    lemma_carry_survives(r.p, total > 255, signed_overflow(r.a, w, sum), sum == 0, bit7(sum));
}

/// Subtraction with borrow: SBC leaves in A the operand and the borrow (a
/// clear carry) taken from A, modulo 256, and sets the carry exactly when no
/// borrow out occurred.
#[verifier::rlimit(40)]
pub proof fn law_subtract_with_borrow(r: Registers, v: u8)
    ensures
        ({
            let borrow: int = if flag_on(r.p, FLAG_CARRY) { 0 } else { 1 };
            let after = value_op(OpCode::SBC, r, v);
            &&& after.a == wrap8(r.a - v - borrow)
            &&& flag_on(after.p, FLAG_CARRY) == (r.a - v - borrow >= 0)
        }),
{
    lemma_add_and_subtract(r, v);
    lemma_add_complement(r, v);
}

/// An instruction changes memory only where its cycle log writes: every
/// byte at an address that no write cycle of the instruction names keeps
/// its value.
pub proof fn law_step_writes_only_logged(instr: Instruction, r: Registers, mem: spec_fn(u16) -> u8, address: u16)
    requires
        forall|i: int|
            0 <= i < step(instr, r, mem).2.len() ==> !((#[trigger] step(instr, r, mem).2[i]).action is WRITE
                && step(instr, r, mem).2[i].address == address),
    ensures
        mem_after(step(instr, r, mem).2, mem, address) == mem(address),
{
    lemma_mem_after_unwritten(step(instr, r, mem).2, mem, address);
}

/// An operation that fails leaves the registers as they were and performs no
/// cycle.
pub proof fn lemma_failed_effect(
    op: OpCode,
    mode: Option<AddressingMode>,
    pair: Option<MemoryPair>,
    r: Registers,
    mem: spec_fn(u16) -> u8,
)
    requires
        effect(op, mode, pair, r, mem).0 is Err,
    ensures
        effect(op, mode, pair, r, mem).1 == r,
        effect(op, mode, pair, r, mem).2 == Seq::<SystemCycle>::empty(),
{
    match op {
        OpCode::CLC | OpCode::CLD | OpCode::CLI | OpCode::CLV | OpCode::SEC | OpCode::SED
        | OpCode::SEI | OpCode::DEX | OpCode::DEY | OpCode::INX | OpCode::INY | OpCode::TAX
        | OpCode::TAY | OpCode::TSX | OpCode::TXA | OpCode::TXS | OpCode::TYA | OpCode::NOP
        | OpCode::INOP => {},
        OpCode::ADC | OpCode::AND | OpCode::BIT | OpCode::CMP | OpCode::CPX | OpCode::CPY
        | OpCode::EOR | OpCode::LDA | OpCode::LDX | OpCode::LDY | OpCode::ORA | OpCode::SBC
        | OpCode::USBC | OpCode::LAX | OpCode::LAS | OpCode::ANC | OpCode::ANC2 | OpCode::ALR
        | OpCode::ARR | OpCode::SBX => {},
        OpCode::BCC | OpCode::BCS | OpCode::BEQ | OpCode::BMI | OpCode::BNE | OpCode::BPL
        | OpCode::BVC | OpCode::BVS => {},
        OpCode::STA | OpCode::STX | OpCode::STY | OpCode::SAX => {},
        OpCode::SLO | OpCode::RLA | OpCode::SRE | OpCode::RRA | OpCode::DCP | OpCode::ISC => {},
        OpCode::DEC | OpCode::INC => {},
        OpCode::ASL | OpCode::LSR | OpCode::ROL | OpCode::ROR => {},
        OpCode::JMP | OpCode::JSR | OpCode::JMPAbsolute | OpCode::BRK => {},
        OpCode::PHA | OpCode::PHP | OpCode::PLA | OpCode::PLP | OpCode::RTI | OpCode::RTS => {},
        _ => {},
    }
}

/// An instruction that fails changes neither memory nor any register but the
/// program counter, which has moved past the operand bytes.
pub proof fn law_failed_step_changes_nothing(instr: Instruction, r: Registers, mem: spec_fn(u16) -> u8)
    requires
        step(instr, r, mem).0 is Err,
    ensures
        step(instr, r, mem).1 == (Registers { pc: operand(instr.mode, r, mem).1, ..r }),
        only_reads(step(instr, r, mem).2),
        forall|a: u16| #[trigger] mem_after(step(instr, r, mem).2, mem, a) == mem(a),
{
    reveal(step);
    let fetched = operand(instr.mode, r, mem);
    let done = effect(instr.opcode, instr.mode, fetched.0, Registers { pc: fetched.1, ..r }, mem);
    lemma_failed_effect(instr.opcode, instr.mode, fetched.0, Registers { pc: fetched.1, ..r }, mem);
    lemma_operand_only_reads(instr.mode, r, mem);
    assert(fetched.2 + done.2 =~= fetched.2);
    assert forall|a: u16| #[trigger] mem_after(step(instr, r, mem).2, mem, a) == mem(a) by {
        lemma_mem_after_reads(fetched.2, mem, a);
    }
}

/// Whether `op` works on the stack alone.
pub open spec fn is_stack_op(op: OpCode) -> bool {
    op == OpCode::PHA || op == OpCode::PHP || op == OpCode::PLA || op == OpCode::PLP || op
        == OpCode::RTI || op == OpCode::RTS
}

/// Whether bus cycle `c` falls in page one, where the stack lives.
pub open spec fn in_page_one(c: SystemCycle) -> bool {
    0x100 <= c.address <= 0x1FF
}

/// The stack lives between $0100 and $01FF: every bus cycle of a push, a
/// pull or a return falls in page one, whatever the stack pointer.
pub proof fn law_stack_stays_in_page_one(op: OpCode, r: Registers, mem: spec_fn(u16) -> u8, i: int)
    requires
        is_stack_op(op),
        0 <= i < step(Instruction { opcode: op, mode: None }, r, mem).2.len(),
    ensures
        in_page_one(step(Instruction { opcode: op, mode: None }, r, mem).2[i]),
{
    lemma_step_without_operand(Instruction { opcode: op, mode: None }, r, mem);
}

/// A subroutine call and a break write only to the stack: every write cycle
/// of either falls in page one, whatever the stack pointer and operand.
pub proof fn law_calls_write_only_the_stack(
    op: OpCode,
    mode: Option<AddressingMode>,
    r: Registers,
    mem: spec_fn(u16) -> u8,
    i: int,
)
    requires
        op == OpCode::JSR || op == OpCode::BRK,
        0 <= i < step(Instruction { opcode: op, mode }, r, mem).2.len(),
        step(Instruction { opcode: op, mode }, r, mem).2[i].action is WRITE,
    ensures
        in_page_one(step(Instruction { opcode: op, mode }, r, mem).2[i]),
{
    reveal(step);
    let fetched = operand(mode, r, mem);
    let done = effect(op, mode, fetched.0, Registers { pc: fetched.1, ..r }, mem);
    let log = step(Instruction { opcode: op, mode }, r, mem).2;
    assert(log == fetched.2 + done.2);
    lemma_operand_only_reads(mode, r, mem);
    if i < fetched.2.len() {
        assert(log[i] == fetched.2[i]);
        assert(fetched.2[i].action is READ);
    } else {
        assert(log[i] == done.2[i - fetched.2.len()]);
    }
}

} // verus!
