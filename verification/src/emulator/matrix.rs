//! The 6502 opcode matrix: the instruction of every opcode byte, read by
//! column (the low five bits) and row (the top three bits).
use vstd::prelude::*;

use crate::emulator::instructions::{decode, AddressingMode, Instruction, OpCode};
use crate::emulator::semantics::{branch_taken, lemma_step_without_operand, step, Registers};
use crate::state::{
    flag_on, flag_set, EmulatorError, SystemCycle, FLAG_CARRY, FLAG_DECIMAL, FLAG_INTERRUPT_DISABLE,
    FLAG_NEGATIVE, FLAG_OVERFLOW, FLAG_ZERO,
};

verus! {

/// One entry of the opcode matrix.
pub open spec fn entry(opcode: OpCode, mode: Option<AddressingMode>) -> Instruction {
    Instruction { opcode, mode }
}

/// The entry of the 6502 opcode matrix in column `column` (the low five
/// bits of an opcode byte) and row `row` (its top three bits), with the
/// undocumented opcodes in their places.
pub open spec fn opcode_entry(column: u8, row: u8) -> Instruction {
    match column {
        0x00 => match row {
            0 => entry(OpCode::BRK, None),
            1 => entry(OpCode::JSR, Some(AddressingMode::DirectAbsolute)),
            2 => entry(OpCode::RTI, None),
            3 => entry(OpCode::RTS, None),
            4 => entry(OpCode::INOP, Some(AddressingMode::Immediate)),
            5 => entry(OpCode::LDY, Some(AddressingMode::Immediate)),
            6 => entry(OpCode::CPY, Some(AddressingMode::Immediate)),
            _ => entry(OpCode::CPX, Some(AddressingMode::Immediate)),
        },
        0x01 => match row {
            0 => entry(OpCode::ORA, Some(AddressingMode::IndirectZeroPageX)),
            1 => entry(OpCode::AND, Some(AddressingMode::IndirectZeroPageX)),
            2 => entry(OpCode::EOR, Some(AddressingMode::IndirectZeroPageX)),
            3 => entry(OpCode::ADC, Some(AddressingMode::IndirectZeroPageX)),
            4 => entry(OpCode::STA, Some(AddressingMode::IndirectZeroPageX)),
            5 => entry(OpCode::LDA, Some(AddressingMode::IndirectZeroPageX)),
            6 => entry(OpCode::CMP, Some(AddressingMode::IndirectZeroPageX)),
            _ => entry(OpCode::SBC, Some(AddressingMode::IndirectZeroPageX)),
        },
        0x02 => match row {
            0 => entry(OpCode::KIL, None),
            1 => entry(OpCode::KIL, None),
            2 => entry(OpCode::KIL, None),
            3 => entry(OpCode::KIL, None),
            4 => entry(OpCode::INOP, Some(AddressingMode::Immediate)),
            5 => entry(OpCode::LDX, Some(AddressingMode::Immediate)),
            6 => entry(OpCode::INOP, Some(AddressingMode::Immediate)),
            _ => entry(OpCode::INOP, Some(AddressingMode::Immediate)),
        },
        0x03 => match row {
            0 => entry(OpCode::SLO, Some(AddressingMode::IndirectZeroPageX)),
            1 => entry(OpCode::RLA, Some(AddressingMode::IndirectZeroPageX)),
            2 => entry(OpCode::SRE, Some(AddressingMode::IndirectZeroPageX)),
            3 => entry(OpCode::RRA, Some(AddressingMode::IndirectZeroPageX)),
            4 => entry(OpCode::SAX, Some(AddressingMode::IndirectZeroPageX)),
            5 => entry(OpCode::LAX, Some(AddressingMode::IndirectZeroPageX)),
            6 => entry(OpCode::DCP, Some(AddressingMode::IndirectZeroPageX)),
            _ => entry(OpCode::ISC, Some(AddressingMode::IndirectZeroPageX)),
        },
        0x04 => match row {
            0 => entry(OpCode::INOP, Some(AddressingMode::DirectZeroPage)),
            1 => entry(OpCode::BIT, Some(AddressingMode::DirectZeroPage)),
            2 => entry(OpCode::INOP, Some(AddressingMode::DirectZeroPage)),
            3 => entry(OpCode::INOP, Some(AddressingMode::DirectZeroPage)),
            4 => entry(OpCode::STY, Some(AddressingMode::DirectZeroPage)),
            5 => entry(OpCode::LDY, Some(AddressingMode::DirectZeroPage)),
            6 => entry(OpCode::CPY, Some(AddressingMode::DirectZeroPage)),
            _ => entry(OpCode::CPX, Some(AddressingMode::DirectZeroPage)),
        },
        0x05 => match row {
            0 => entry(OpCode::ORA, Some(AddressingMode::DirectZeroPage)),
            1 => entry(OpCode::AND, Some(AddressingMode::DirectZeroPage)),
            2 => entry(OpCode::EOR, Some(AddressingMode::DirectZeroPage)),
            3 => entry(OpCode::ADC, Some(AddressingMode::DirectZeroPage)),
            4 => entry(OpCode::STA, Some(AddressingMode::DirectZeroPage)),
            5 => entry(OpCode::LDA, Some(AddressingMode::DirectZeroPage)),
            6 => entry(OpCode::CMP, Some(AddressingMode::DirectZeroPage)),
            _ => entry(OpCode::SBC, Some(AddressingMode::DirectZeroPage)),
        },
        0x06 => match row {
            0 => entry(OpCode::ASL, Some(AddressingMode::DirectZeroPage)),
            1 => entry(OpCode::ROL, Some(AddressingMode::DirectZeroPage)),
            2 => entry(OpCode::LSR, Some(AddressingMode::DirectZeroPage)),
            3 => entry(OpCode::ROR, Some(AddressingMode::DirectZeroPage)),
            4 => entry(OpCode::STX, Some(AddressingMode::DirectZeroPage)),
            5 => entry(OpCode::LDX, Some(AddressingMode::DirectZeroPage)),
            6 => entry(OpCode::DEC, Some(AddressingMode::DirectZeroPage)),
            _ => entry(OpCode::INC, Some(AddressingMode::DirectZeroPage)),
        },
        0x07 => match row {
            0 => entry(OpCode::SLO, Some(AddressingMode::DirectZeroPage)),
            1 => entry(OpCode::RLA, Some(AddressingMode::DirectZeroPage)),
            2 => entry(OpCode::SRE, Some(AddressingMode::DirectZeroPage)),
            3 => entry(OpCode::RRA, Some(AddressingMode::DirectZeroPage)),
            4 => entry(OpCode::SAX, Some(AddressingMode::DirectZeroPage)),
            5 => entry(OpCode::LAX, Some(AddressingMode::DirectZeroPage)),
            6 => entry(OpCode::DCP, Some(AddressingMode::DirectZeroPage)),
            _ => entry(OpCode::ISC, Some(AddressingMode::DirectZeroPage)),
        },
        0x08 => match row {
            0 => entry(OpCode::PHP, None),
            1 => entry(OpCode::PLP, None),
            2 => entry(OpCode::PHA, None),
            3 => entry(OpCode::PLA, None),
            4 => entry(OpCode::DEY, None),
            5 => entry(OpCode::TAY, None),
            6 => entry(OpCode::INY, None),
            _ => entry(OpCode::INX, None),
        },
        0x09 => match row {
            0 => entry(OpCode::ORA, Some(AddressingMode::Immediate)),
            1 => entry(OpCode::AND, Some(AddressingMode::Immediate)),
            2 => entry(OpCode::EOR, Some(AddressingMode::Immediate)),
            3 => entry(OpCode::ADC, Some(AddressingMode::Immediate)),
            4 => entry(OpCode::INOP, Some(AddressingMode::Immediate)),
            5 => entry(OpCode::LDA, Some(AddressingMode::Immediate)),
            6 => entry(OpCode::CMP, Some(AddressingMode::Immediate)),
            _ => entry(OpCode::SBC, Some(AddressingMode::Immediate)),
        },
        0x0a => match row {
            0 => entry(OpCode::ASL, Some(AddressingMode::Accumulator)),
            1 => entry(OpCode::ROL, Some(AddressingMode::Accumulator)),
            2 => entry(OpCode::LSR, Some(AddressingMode::Accumulator)),
            3 => entry(OpCode::ROR, Some(AddressingMode::Accumulator)),
            4 => entry(OpCode::TXA, None),
            5 => entry(OpCode::TAX, None),
            6 => entry(OpCode::DEX, None),
            _ => entry(OpCode::NOP, None),
        },
        0x0b => match row {
            0 => entry(OpCode::ANC, Some(AddressingMode::Immediate)),
            1 => entry(OpCode::ANC2, Some(AddressingMode::Immediate)),
            2 => entry(OpCode::ALR, Some(AddressingMode::Immediate)),
            3 => entry(OpCode::ARR, Some(AddressingMode::Immediate)),
            4 => entry(OpCode::ANE, Some(AddressingMode::Immediate)),
            5 => entry(OpCode::LXA, Some(AddressingMode::Immediate)),
            6 => entry(OpCode::SBX, Some(AddressingMode::Immediate)),
            _ => entry(OpCode::USBC, Some(AddressingMode::Immediate)),
        },
        0x0c => match row {
            0 => entry(OpCode::INOP, Some(AddressingMode::DirectAbsolute)),
            1 => entry(OpCode::BIT, Some(AddressingMode::DirectAbsolute)),
            2 => entry(OpCode::JMP, Some(AddressingMode::DirectAbsolute)),
            3 => entry(OpCode::JMPAbsolute, Some(AddressingMode::DirectAbsolute)),
            4 => entry(OpCode::STY, Some(AddressingMode::DirectAbsolute)),
            5 => entry(OpCode::LDY, Some(AddressingMode::DirectAbsolute)),
            6 => entry(OpCode::CPY, Some(AddressingMode::DirectAbsolute)),
            _ => entry(OpCode::CPX, Some(AddressingMode::DirectAbsolute)),
        },
        0x0d => match row {
            0 => entry(OpCode::ORA, Some(AddressingMode::DirectAbsolute)),
            1 => entry(OpCode::AND, Some(AddressingMode::DirectAbsolute)),
            2 => entry(OpCode::EOR, Some(AddressingMode::DirectAbsolute)),
            3 => entry(OpCode::ADC, Some(AddressingMode::DirectAbsolute)),
            4 => entry(OpCode::STA, Some(AddressingMode::DirectAbsolute)),
            5 => entry(OpCode::LDA, Some(AddressingMode::DirectAbsolute)),
            6 => entry(OpCode::CMP, Some(AddressingMode::DirectAbsolute)),
            _ => entry(OpCode::SBC, Some(AddressingMode::DirectAbsolute)),
        },
        0x0e => match row {
            0 => entry(OpCode::ASL, Some(AddressingMode::DirectAbsolute)),
            1 => entry(OpCode::ROL, Some(AddressingMode::DirectAbsolute)),
            2 => entry(OpCode::LSR, Some(AddressingMode::DirectAbsolute)),
            3 => entry(OpCode::ROR, Some(AddressingMode::DirectAbsolute)),
            4 => entry(OpCode::STX, Some(AddressingMode::DirectAbsolute)),
            5 => entry(OpCode::LDX, Some(AddressingMode::DirectAbsolute)),
            6 => entry(OpCode::DEC, Some(AddressingMode::DirectAbsolute)),
            _ => entry(OpCode::INC, Some(AddressingMode::DirectAbsolute)),
        },
        0x0f => match row {
            0 => entry(OpCode::SLO, Some(AddressingMode::DirectAbsolute)),
            1 => entry(OpCode::RLA, Some(AddressingMode::DirectAbsolute)),
            2 => entry(OpCode::SRE, Some(AddressingMode::DirectAbsolute)),
            3 => entry(OpCode::RRA, Some(AddressingMode::DirectAbsolute)),
            4 => entry(OpCode::SAX, Some(AddressingMode::DirectAbsolute)),
            5 => entry(OpCode::LAX, Some(AddressingMode::DirectAbsolute)),
            6 => entry(OpCode::DCP, Some(AddressingMode::DirectAbsolute)),
            _ => entry(OpCode::ISC, Some(AddressingMode::DirectAbsolute)),
        },
        0x10 => match row {
            0 => entry(OpCode::BPL, Some(AddressingMode::Relative)),
            1 => entry(OpCode::BMI, Some(AddressingMode::Relative)),
            2 => entry(OpCode::BVC, Some(AddressingMode::Relative)),
            3 => entry(OpCode::BVS, Some(AddressingMode::Relative)),
            4 => entry(OpCode::BCC, Some(AddressingMode::Relative)),
            5 => entry(OpCode::BCS, Some(AddressingMode::Relative)),
            6 => entry(OpCode::BNE, Some(AddressingMode::Relative)),
            _ => entry(OpCode::BEQ, Some(AddressingMode::Relative)),
        },
        0x11 => match row {
            0 => entry(OpCode::ORA, Some(AddressingMode::IndirectZeroPageY)),
            1 => entry(OpCode::AND, Some(AddressingMode::IndirectZeroPageY)),
            2 => entry(OpCode::EOR, Some(AddressingMode::IndirectZeroPageY)),
            3 => entry(OpCode::ADC, Some(AddressingMode::IndirectZeroPageY)),
            4 => entry(OpCode::STA, Some(AddressingMode::IndirectZeroPageY)),
            5 => entry(OpCode::LDA, Some(AddressingMode::IndirectZeroPageY)),
            6 => entry(OpCode::CMP, Some(AddressingMode::IndirectZeroPageY)),
            _ => entry(OpCode::SBC, Some(AddressingMode::IndirectZeroPageY)),
        },
        0x12 => match row {
            0 => entry(OpCode::KIL, None),
            1 => entry(OpCode::KIL, None),
            2 => entry(OpCode::KIL, None),
            3 => entry(OpCode::KIL, None),
            4 => entry(OpCode::KIL, None),
            5 => entry(OpCode::KIL, None),
            6 => entry(OpCode::KIL, None),
            _ => entry(OpCode::KIL, None),
        },
        0x13 => match row {
            0 => entry(OpCode::SLO, Some(AddressingMode::IndirectZeroPageY)),
            1 => entry(OpCode::RLA, Some(AddressingMode::IndirectZeroPageY)),
            2 => entry(OpCode::SRE, Some(AddressingMode::IndirectZeroPageY)),
            3 => entry(OpCode::RRA, Some(AddressingMode::IndirectZeroPageY)),
            4 => entry(OpCode::SHA, Some(AddressingMode::IndirectZeroPageY)),
            5 => entry(OpCode::LAX, Some(AddressingMode::IndirectZeroPageY)),
            6 => entry(OpCode::DCP, Some(AddressingMode::IndirectZeroPageY)),
            _ => entry(OpCode::ISC, Some(AddressingMode::IndirectZeroPageY)),
        },
        0x14 => match row {
            0 => entry(OpCode::INOP, Some(AddressingMode::DirectZeroPageX)),
            1 => entry(OpCode::INOP, Some(AddressingMode::DirectZeroPageX)),
            2 => entry(OpCode::INOP, Some(AddressingMode::DirectZeroPageX)),
            3 => entry(OpCode::INOP, Some(AddressingMode::DirectZeroPageX)),
            4 => entry(OpCode::STY, Some(AddressingMode::DirectZeroPageX)),
            5 => entry(OpCode::LDY, Some(AddressingMode::DirectZeroPageX)),
            6 => entry(OpCode::INOP, Some(AddressingMode::DirectZeroPageX)),
            _ => entry(OpCode::INOP, Some(AddressingMode::DirectZeroPageX)),
        },
        0x15 => match row {
            0 => entry(OpCode::ORA, Some(AddressingMode::DirectZeroPageX)),
            1 => entry(OpCode::AND, Some(AddressingMode::DirectZeroPageX)),
            2 => entry(OpCode::EOR, Some(AddressingMode::DirectZeroPageX)),
            3 => entry(OpCode::ADC, Some(AddressingMode::DirectZeroPageX)),
            4 => entry(OpCode::STA, Some(AddressingMode::DirectZeroPageX)),
            5 => entry(OpCode::LDA, Some(AddressingMode::DirectZeroPageX)),
            6 => entry(OpCode::CMP, Some(AddressingMode::DirectZeroPageX)),
            _ => entry(OpCode::SBC, Some(AddressingMode::DirectZeroPageX)),
        },
        0x16 => match row {
            0 => entry(OpCode::ASL, Some(AddressingMode::DirectZeroPageX)),
            1 => entry(OpCode::ROL, Some(AddressingMode::DirectZeroPageX)),
            2 => entry(OpCode::LSR, Some(AddressingMode::DirectZeroPageX)),
            3 => entry(OpCode::ROR, Some(AddressingMode::DirectZeroPageX)),
            4 => entry(OpCode::STX, Some(AddressingMode::DirectZeroPageY)),
            5 => entry(OpCode::LDX, Some(AddressingMode::DirectZeroPageY)),
            6 => entry(OpCode::DEC, Some(AddressingMode::DirectZeroPageX)),
            _ => entry(OpCode::INC, Some(AddressingMode::DirectZeroPageX)),
        },
        0x17 => match row {
            0 => entry(OpCode::SLO, Some(AddressingMode::DirectZeroPageX)),
            1 => entry(OpCode::RLA, Some(AddressingMode::DirectZeroPageX)),
            2 => entry(OpCode::SRE, Some(AddressingMode::DirectZeroPageX)),
            3 => entry(OpCode::RRA, Some(AddressingMode::DirectZeroPageX)),
            4 => entry(OpCode::SAX, Some(AddressingMode::DirectZeroPageY)),
            5 => entry(OpCode::LAX, Some(AddressingMode::DirectZeroPageY)),
            6 => entry(OpCode::DCP, Some(AddressingMode::DirectZeroPageX)),
            _ => entry(OpCode::ISC, Some(AddressingMode::DirectZeroPageX)),
        },
        0x18 => match row {
            0 => entry(OpCode::CLC, None),
            1 => entry(OpCode::SEC, None),
            2 => entry(OpCode::CLI, None),
            3 => entry(OpCode::SEI, None),
            4 => entry(OpCode::TYA, None),
            5 => entry(OpCode::CLV, None),
            6 => entry(OpCode::CLD, None),
            _ => entry(OpCode::SED, None),
        },
        0x19 => match row {
            0 => entry(OpCode::ORA, Some(AddressingMode::DirectAbsoluteY)),
            1 => entry(OpCode::AND, Some(AddressingMode::DirectAbsoluteY)),
            2 => entry(OpCode::EOR, Some(AddressingMode::DirectAbsoluteY)),
            3 => entry(OpCode::ADC, Some(AddressingMode::DirectAbsoluteY)),
            4 => entry(OpCode::STA, Some(AddressingMode::DirectAbsoluteY)),
            5 => entry(OpCode::LDA, Some(AddressingMode::DirectAbsoluteY)),
            6 => entry(OpCode::CMP, Some(AddressingMode::DirectAbsoluteY)),
            _ => entry(OpCode::SBC, Some(AddressingMode::DirectAbsoluteY)),
        },
        0x1a => match row {
            0 => entry(OpCode::INOP, Some(AddressingMode::Implied)),
            1 => entry(OpCode::INOP, Some(AddressingMode::Implied)),
            2 => entry(OpCode::INOP, Some(AddressingMode::Implied)),
            3 => entry(OpCode::INOP, Some(AddressingMode::Implied)),
            4 => entry(OpCode::TXS, None),
            5 => entry(OpCode::TSX, None),
            6 => entry(OpCode::INOP, Some(AddressingMode::Implied)),
            _ => entry(OpCode::INOP, Some(AddressingMode::Implied)),
        },
        0x1b => match row {
            0 => entry(OpCode::SLO, Some(AddressingMode::DirectAbsoluteY)),
            1 => entry(OpCode::RLA, Some(AddressingMode::DirectAbsoluteY)),
            2 => entry(OpCode::SRE, Some(AddressingMode::DirectAbsoluteY)),
            3 => entry(OpCode::RRA, Some(AddressingMode::DirectAbsoluteY)),
            4 => entry(OpCode::TAS, Some(AddressingMode::DirectAbsoluteY)),
            5 => entry(OpCode::LAS, Some(AddressingMode::DirectAbsoluteY)),
            6 => entry(OpCode::DCP, Some(AddressingMode::DirectAbsoluteY)),
            _ => entry(OpCode::ISC, Some(AddressingMode::DirectAbsoluteY)),
        },
        0x1c => match row {
            0 => entry(OpCode::INOP, Some(AddressingMode::DirectAbsoluteX)),
            1 => entry(OpCode::INOP, Some(AddressingMode::DirectAbsoluteX)),
            2 => entry(OpCode::INOP, Some(AddressingMode::DirectAbsoluteX)),
            3 => entry(OpCode::INOP, Some(AddressingMode::DirectAbsoluteX)),
            4 => entry(OpCode::SHY, Some(AddressingMode::DirectAbsoluteX)),
            5 => entry(OpCode::LDY, Some(AddressingMode::DirectAbsoluteX)),
            6 => entry(OpCode::INOP, Some(AddressingMode::DirectAbsoluteX)),
            _ => entry(OpCode::INOP, Some(AddressingMode::DirectAbsoluteX)),
        },
        0x1d => match row {
            0 => entry(OpCode::ORA, Some(AddressingMode::DirectAbsoluteX)),
            1 => entry(OpCode::AND, Some(AddressingMode::DirectAbsoluteX)),
            2 => entry(OpCode::EOR, Some(AddressingMode::DirectAbsoluteX)),
            3 => entry(OpCode::ADC, Some(AddressingMode::DirectAbsoluteX)),
            4 => entry(OpCode::STA, Some(AddressingMode::DirectAbsoluteX)),
            5 => entry(OpCode::LDA, Some(AddressingMode::DirectAbsoluteX)),
            6 => entry(OpCode::CMP, Some(AddressingMode::DirectAbsoluteX)),
            _ => entry(OpCode::SBC, Some(AddressingMode::DirectAbsoluteX)),
        },
        0x1e => match row {
            0 => entry(OpCode::ASL, Some(AddressingMode::DirectAbsoluteX)),
            1 => entry(OpCode::ROL, Some(AddressingMode::DirectAbsoluteX)),
            2 => entry(OpCode::LSR, Some(AddressingMode::DirectAbsoluteX)),
            3 => entry(OpCode::ROR, Some(AddressingMode::DirectAbsoluteX)),
            4 => entry(OpCode::SHX, Some(AddressingMode::DirectAbsoluteY)),
            5 => entry(OpCode::LDX, Some(AddressingMode::DirectAbsoluteY)),
            6 => entry(OpCode::DEC, Some(AddressingMode::DirectAbsoluteX)),
            _ => entry(OpCode::INC, Some(AddressingMode::DirectAbsoluteX)),
        },
        _ => match row {
            0 => entry(OpCode::SLO, Some(AddressingMode::DirectAbsoluteX)),
            1 => entry(OpCode::RLA, Some(AddressingMode::DirectAbsoluteX)),
            2 => entry(OpCode::SRE, Some(AddressingMode::DirectAbsoluteX)),
            3 => entry(OpCode::RRA, Some(AddressingMode::DirectAbsoluteX)),
            4 => entry(OpCode::SHA, Some(AddressingMode::DirectAbsoluteY)),
            5 => entry(OpCode::LAX, Some(AddressingMode::DirectAbsoluteY)),
            6 => entry(OpCode::DCP, Some(AddressingMode::DirectAbsoluteX)),
            _ => entry(OpCode::ISC, Some(AddressingMode::DirectAbsoluteX)),
        },
    }
}

/// The instruction that the 6502 opcode matrix gives a byte: the entry in
/// the byte's column (its low five bits) and row (its top three bits).
pub open spec fn opcode_matrix(value: u8) -> Instruction {
    opcode_entry(value % 32, value / 32)
}

/// Every opcode byte decodes to the instruction that the 6502 opcode matrix
/// gives it: the operation and addressing mode in the byte's column and
/// row, undocumented opcodes included.
pub proof fn law_decode_follows_the_opcode_matrix(value: u8)
    ensures
        decode(value) == opcode_matrix(value),
{
}

/// The flag that the top two bits of a flag instruction or a branch select:
/// for flag instructions carry, interrupt-disable, overflow and decimal; for
/// branches negative, overflow, carry and zero.
pub open spec fn selected_flag(value: u8, branch: bool) -> u8 {
    let pair = value / 64;
    if branch {
        if pair == 0 { FLAG_NEGATIVE } else if pair == 1 { FLAG_OVERFLOW } else if pair == 2 { FLAG_CARRY } else { FLAG_ZERO }
    } else {
        if pair == 0 { FLAG_CARRY } else if pair == 1 { FLAG_INTERRUPT_DISABLE } else if pair == 2 { FLAG_OVERFLOW } else { FLAG_DECIMAL }
    }
}

/// The flag instructions (bytes `xxy11000` but TYA at $98): bits 7 and 6
/// select the flag, and bit 5 says whether the instruction sets it (only the
/// overflow flag has no set instruction, so $B8 clears it). Whatever the
/// registers and memory, the instruction changes that flag alone and
/// performs no bus cycle.
pub proof fn law_flag_instructions(value: u8, r: Registers, mem: spec_fn(u16) -> u8)
    requires
        value % 32 == 0x18,
        value != 0x98,
    ensures
        step(decode(value), r, mem) == (
            Ok::<(), EmulatorError>(()),
            Registers {
                p: flag_set(r.p, selected_flag(value, false), (value / 32) % 2 == 1 && value / 64 != 2),
                ..r
            },
            Seq::<SystemCycle>::empty(),
        ),
{
    lemma_step_without_operand(decode(value), r, mem);
}

/// The branches (bytes `xxy10000`) take a one-byte relative operand; bits 7
/// and 6 select the flag tested and bit 5 the value of that flag on which
/// the branch is taken.
pub proof fn law_branch_conditions(value: u8, p: u8)
    requires
        value % 32 == 0x10,
    ensures
        decode(value).mode == Some(AddressingMode::Relative),
        branch_taken(decode(value).opcode, p) == (flag_on(p, selected_flag(value, true)) == ((value / 32) % 2 == 1)),
{
}

} // verus!

