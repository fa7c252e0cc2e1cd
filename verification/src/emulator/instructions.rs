//! Instruction set of the 6502: the opcodes and addressing modes, the decoder
//! from an opcode byte, and the execution of one decoded instruction.
use vstd::prelude::*;

use crate::emulator::semantics::{
    absolute_operand, add_with_carry, branch_target, break_effect, combined_effect, compare_flags, effect,
    is_combined_op, modify,
    high_byte, indirect_jump_effect, is_register_op, is_value_op, jump_effect, lemma_mem_after_one,
    lemma_mem_after_push, lemma_mem_after_read_prefix, lemma_mem_after_reads, lemma_mem_after_three,
    lemma_mem_after_two, lemma_operand_only_reads, low_byte, mem_after, only_reads, operand,
    pointer_next, pull_effect, pulled_status, push_effect, read_cycle, register_op, regs,
    return_effect, shift_flags, stack_address, step, step_effect, store_effect, value_op, with_nz,
    wrap16, wrap8, write_cycle, zero_page_operand, Registers, BREAK_VECTOR,
};
use crate::emulator::{mem_of, CPUEmulator, VirtualMemory};
use crate::state::{EmulatorError, SystemCycle, SystemFlags, SystemState};

verus! {

/// How an instruction finds its operand.
#[derive(Debug, PartialEq, Eq, Structural, Clone, Copy)]
pub enum AddressingMode {
    Implied,
    Accumulator,
    Immediate,
    DirectAbsolute,
    DirectAbsoluteX,
    DirectAbsoluteY,
    DirectZeroPage,
    DirectZeroPageX,
    DirectZeroPageY,
    IndirectZeroPageX,
    IndirectZeroPageY,
    Relative,
}

/// The operation of an instruction. `BadInstruction` and
/// `UnknownInstruction` carry the byte that did not decode; the variants
/// after them are the undocumented opcodes of the NMOS 6502.
#[derive(Debug, PartialEq, Eq, Structural, Clone, Copy)]
pub enum OpCode {
    ORA,
    AND,
    EOR,
    ADC,
    STA,
    LDA,
    CMP,
    SBC,
    ASL,
    ROL,
    LSR,
    ROR,
    STX,
    LDX,
    DEC,
    INC,
    BIT,
    JMP,
    JSR,
    JMPAbsolute,
    STY,
    LDY,
    CPY,
    CPX,
    BPL,
    BMI,
    BVC,
    BVS,
    BCC,
    BCS,
    BNE,
    BEQ,
    PHP,
    PLP,
    PHA,
    PLA,
    DEY,
    TAY,
    INY,
    INX,
    CLC,
    SEC,
    CLI,
    SEI,
    TYA,
    CLV,
    CLD,
    SED,
    TXA,
    TXS,
    TAX,
    TSX,
    DEX,
    NOP,
    BRK,
    RTI,
    RTS,
    BadInstruction(u8),
    UnknownInstruction(u8),
    ALR,
    ANC,
    ANC2,
    ANE,
    ARR,
    DCP,
    ISC,
    LAS,
    LAX,
    LXA,
    RLA,
    RRA,
    SAX,
    SBX,
    SHA,
    SHX,
    SHY,
    SLO,
    SRE,
    TAS,
    USBC,
    INOP,
    KIL,
}

/// A decoded instruction: its operation and, where it takes one, the way it
/// addresses its operand.
#[derive(Debug, PartialEq, Eq, Structural, Clone, Copy)]
pub struct Instruction {
    pub opcode: OpCode,
    pub mode: Option<AddressingMode>,
}

/// The decoding of the undocumented opcodes, which takes precedence over the
/// rest of the table.
pub open spec fn illegal_opcode(value: u8) -> Option<Instruction> {
    match value {
        0x4b => Some(Instruction { opcode: OpCode::ALR, mode: Some(AddressingMode::Immediate) }),
        0x0b => Some(Instruction { opcode: OpCode::ANC, mode: Some(AddressingMode::Immediate) }),
        0x2b => Some(Instruction { opcode: OpCode::ANC2, mode: Some(AddressingMode::Immediate) }),
        0x8b => Some(Instruction { opcode: OpCode::ANE, mode: Some(AddressingMode::Immediate) }),
        0x6b => Some(Instruction { opcode: OpCode::ARR, mode: Some(AddressingMode::Immediate) }),
        0xc7 => Some(Instruction { opcode: OpCode::DCP, mode: Some(AddressingMode::DirectZeroPage) }),
        0xd7 => Some(Instruction { opcode: OpCode::DCP, mode: Some(AddressingMode::DirectZeroPageX) }),
        0xcf => Some(Instruction { opcode: OpCode::DCP, mode: Some(AddressingMode::DirectAbsolute) }),
        0xdf => Some(Instruction { opcode: OpCode::DCP, mode: Some(AddressingMode::DirectAbsoluteX) }),
        0xdb => Some(Instruction { opcode: OpCode::DCP, mode: Some(AddressingMode::DirectAbsoluteY) }),
        0xc3 => Some(Instruction { opcode: OpCode::DCP, mode: Some(AddressingMode::IndirectZeroPageX) }),
        0xd3 => Some(Instruction { opcode: OpCode::DCP, mode: Some(AddressingMode::IndirectZeroPageY) }),
        0xe7 => Some(Instruction { opcode: OpCode::ISC, mode: Some(AddressingMode::DirectZeroPage) }),
        0xf7 => Some(Instruction { opcode: OpCode::ISC, mode: Some(AddressingMode::DirectZeroPageX) }),
        0xef => Some(Instruction { opcode: OpCode::ISC, mode: Some(AddressingMode::DirectAbsolute) }),
        0xff => Some(Instruction { opcode: OpCode::ISC, mode: Some(AddressingMode::DirectAbsoluteX) }),
        0xfb => Some(Instruction { opcode: OpCode::ISC, mode: Some(AddressingMode::DirectAbsoluteY) }),
        0xe3 => Some(Instruction { opcode: OpCode::ISC, mode: Some(AddressingMode::IndirectZeroPageX) }),
        0xf3 => Some(Instruction { opcode: OpCode::ISC, mode: Some(AddressingMode::IndirectZeroPageY) }),
        0xbb => Some(Instruction { opcode: OpCode::LAS, mode: Some(AddressingMode::DirectAbsoluteY) }),
        0xa7 => Some(Instruction { opcode: OpCode::LAX, mode: Some(AddressingMode::DirectZeroPage) }),
        0xb7 => Some(Instruction { opcode: OpCode::LAX, mode: Some(AddressingMode::DirectZeroPageY) }),
        0xaf => Some(Instruction { opcode: OpCode::LAX, mode: Some(AddressingMode::DirectAbsolute) }),
        0xbf => Some(Instruction { opcode: OpCode::LAX, mode: Some(AddressingMode::DirectAbsoluteY) }),
        0xa3 => Some(Instruction { opcode: OpCode::LAX, mode: Some(AddressingMode::IndirectZeroPageX) }),
        0xb3 => Some(Instruction { opcode: OpCode::LAX, mode: Some(AddressingMode::IndirectZeroPageY) }),
        0xab => Some(Instruction { opcode: OpCode::LXA, mode: Some(AddressingMode::Immediate) }),
        0x27 => Some(Instruction { opcode: OpCode::RLA, mode: Some(AddressingMode::DirectZeroPage) }),
        0x37 => Some(Instruction { opcode: OpCode::RLA, mode: Some(AddressingMode::DirectZeroPageX) }),
        0x2f => Some(Instruction { opcode: OpCode::RLA, mode: Some(AddressingMode::DirectAbsolute) }),
        0x3f => Some(Instruction { opcode: OpCode::RLA, mode: Some(AddressingMode::DirectAbsoluteX) }),
        0x3b => Some(Instruction { opcode: OpCode::RLA, mode: Some(AddressingMode::DirectAbsoluteY) }),
        0x23 => Some(Instruction { opcode: OpCode::RLA, mode: Some(AddressingMode::IndirectZeroPageX) }),
        0x33 => Some(Instruction { opcode: OpCode::RLA, mode: Some(AddressingMode::IndirectZeroPageY) }),
        0x67 => Some(Instruction { opcode: OpCode::RRA, mode: Some(AddressingMode::DirectZeroPage) }),
        0x77 => Some(Instruction { opcode: OpCode::RRA, mode: Some(AddressingMode::DirectZeroPageX) }),
        0x6f => Some(Instruction { opcode: OpCode::RRA, mode: Some(AddressingMode::DirectAbsolute) }),
        0x7f => Some(Instruction { opcode: OpCode::RRA, mode: Some(AddressingMode::DirectAbsoluteX) }),
        0x7b => Some(Instruction { opcode: OpCode::RRA, mode: Some(AddressingMode::DirectAbsoluteY) }),
        0x63 => Some(Instruction { opcode: OpCode::RRA, mode: Some(AddressingMode::IndirectZeroPageX) }),
        0x73 => Some(Instruction { opcode: OpCode::RRA, mode: Some(AddressingMode::IndirectZeroPageY) }),
        0x87 => Some(Instruction { opcode: OpCode::SAX, mode: Some(AddressingMode::DirectZeroPage) }),
        0x97 => Some(Instruction { opcode: OpCode::SAX, mode: Some(AddressingMode::DirectZeroPageY) }),
        0x8f => Some(Instruction { opcode: OpCode::SAX, mode: Some(AddressingMode::DirectAbsolute) }),
        0x83 => Some(Instruction { opcode: OpCode::SAX, mode: Some(AddressingMode::IndirectZeroPageX) }),
        0xcb => Some(Instruction { opcode: OpCode::SBX, mode: Some(AddressingMode::Immediate) }),
        0x9f => Some(Instruction { opcode: OpCode::SHA, mode: Some(AddressingMode::DirectAbsoluteY) }),
        0x93 => Some(Instruction { opcode: OpCode::SHA, mode: Some(AddressingMode::IndirectZeroPageY) }),
        0x9e => Some(Instruction { opcode: OpCode::SHX, mode: Some(AddressingMode::DirectAbsoluteY) }),
        0x9c => Some(Instruction { opcode: OpCode::SHY, mode: Some(AddressingMode::DirectAbsoluteX) }),
        0x07 => Some(Instruction { opcode: OpCode::SLO, mode: Some(AddressingMode::DirectZeroPage) }),
        0x17 => Some(Instruction { opcode: OpCode::SLO, mode: Some(AddressingMode::DirectZeroPageX) }),
        0x0f => Some(Instruction { opcode: OpCode::SLO, mode: Some(AddressingMode::DirectAbsolute) }),
        0x1f => Some(Instruction { opcode: OpCode::SLO, mode: Some(AddressingMode::DirectAbsoluteX) }),
        0x1b => Some(Instruction { opcode: OpCode::SLO, mode: Some(AddressingMode::DirectAbsoluteY) }),
        0x03 => Some(Instruction { opcode: OpCode::SLO, mode: Some(AddressingMode::IndirectZeroPageX) }),
        0x13 => Some(Instruction { opcode: OpCode::SLO, mode: Some(AddressingMode::IndirectZeroPageY) }),
        0x47 => Some(Instruction { opcode: OpCode::SRE, mode: Some(AddressingMode::DirectZeroPage) }),
        0x57 => Some(Instruction { opcode: OpCode::SRE, mode: Some(AddressingMode::DirectZeroPageX) }),
        0x4f => Some(Instruction { opcode: OpCode::SRE, mode: Some(AddressingMode::DirectAbsolute) }),
        0x5f => Some(Instruction { opcode: OpCode::SRE, mode: Some(AddressingMode::DirectAbsoluteX) }),
        0x5b => Some(Instruction { opcode: OpCode::SRE, mode: Some(AddressingMode::DirectAbsoluteY) }),
        0x43 => Some(Instruction { opcode: OpCode::SRE, mode: Some(AddressingMode::IndirectZeroPageX) }),
        0x53 => Some(Instruction { opcode: OpCode::SRE, mode: Some(AddressingMode::IndirectZeroPageY) }),
        0x9b => Some(Instruction { opcode: OpCode::TAS, mode: Some(AddressingMode::DirectAbsoluteY) }),
        0xeb => Some(Instruction { opcode: OpCode::USBC, mode: Some(AddressingMode::Immediate) }),
        0x1a => Some(Instruction { opcode: OpCode::INOP, mode: Some(AddressingMode::Implied) }),
        0x3a => Some(Instruction { opcode: OpCode::INOP, mode: Some(AddressingMode::Implied) }),
        0x5a => Some(Instruction { opcode: OpCode::INOP, mode: Some(AddressingMode::Implied) }),
        0x7a => Some(Instruction { opcode: OpCode::INOP, mode: Some(AddressingMode::Implied) }),
        0xda => Some(Instruction { opcode: OpCode::INOP, mode: Some(AddressingMode::Implied) }),
        0xfa => Some(Instruction { opcode: OpCode::INOP, mode: Some(AddressingMode::Implied) }),
        0x80 => Some(Instruction { opcode: OpCode::INOP, mode: Some(AddressingMode::Immediate) }),
        0x82 => Some(Instruction { opcode: OpCode::INOP, mode: Some(AddressingMode::Immediate) }),
        0x89 => Some(Instruction { opcode: OpCode::INOP, mode: Some(AddressingMode::Immediate) }),
        0xc2 => Some(Instruction { opcode: OpCode::INOP, mode: Some(AddressingMode::Immediate) }),
        0xe2 => Some(Instruction { opcode: OpCode::INOP, mode: Some(AddressingMode::Immediate) }),
        0x04 => Some(Instruction { opcode: OpCode::INOP, mode: Some(AddressingMode::DirectZeroPage) }),
        0x44 => Some(Instruction { opcode: OpCode::INOP, mode: Some(AddressingMode::DirectZeroPage) }),
        0x64 => Some(Instruction { opcode: OpCode::INOP, mode: Some(AddressingMode::DirectZeroPage) }),
        0x14 => Some(Instruction { opcode: OpCode::INOP, mode: Some(AddressingMode::DirectZeroPageX) }),
        0x34 => Some(Instruction { opcode: OpCode::INOP, mode: Some(AddressingMode::DirectZeroPageX) }),
        0x54 => Some(Instruction { opcode: OpCode::INOP, mode: Some(AddressingMode::DirectZeroPageX) }),
        0x74 => Some(Instruction { opcode: OpCode::INOP, mode: Some(AddressingMode::DirectZeroPageX) }),
        0xd4 => Some(Instruction { opcode: OpCode::INOP, mode: Some(AddressingMode::DirectZeroPageX) }),
        0xf4 => Some(Instruction { opcode: OpCode::INOP, mode: Some(AddressingMode::DirectZeroPageX) }),
        0x0c => Some(Instruction { opcode: OpCode::INOP, mode: Some(AddressingMode::DirectAbsolute) }),
        0x1c => Some(Instruction { opcode: OpCode::INOP, mode: Some(AddressingMode::DirectAbsoluteX) }),
        0x3c => Some(Instruction { opcode: OpCode::INOP, mode: Some(AddressingMode::DirectAbsoluteX) }),
        0x5c => Some(Instruction { opcode: OpCode::INOP, mode: Some(AddressingMode::DirectAbsoluteX) }),
        0x7c => Some(Instruction { opcode: OpCode::INOP, mode: Some(AddressingMode::DirectAbsoluteX) }),
        0xdc => Some(Instruction { opcode: OpCode::INOP, mode: Some(AddressingMode::DirectAbsoluteX) }),
        0xfc => Some(Instruction { opcode: OpCode::INOP, mode: Some(AddressingMode::DirectAbsoluteX) }),
        0x02 => Some(Instruction { opcode: OpCode::KIL, mode: None }),
        0x12 => Some(Instruction { opcode: OpCode::KIL, mode: None }),
        0x22 => Some(Instruction { opcode: OpCode::KIL, mode: None }),
        0x32 => Some(Instruction { opcode: OpCode::KIL, mode: None }),
        0x42 => Some(Instruction { opcode: OpCode::KIL, mode: None }),
        0x52 => Some(Instruction { opcode: OpCode::KIL, mode: None }),
        0x62 => Some(Instruction { opcode: OpCode::KIL, mode: None }),
        0x72 => Some(Instruction { opcode: OpCode::KIL, mode: None }),
        0x92 => Some(Instruction { opcode: OpCode::KIL, mode: None }),
        0xb2 => Some(Instruction { opcode: OpCode::KIL, mode: None }),
        0xd2 => Some(Instruction { opcode: OpCode::KIL, mode: None }),
        0xf2 => Some(Instruction { opcode: OpCode::KIL, mode: None }),
        _ => None,
    }
}

/// The single-byte instructions, the branches and the subroutine call,
/// which do not follow the bit-field layout of the other opcodes.
pub open spec fn special_opcode(value: u8) -> Option<Instruction> {
    match value {
        0x00 => Some(Instruction { opcode: OpCode::BRK, mode: None }),
        0x20 => Some(Instruction { opcode: OpCode::JSR, mode: Some(AddressingMode::DirectAbsolute) }),
        0x40 => Some(Instruction { opcode: OpCode::RTI, mode: None }),
        0x60 => Some(Instruction { opcode: OpCode::RTS, mode: None }),
        0x08 => Some(Instruction { opcode: OpCode::PHP, mode: None }),
        0x28 => Some(Instruction { opcode: OpCode::PLP, mode: None }),
        0x48 => Some(Instruction { opcode: OpCode::PHA, mode: None }),
        0x68 => Some(Instruction { opcode: OpCode::PLA, mode: None }),
        0x88 => Some(Instruction { opcode: OpCode::DEY, mode: None }),
        0xa8 => Some(Instruction { opcode: OpCode::TAY, mode: None }),
        0xc8 => Some(Instruction { opcode: OpCode::INY, mode: None }),
        0xe8 => Some(Instruction { opcode: OpCode::INX, mode: None }),
        0x18 => Some(Instruction { opcode: OpCode::CLC, mode: None }),
        0x38 => Some(Instruction { opcode: OpCode::SEC, mode: None }),
        0x58 => Some(Instruction { opcode: OpCode::CLI, mode: None }),
        0x78 => Some(Instruction { opcode: OpCode::SEI, mode: None }),
        0x98 => Some(Instruction { opcode: OpCode::TYA, mode: None }),
        0xb8 => Some(Instruction { opcode: OpCode::CLV, mode: None }),
        0xd8 => Some(Instruction { opcode: OpCode::CLD, mode: None }),
        0xf8 => Some(Instruction { opcode: OpCode::SED, mode: None }),
        0x8a => Some(Instruction { opcode: OpCode::TXA, mode: None }),
        0x9a => Some(Instruction { opcode: OpCode::TXS, mode: None }),
        0xaa => Some(Instruction { opcode: OpCode::TAX, mode: None }),
        0xba => Some(Instruction { opcode: OpCode::TSX, mode: None }),
        0xca => Some(Instruction { opcode: OpCode::DEX, mode: None }),
        0xea => Some(Instruction { opcode: OpCode::NOP, mode: None }),
        0x10 => Some(Instruction { opcode: OpCode::BPL, mode: Some(AddressingMode::Relative) }),
        0x30 => Some(Instruction { opcode: OpCode::BMI, mode: Some(AddressingMode::Relative) }),
        0x50 => Some(Instruction { opcode: OpCode::BVC, mode: Some(AddressingMode::Relative) }),
        0x70 => Some(Instruction { opcode: OpCode::BVS, mode: Some(AddressingMode::Relative) }),
        0x90 => Some(Instruction { opcode: OpCode::BCC, mode: Some(AddressingMode::Relative) }),
        0xb0 => Some(Instruction { opcode: OpCode::BCS, mode: Some(AddressingMode::Relative) }),
        0xd0 => Some(Instruction { opcode: OpCode::BNE, mode: Some(AddressingMode::Relative) }),
        0xf0 => Some(Instruction { opcode: OpCode::BEQ, mode: Some(AddressingMode::Relative) }),
        _ => None,
    }
}

/// Operation of a group-one opcode (`cc == 01`) from its `aaa` bits.
pub open spec fn group_one_opcode(aaa: u8) -> Option<OpCode> {
    match aaa {
        0 => Some(OpCode::ORA),
        1 => Some(OpCode::AND),
        2 => Some(OpCode::EOR),
        3 => Some(OpCode::ADC),
        4 => Some(OpCode::STA),
        5 => Some(OpCode::LDA),
        6 => Some(OpCode::CMP),
        7 => Some(OpCode::SBC),
        _ => None,
    }
}

/// Addressing mode of a group-one opcode from its `bbb` bits.
pub open spec fn group_one_mode(bbb: u8) -> Option<AddressingMode> {
    match bbb {
        0 => Some(AddressingMode::IndirectZeroPageX),
        1 => Some(AddressingMode::DirectZeroPage),
        2 => Some(AddressingMode::Immediate),
        3 => Some(AddressingMode::DirectAbsolute),
        4 => Some(AddressingMode::IndirectZeroPageY),
        5 => Some(AddressingMode::DirectZeroPageX),
        6 => Some(AddressingMode::DirectAbsoluteY),
        7 => Some(AddressingMode::DirectAbsoluteX),
        _ => None,
    }
}

/// Operation of a group-two opcode (`cc == 10`) from its `aaa` bits.
pub open spec fn group_two_opcode(aaa: u8) -> Option<OpCode> {
    match aaa {
        0 => Some(OpCode::ASL),
        1 => Some(OpCode::ROL),
        2 => Some(OpCode::LSR),
        3 => Some(OpCode::ROR),
        4 => Some(OpCode::STX),
        5 => Some(OpCode::LDX),
        6 => Some(OpCode::DEC),
        7 => Some(OpCode::INC),
        _ => None,
    }
}

/// Addressing mode of a group-two opcode from its `aaa` and `bbb` bits. The
/// transfers of X to and from memory (`aaa` of 4 and 5) index by Y where the
/// others index by X.
pub open spec fn group_two_mode(aaa: u8, bbb: u8) -> Option<AddressingMode> {
    let by_y = aaa == 4 || aaa == 5;
    match bbb {
        0 => Some(AddressingMode::Immediate),
        1 => Some(AddressingMode::DirectZeroPage),
        2 => Some(AddressingMode::Accumulator),
        3 => Some(AddressingMode::DirectAbsolute),
        5 => Some(if by_y { AddressingMode::DirectZeroPageY } else { AddressingMode::DirectZeroPageX }),
        7 => Some(if by_y { AddressingMode::DirectAbsoluteY } else { AddressingMode::DirectAbsoluteX }),
        _ => None,
    }
}

/// Operation of a group-zero opcode (`cc == 00`) from its `aaa` bits.
pub open spec fn group_zero_opcode(aaa: u8) -> Option<OpCode> {
    match aaa {
        1 => Some(OpCode::BIT),
        2 => Some(OpCode::JMP),
        3 => Some(OpCode::JMPAbsolute),
        4 => Some(OpCode::STY),
        5 => Some(OpCode::LDY),
        6 => Some(OpCode::CPY),
        7 => Some(OpCode::CPX),
        _ => None,
    }
}

/// Addressing mode of a group-zero opcode from its `bbb` bits.
pub open spec fn group_zero_mode(bbb: u8) -> Option<AddressingMode> {
    match bbb {
        0 => Some(AddressingMode::Immediate),
        1 => Some(AddressingMode::DirectZeroPage),
        3 => Some(AddressingMode::DirectAbsolute),
        5 => Some(AddressingMode::DirectZeroPageX),
        7 => Some(AddressingMode::DirectAbsoluteX),
        _ => None,
    }
}

/// Decoding by the `aaabbbcc` bit fields of the opcode byte.
pub open spec fn group_decode(value: u8) -> Instruction {
    let cc = value % 4;
    let aaa = value / 32;
    let bbb = (value / 4) % 8;
    let (op, mode) = if cc == 0b01 {
        (group_one_opcode(aaa), group_one_mode(bbb))
    } else if cc == 0b10 {
        (group_two_opcode(aaa), group_two_mode(aaa, bbb))
    } else if cc == 0b00 {
        (group_zero_opcode(aaa), group_zero_mode(bbb))
    } else {
        (None, None)
    };
    match (op, mode) {
        (Some(o), Some(m)) => Instruction { opcode: o, mode: Some(m) },
        _ => Instruction { opcode: OpCode::UnknownInstruction(value), mode: None },
    }
}

/// The instruction that an opcode byte decodes to.
pub open spec fn decode(value: u8) -> Instruction {
    match illegal_opcode(value) {
        Some(i) => i,
        None => match special_opcode(value) {
            Some(i) => i,
            None => group_decode(value),
        },
    }
}

/// No byte decodes to `BadInstruction`: every byte that the second table
/// names as bad is claimed first by the table of undocumented opcodes.
pub proof fn law_decode_never_bad(value: u8)
    ensures
        !(decode(value).opcode is BadInstruction),
{
}

/// Every byte decodes to an instruction: the tables of undocumented and
/// single-byte opcodes cover every byte that the bit fields leave without
/// an operation or a mode.
pub proof fn law_decode_always_known(value: u8)
    ensures
        !(decode(value).opcode is UnknownInstruction),
{
}

impl vstd::std_specs::convert::FromSpecImpl<u8> for Instruction {
    open spec fn obeys_from_spec() -> bool {
        true
    }

    open spec fn from_spec(v: u8) -> Instruction {
        decode(v)
    }
}

impl From<u8> for Instruction {
    #[verifier::rlimit(50)]
    fn from(value: u8) -> (i: Instruction) {
        let group_bits = value & 0b11;
        let instruction_bits = (0b11100000 & value) >> 5;
        let mode_bits = (0b00011100 & value) >> 2;
        assert(group_bits == value % 4 && instruction_bits == value / 32 && mode_bits == (value / 4) % 8)
            by (bit_vector)
            requires
                group_bits == value & 0b11,
                instruction_bits == (0b11100000 & value) >> 5,
                mode_bits == (0b00011100 & value) >> 2,
        ;
        // Undocumented opcodes first.
        match value {
            0x4b => return Instruction { opcode: OpCode::ALR, mode: Some(AddressingMode::Immediate) },
            0x0b => return Instruction { opcode: OpCode::ANC, mode: Some(AddressingMode::Immediate) },
            0x2b => return Instruction { opcode: OpCode::ANC2, mode: Some(AddressingMode::Immediate) },
            0x8b => return Instruction { opcode: OpCode::ANE, mode: Some(AddressingMode::Immediate) },
            0x6b => return Instruction { opcode: OpCode::ARR, mode: Some(AddressingMode::Immediate) },
            0xc7 => return Instruction { opcode: OpCode::DCP, mode: Some(AddressingMode::DirectZeroPage) },
            0xd7 => return Instruction { opcode: OpCode::DCP, mode: Some(AddressingMode::DirectZeroPageX) },
            0xcf => return Instruction { opcode: OpCode::DCP, mode: Some(AddressingMode::DirectAbsolute) },
            0xdf => return Instruction { opcode: OpCode::DCP, mode: Some(AddressingMode::DirectAbsoluteX) },
            0xdb => return Instruction { opcode: OpCode::DCP, mode: Some(AddressingMode::DirectAbsoluteY) },
            0xc3 => return Instruction { opcode: OpCode::DCP, mode: Some(AddressingMode::IndirectZeroPageX) },
            0xd3 => return Instruction { opcode: OpCode::DCP, mode: Some(AddressingMode::IndirectZeroPageY) },
            0xe7 => return Instruction { opcode: OpCode::ISC, mode: Some(AddressingMode::DirectZeroPage) },
            0xf7 => return Instruction { opcode: OpCode::ISC, mode: Some(AddressingMode::DirectZeroPageX) },
            0xef => return Instruction { opcode: OpCode::ISC, mode: Some(AddressingMode::DirectAbsolute) },
            0xff => return Instruction { opcode: OpCode::ISC, mode: Some(AddressingMode::DirectAbsoluteX) },
            0xfb => return Instruction { opcode: OpCode::ISC, mode: Some(AddressingMode::DirectAbsoluteY) },
            0xe3 => return Instruction { opcode: OpCode::ISC, mode: Some(AddressingMode::IndirectZeroPageX) },
            0xf3 => return Instruction { opcode: OpCode::ISC, mode: Some(AddressingMode::IndirectZeroPageY) },
            0xbb => return Instruction { opcode: OpCode::LAS, mode: Some(AddressingMode::DirectAbsoluteY) },
            0xa7 => return Instruction { opcode: OpCode::LAX, mode: Some(AddressingMode::DirectZeroPage) },
            0xb7 => return Instruction { opcode: OpCode::LAX, mode: Some(AddressingMode::DirectZeroPageY) },
            0xaf => return Instruction { opcode: OpCode::LAX, mode: Some(AddressingMode::DirectAbsolute) },
            0xbf => return Instruction { opcode: OpCode::LAX, mode: Some(AddressingMode::DirectAbsoluteY) },
            0xa3 => return Instruction { opcode: OpCode::LAX, mode: Some(AddressingMode::IndirectZeroPageX) },
            0xb3 => return Instruction { opcode: OpCode::LAX, mode: Some(AddressingMode::IndirectZeroPageY) },
            0xab => return Instruction { opcode: OpCode::LXA, mode: Some(AddressingMode::Immediate) },
            0x27 => return Instruction { opcode: OpCode::RLA, mode: Some(AddressingMode::DirectZeroPage) },
            0x37 => return Instruction { opcode: OpCode::RLA, mode: Some(AddressingMode::DirectZeroPageX) },
            0x2f => return Instruction { opcode: OpCode::RLA, mode: Some(AddressingMode::DirectAbsolute) },
            0x3f => return Instruction { opcode: OpCode::RLA, mode: Some(AddressingMode::DirectAbsoluteX) },
            0x3b => return Instruction { opcode: OpCode::RLA, mode: Some(AddressingMode::DirectAbsoluteY) },
            0x23 => return Instruction { opcode: OpCode::RLA, mode: Some(AddressingMode::IndirectZeroPageX) },
            0x33 => return Instruction { opcode: OpCode::RLA, mode: Some(AddressingMode::IndirectZeroPageY) },
            0x67 => return Instruction { opcode: OpCode::RRA, mode: Some(AddressingMode::DirectZeroPage) },
            0x77 => return Instruction { opcode: OpCode::RRA, mode: Some(AddressingMode::DirectZeroPageX) },
            0x6f => return Instruction { opcode: OpCode::RRA, mode: Some(AddressingMode::DirectAbsolute) },
            0x7f => return Instruction { opcode: OpCode::RRA, mode: Some(AddressingMode::DirectAbsoluteX) },
            0x7b => return Instruction { opcode: OpCode::RRA, mode: Some(AddressingMode::DirectAbsoluteY) },
            0x63 => return Instruction { opcode: OpCode::RRA, mode: Some(AddressingMode::IndirectZeroPageX) },
            0x73 => return Instruction { opcode: OpCode::RRA, mode: Some(AddressingMode::IndirectZeroPageY) },
            0x87 => return Instruction { opcode: OpCode::SAX, mode: Some(AddressingMode::DirectZeroPage) },
            0x97 => return Instruction { opcode: OpCode::SAX, mode: Some(AddressingMode::DirectZeroPageY) },
            0x8f => return Instruction { opcode: OpCode::SAX, mode: Some(AddressingMode::DirectAbsolute) },
            0x83 => return Instruction { opcode: OpCode::SAX, mode: Some(AddressingMode::IndirectZeroPageX) },
            0xcb => return Instruction { opcode: OpCode::SBX, mode: Some(AddressingMode::Immediate) },
            0x9f => return Instruction { opcode: OpCode::SHA, mode: Some(AddressingMode::DirectAbsoluteY) },
            0x93 => return Instruction { opcode: OpCode::SHA, mode: Some(AddressingMode::IndirectZeroPageY) },
            0x9e => return Instruction { opcode: OpCode::SHX, mode: Some(AddressingMode::DirectAbsoluteY) },
            0x9c => return Instruction { opcode: OpCode::SHY, mode: Some(AddressingMode::DirectAbsoluteX) },
            0x07 => return Instruction { opcode: OpCode::SLO, mode: Some(AddressingMode::DirectZeroPage) },
            0x17 => return Instruction { opcode: OpCode::SLO, mode: Some(AddressingMode::DirectZeroPageX) },
            0x0f => return Instruction { opcode: OpCode::SLO, mode: Some(AddressingMode::DirectAbsolute) },
            0x1f => return Instruction { opcode: OpCode::SLO, mode: Some(AddressingMode::DirectAbsoluteX) },
            0x1b => return Instruction { opcode: OpCode::SLO, mode: Some(AddressingMode::DirectAbsoluteY) },
            0x03 => return Instruction { opcode: OpCode::SLO, mode: Some(AddressingMode::IndirectZeroPageX) },
            0x13 => return Instruction { opcode: OpCode::SLO, mode: Some(AddressingMode::IndirectZeroPageY) },
            0x47 => return Instruction { opcode: OpCode::SRE, mode: Some(AddressingMode::DirectZeroPage) },
            0x57 => return Instruction { opcode: OpCode::SRE, mode: Some(AddressingMode::DirectZeroPageX) },
            0x4f => return Instruction { opcode: OpCode::SRE, mode: Some(AddressingMode::DirectAbsolute) },
            0x5f => return Instruction { opcode: OpCode::SRE, mode: Some(AddressingMode::DirectAbsoluteX) },
            0x5b => return Instruction { opcode: OpCode::SRE, mode: Some(AddressingMode::DirectAbsoluteY) },
            0x43 => return Instruction { opcode: OpCode::SRE, mode: Some(AddressingMode::IndirectZeroPageX) },
            0x53 => return Instruction { opcode: OpCode::SRE, mode: Some(AddressingMode::IndirectZeroPageY) },
            0x9b => return Instruction { opcode: OpCode::TAS, mode: Some(AddressingMode::DirectAbsoluteY) },
            0xeb => return Instruction { opcode: OpCode::USBC, mode: Some(AddressingMode::Immediate) },
            0x1a => return Instruction { opcode: OpCode::INOP, mode: Some(AddressingMode::Implied) },
            0x3a => return Instruction { opcode: OpCode::INOP, mode: Some(AddressingMode::Implied) },
            0x5a => return Instruction { opcode: OpCode::INOP, mode: Some(AddressingMode::Implied) },
            0x7a => return Instruction { opcode: OpCode::INOP, mode: Some(AddressingMode::Implied) },
            0xda => return Instruction { opcode: OpCode::INOP, mode: Some(AddressingMode::Implied) },
            0xfa => return Instruction { opcode: OpCode::INOP, mode: Some(AddressingMode::Implied) },
            0x80 => return Instruction { opcode: OpCode::INOP, mode: Some(AddressingMode::Immediate) },
            0x82 => return Instruction { opcode: OpCode::INOP, mode: Some(AddressingMode::Immediate) },
            0x89 => return Instruction { opcode: OpCode::INOP, mode: Some(AddressingMode::Immediate) },
            0xc2 => return Instruction { opcode: OpCode::INOP, mode: Some(AddressingMode::Immediate) },
            0xe2 => return Instruction { opcode: OpCode::INOP, mode: Some(AddressingMode::Immediate) },
            0x04 => return Instruction { opcode: OpCode::INOP, mode: Some(AddressingMode::DirectZeroPage) },
            0x44 => return Instruction { opcode: OpCode::INOP, mode: Some(AddressingMode::DirectZeroPage) },
            0x64 => return Instruction { opcode: OpCode::INOP, mode: Some(AddressingMode::DirectZeroPage) },
            0x14 => return Instruction { opcode: OpCode::INOP, mode: Some(AddressingMode::DirectZeroPageX) },
            0x34 => return Instruction { opcode: OpCode::INOP, mode: Some(AddressingMode::DirectZeroPageX) },
            0x54 => return Instruction { opcode: OpCode::INOP, mode: Some(AddressingMode::DirectZeroPageX) },
            0x74 => return Instruction { opcode: OpCode::INOP, mode: Some(AddressingMode::DirectZeroPageX) },
            0xd4 => return Instruction { opcode: OpCode::INOP, mode: Some(AddressingMode::DirectZeroPageX) },
            0xf4 => return Instruction { opcode: OpCode::INOP, mode: Some(AddressingMode::DirectZeroPageX) },
            0x0c => return Instruction { opcode: OpCode::INOP, mode: Some(AddressingMode::DirectAbsolute) },
            0x1c => return Instruction { opcode: OpCode::INOP, mode: Some(AddressingMode::DirectAbsoluteX) },
            0x3c => return Instruction { opcode: OpCode::INOP, mode: Some(AddressingMode::DirectAbsoluteX) },
            0x5c => return Instruction { opcode: OpCode::INOP, mode: Some(AddressingMode::DirectAbsoluteX) },
            0x7c => return Instruction { opcode: OpCode::INOP, mode: Some(AddressingMode::DirectAbsoluteX) },
            0xdc => return Instruction { opcode: OpCode::INOP, mode: Some(AddressingMode::DirectAbsoluteX) },
            0xfc => return Instruction { opcode: OpCode::INOP, mode: Some(AddressingMode::DirectAbsoluteX) },
            0x02 => return Instruction { opcode: OpCode::KIL, mode: None },
            0x12 => return Instruction { opcode: OpCode::KIL, mode: None },
            0x22 => return Instruction { opcode: OpCode::KIL, mode: None },
            0x32 => return Instruction { opcode: OpCode::KIL, mode: None },
            0x42 => return Instruction { opcode: OpCode::KIL, mode: None },
            0x52 => return Instruction { opcode: OpCode::KIL, mode: None },
            0x62 => return Instruction { opcode: OpCode::KIL, mode: None },
            0x72 => return Instruction { opcode: OpCode::KIL, mode: None },
            0x92 => return Instruction { opcode: OpCode::KIL, mode: None },
            0xb2 => return Instruction { opcode: OpCode::KIL, mode: None },
            0xd2 => return Instruction { opcode: OpCode::KIL, mode: None },
            0xf2 => return Instruction { opcode: OpCode::KIL, mode: None },
            _ => (),
        }

        // Single-byte instructions, branches, the subroutine call, and bytes
        // that name no instruction.
        match value {
            0x00 => return Instruction { opcode: OpCode::BRK, mode: None },
            0x20 => return Instruction { opcode: OpCode::JSR, mode: Some(AddressingMode::DirectAbsolute) },
            0x40 => return Instruction { opcode: OpCode::RTI, mode: None },
            0x60 => return Instruction { opcode: OpCode::RTS, mode: None },
            0x08 => return Instruction { opcode: OpCode::PHP, mode: None },
            0x28 => return Instruction { opcode: OpCode::PLP, mode: None },
            0x48 => return Instruction { opcode: OpCode::PHA, mode: None },
            0x68 => return Instruction { opcode: OpCode::PLA, mode: None },
            0x88 => return Instruction { opcode: OpCode::DEY, mode: None },
            0xa8 => return Instruction { opcode: OpCode::TAY, mode: None },
            0xc8 => return Instruction { opcode: OpCode::INY, mode: None },
            0xe8 => return Instruction { opcode: OpCode::INX, mode: None },
            0x18 => return Instruction { opcode: OpCode::CLC, mode: None },
            0x38 => return Instruction { opcode: OpCode::SEC, mode: None },
            0x58 => return Instruction { opcode: OpCode::CLI, mode: None },
            0x78 => return Instruction { opcode: OpCode::SEI, mode: None },
            0x98 => return Instruction { opcode: OpCode::TYA, mode: None },
            0xb8 => return Instruction { opcode: OpCode::CLV, mode: None },
            0xd8 => return Instruction { opcode: OpCode::CLD, mode: None },
            0xf8 => return Instruction { opcode: OpCode::SED, mode: None },
            0x8a => return Instruction { opcode: OpCode::TXA, mode: None },
            0x9a => return Instruction { opcode: OpCode::TXS, mode: None },
            0xaa => return Instruction { opcode: OpCode::TAX, mode: None },
            0xba => return Instruction { opcode: OpCode::TSX, mode: None },
            0xca => return Instruction { opcode: OpCode::DEX, mode: None },
            0xea => return Instruction { opcode: OpCode::NOP, mode: None },
            0x10 => return Instruction { opcode: OpCode::BPL, mode: Some(AddressingMode::Relative) },
            0x30 => return Instruction { opcode: OpCode::BMI, mode: Some(AddressingMode::Relative) },
            0x50 => return Instruction { opcode: OpCode::BVC, mode: Some(AddressingMode::Relative) },
            0x70 => return Instruction { opcode: OpCode::BVS, mode: Some(AddressingMode::Relative) },
            0x90 => return Instruction { opcode: OpCode::BCC, mode: Some(AddressingMode::Relative) },
            0xb0 => return Instruction { opcode: OpCode::BCS, mode: Some(AddressingMode::Relative) },
            0xd0 => return Instruction { opcode: OpCode::BNE, mode: Some(AddressingMode::Relative) },
            0xf0 => return Instruction { opcode: OpCode::BEQ, mode: Some(AddressingMode::Relative) },
            0x80 => return Instruction { opcode: OpCode::BadInstruction(value), mode: None },
            0x02 => return Instruction { opcode: OpCode::BadInstruction(value), mode: None },
            0x12 => return Instruction { opcode: OpCode::BadInstruction(value), mode: None },
            0x22 => return Instruction { opcode: OpCode::BadInstruction(value), mode: None },
            0x32 => return Instruction { opcode: OpCode::BadInstruction(value), mode: None },
            0x42 => return Instruction { opcode: OpCode::BadInstruction(value), mode: None },
            0x52 => return Instruction { opcode: OpCode::BadInstruction(value), mode: None },
            0x62 => return Instruction { opcode: OpCode::BadInstruction(value), mode: None },
            0x72 => return Instruction { opcode: OpCode::BadInstruction(value), mode: None },
            0x82 => return Instruction { opcode: OpCode::BadInstruction(value), mode: None },
            0x92 => return Instruction { opcode: OpCode::BadInstruction(value), mode: None },
            0xb2 => return Instruction { opcode: OpCode::BadInstruction(value), mode: None },
            0xc2 => return Instruction { opcode: OpCode::BadInstruction(value), mode: None },
            0xd2 => return Instruction { opcode: OpCode::BadInstruction(value), mode: None },
            0xe2 => return Instruction { opcode: OpCode::BadInstruction(value), mode: None },
            0xf2 => return Instruction { opcode: OpCode::BadInstruction(value), mode: None },
            0x03 => return Instruction { opcode: OpCode::BadInstruction(value), mode: None },
            0x13 => return Instruction { opcode: OpCode::BadInstruction(value), mode: None },
            0x23 => return Instruction { opcode: OpCode::BadInstruction(value), mode: None },
            0x33 => return Instruction { opcode: OpCode::BadInstruction(value), mode: None },
            0x43 => return Instruction { opcode: OpCode::BadInstruction(value), mode: None },
            0x53 => return Instruction { opcode: OpCode::BadInstruction(value), mode: None },
            0x63 => return Instruction { opcode: OpCode::BadInstruction(value), mode: None },
            0x73 => return Instruction { opcode: OpCode::BadInstruction(value), mode: None },
            0x83 => return Instruction { opcode: OpCode::BadInstruction(value), mode: None },
            0x93 => return Instruction { opcode: OpCode::BadInstruction(value), mode: None },
            0xa3 => return Instruction { opcode: OpCode::BadInstruction(value), mode: None },
            0xb3 => return Instruction { opcode: OpCode::BadInstruction(value), mode: None },
            0xc3 => return Instruction { opcode: OpCode::BadInstruction(value), mode: None },
            0xd3 => return Instruction { opcode: OpCode::BadInstruction(value), mode: None },
            0xe3 => return Instruction { opcode: OpCode::BadInstruction(value), mode: None },
            0xf3 => return Instruction { opcode: OpCode::BadInstruction(value), mode: None },
            0x04 => return Instruction { opcode: OpCode::BadInstruction(value), mode: None },
            0x14 => return Instruction { opcode: OpCode::BadInstruction(value), mode: None },
            0x34 => return Instruction { opcode: OpCode::BadInstruction(value), mode: None },
            0x44 => return Instruction { opcode: OpCode::BadInstruction(value), mode: None },
            0x54 => return Instruction { opcode: OpCode::BadInstruction(value), mode: None },
            0x64 => return Instruction { opcode: OpCode::BadInstruction(value), mode: None },
            0x74 => return Instruction { opcode: OpCode::BadInstruction(value), mode: None },
            0xd4 => return Instruction { opcode: OpCode::BadInstruction(value), mode: None },
            0xf4 => return Instruction { opcode: OpCode::BadInstruction(value), mode: None },
            0x07 => return Instruction { opcode: OpCode::BadInstruction(value), mode: None },
            0x17 => return Instruction { opcode: OpCode::BadInstruction(value), mode: None },
            0x27 => return Instruction { opcode: OpCode::BadInstruction(value), mode: None },
            0x37 => return Instruction { opcode: OpCode::BadInstruction(value), mode: None },
            0x47 => return Instruction { opcode: OpCode::BadInstruction(value), mode: None },
            0x57 => return Instruction { opcode: OpCode::BadInstruction(value), mode: None },
            0x67 => return Instruction { opcode: OpCode::BadInstruction(value), mode: None },
            0x77 => return Instruction { opcode: OpCode::BadInstruction(value), mode: None },
            0x87 => return Instruction { opcode: OpCode::BadInstruction(value), mode: None },
            0x97 => return Instruction { opcode: OpCode::BadInstruction(value), mode: None },
            0xa7 => return Instruction { opcode: OpCode::BadInstruction(value), mode: None },
            0xb7 => return Instruction { opcode: OpCode::BadInstruction(value), mode: None },
            0xc7 => return Instruction { opcode: OpCode::BadInstruction(value), mode: None },
            0xd7 => return Instruction { opcode: OpCode::BadInstruction(value), mode: None },
            0xe7 => return Instruction { opcode: OpCode::BadInstruction(value), mode: None },
            0xf7 => return Instruction { opcode: OpCode::BadInstruction(value), mode: None },
            0x89 => return Instruction { opcode: OpCode::BadInstruction(value), mode: None },
            0x1a => return Instruction { opcode: OpCode::BadInstruction(value), mode: None },
            0x3a => return Instruction { opcode: OpCode::BadInstruction(value), mode: None },
            0x5a => return Instruction { opcode: OpCode::BadInstruction(value), mode: None },
            0x7a => return Instruction { opcode: OpCode::BadInstruction(value), mode: None },
            0xda => return Instruction { opcode: OpCode::BadInstruction(value), mode: None },
            0xfa => return Instruction { opcode: OpCode::BadInstruction(value), mode: None },
            0x0b => return Instruction { opcode: OpCode::BadInstruction(value), mode: None },
            0x1b => return Instruction { opcode: OpCode::BadInstruction(value), mode: None },
            0x2b => return Instruction { opcode: OpCode::BadInstruction(value), mode: None },
            0x3b => return Instruction { opcode: OpCode::BadInstruction(value), mode: None },
            0x4b => return Instruction { opcode: OpCode::BadInstruction(value), mode: None },
            0x5b => return Instruction { opcode: OpCode::BadInstruction(value), mode: None },
            0x6b => return Instruction { opcode: OpCode::BadInstruction(value), mode: None },
            0x7b => return Instruction { opcode: OpCode::BadInstruction(value), mode: None },
            0x8b => return Instruction { opcode: OpCode::BadInstruction(value), mode: None },
            0x9b => return Instruction { opcode: OpCode::BadInstruction(value), mode: None },
            0xab => return Instruction { opcode: OpCode::BadInstruction(value), mode: None },
            0xbb => return Instruction { opcode: OpCode::BadInstruction(value), mode: None },
            0xcb => return Instruction { opcode: OpCode::BadInstruction(value), mode: None },
            0xdb => return Instruction { opcode: OpCode::BadInstruction(value), mode: None },
            0xeb => return Instruction { opcode: OpCode::BadInstruction(value), mode: None },
            0xfb => return Instruction { opcode: OpCode::BadInstruction(value), mode: None },
            0x0c => return Instruction { opcode: OpCode::BadInstruction(value), mode: None },
            0x1c => return Instruction { opcode: OpCode::BadInstruction(value), mode: None },
            0x3c => return Instruction { opcode: OpCode::BadInstruction(value), mode: None },
            0x5c => return Instruction { opcode: OpCode::BadInstruction(value), mode: None },
            0x7c => return Instruction { opcode: OpCode::BadInstruction(value), mode: None },
            0x9c => return Instruction { opcode: OpCode::BadInstruction(value), mode: None },
            0xdc => return Instruction { opcode: OpCode::BadInstruction(value), mode: None },
            0xfc => return Instruction { opcode: OpCode::BadInstruction(value), mode: None },
            0x0f => return Instruction { opcode: OpCode::BadInstruction(value), mode: None },
            0x1f => return Instruction { opcode: OpCode::BadInstruction(value), mode: None },
            0x2f => return Instruction { opcode: OpCode::BadInstruction(value), mode: None },
            0x3f => return Instruction { opcode: OpCode::BadInstruction(value), mode: None },
            0x4f => return Instruction { opcode: OpCode::BadInstruction(value), mode: None },
            0x5f => return Instruction { opcode: OpCode::BadInstruction(value), mode: None },
            0x6f => return Instruction { opcode: OpCode::BadInstruction(value), mode: None },
            0x7f => return Instruction { opcode: OpCode::BadInstruction(value), mode: None },
            0x8f => return Instruction { opcode: OpCode::BadInstruction(value), mode: None },
            0x9f => return Instruction { opcode: OpCode::BadInstruction(value), mode: None },
            0xaf => return Instruction { opcode: OpCode::BadInstruction(value), mode: None },
            0xbf => return Instruction { opcode: OpCode::BadInstruction(value), mode: None },
            0xcf => return Instruction { opcode: OpCode::BadInstruction(value), mode: None },
            0xdf => return Instruction { opcode: OpCode::BadInstruction(value), mode: None },
            0xef => return Instruction { opcode: OpCode::BadInstruction(value), mode: None },
            0xff => return Instruction { opcode: OpCode::BadInstruction(value), mode: None },
            _ => (),
        }

        match group_bits {
            0b01 => {
                let instruction = match instruction_bits {
                    0b000 => OpCode::ORA,
                    0b001 => OpCode::AND,
                    0b010 => OpCode::EOR,
                    0b011 => OpCode::ADC,
                    0b100 => OpCode::STA,
                    0b101 => OpCode::LDA,
                    0b110 => OpCode::CMP,
                    0b111 => OpCode::SBC,
                    _ => return Instruction { opcode: OpCode::UnknownInstruction(value), mode: None },
                };
                let mode = match mode_bits {
                    0b000 => AddressingMode::IndirectZeroPageX,
                    0b001 => AddressingMode::DirectZeroPage,
                    0b010 => AddressingMode::Immediate,
                    0b011 => AddressingMode::DirectAbsolute,
                    0b100 => AddressingMode::IndirectZeroPageY,
                    0b101 => AddressingMode::DirectZeroPageX,
                    0b110 => AddressingMode::DirectAbsoluteY,
                    0b111 => AddressingMode::DirectAbsoluteX,
                    _ => return Instruction { opcode: OpCode::UnknownInstruction(value), mode: None },
                };
                Instruction { opcode: instruction, mode: Some(mode) }
            },
            0b10 => {
                let instruction = match instruction_bits {
                    0b000 => OpCode::ASL,
                    0b001 => OpCode::ROL,
                    0b010 => OpCode::LSR,
                    0b011 => OpCode::ROR,
                    0b100 => OpCode::STX,
                    0b101 => OpCode::LDX,
                    0b110 => OpCode::DEC,
                    0b111 => OpCode::INC,
                    _ => return Instruction { opcode: OpCode::UnknownInstruction(value), mode: None },
                };
                // STX and LDX index by Y.
                let by_y = instruction_bits == 0b100 || instruction_bits == 0b101;
                let mode = match mode_bits {
                    0b000 => AddressingMode::Immediate,
                    0b001 => AddressingMode::DirectZeroPage,
                    0b010 => AddressingMode::Accumulator,
                    0b011 => AddressingMode::DirectAbsolute,
                    0b101 => if by_y {
                        AddressingMode::DirectZeroPageY
                    } else {
                        AddressingMode::DirectZeroPageX
                    },
                    0b111 => if by_y {
                        AddressingMode::DirectAbsoluteY
                    } else {
                        AddressingMode::DirectAbsoluteX
                    },
                    _ => return Instruction { opcode: OpCode::UnknownInstruction(value), mode: None },
                };
                Instruction { opcode: instruction, mode: Some(mode) }
            },
            0b00 => {
                let instruction = match instruction_bits {
                    0b001 => OpCode::BIT,
                    0b010 => OpCode::JMP,
                    0b011 => OpCode::JMPAbsolute,
                    0b100 => OpCode::STY,
                    0b101 => OpCode::LDY,
                    0b110 => OpCode::CPY,
                    0b111 => OpCode::CPX,
                    _ => return Instruction { opcode: OpCode::UnknownInstruction(value), mode: None },
                };
                let mode = match mode_bits {
                    0b000 => AddressingMode::Immediate,
                    0b001 => AddressingMode::DirectZeroPage,
                    0b011 => AddressingMode::DirectAbsolute,
                    0b101 => AddressingMode::DirectZeroPageX,
                    0b111 => AddressingMode::DirectAbsoluteX,
                    _ => return Instruction { opcode: OpCode::UnknownInstruction(value), mode: None },
                };
                Instruction { opcode: instruction, mode: Some(mode) }
            },
            _ => Instruction { opcode: OpCode::UnknownInstruction(value), mode: None },
        }
    }
}

/// The operand that an addressing mode resolved: its effective address and
/// the byte read there.
#[derive(Debug, PartialEq, Eq, Structural, Clone, Copy)]
pub struct MemoryPair {
    pub address: u16,
    pub value: u8,
}


/// `post` is `pre` after an action with result `res` whose outcome, registers
/// and cycles are `outcome`: the log is appended, memory takes the log's
/// writes, and the run flag is left alone.
pub open spec fn performed<M: VirtualMemory>(
    pre: CPUEmulator<M>,
    post: CPUEmulator<M>,
    res: Result<(), EmulatorError>,
    outcome: (Result<(), EmulatorError>, Registers, Seq<SystemCycle>),
) -> bool {
    &&& res == outcome.0
    &&& regs(post.state) == outcome.1
    &&& post.state.cycles@ == pre.state.cycles@ + outcome.2
    &&& post.state.running == pre.state.running
    &&& forall|a: u16| #[trigger] post.memory.peek(a) == mem_after(outcome.2, mem_of(pre.memory), a)
}

/// The registers, log and memory of `post` are those of `pre` after an
/// operand fetch that moved the program counter to `pc` and read `reads`.
pub open spec fn fetched<M: VirtualMemory>(
    pre: CPUEmulator<M>,
    post: CPUEmulator<M>,
    pc: u16,
    reads: Seq<SystemCycle>,
) -> bool {
    &&& regs(post.state) == (Registers { pc, ..regs(pre.state) })
    &&& post.state.cycles@ == pre.state.cycles@ + reads
    &&& post.state.running == pre.state.running
    &&& forall|a: u16| #[trigger] post.memory.peek(a) == pre.memory.peek(a)
}

/// Immediate and relative operands: the byte at the program counter.
fn fetch_immediate<M: VirtualMemory>(emulator: &mut CPUEmulator<M>) -> (pair: MemoryPair)
    ensures
        ({
            let f = operand(
                Some(AddressingMode::Immediate),
                regs(old(emulator).state),
                mem_of(old(emulator).memory),
            );
            &&& Some(pair) == f.0
            &&& fetched(*old(emulator), *final(emulator), f.1, f.2)
        }),
{
    let ghost pre = *emulator;
    let address = emulator.state.pc;
    let value = emulator.read(address);
    emulator.state.pc = emulator.state.pc.wrapping_add(1);
    assert(emulator.state.cycles@ =~= pre.state.cycles@ + seq![read_cycle(address, value)]);
    MemoryPair { address, value }
}

/// Zero-page operands: the byte at the address that the operand byte names
/// in page zero.
fn fetch_zero_page<M: VirtualMemory>(emulator: &mut CPUEmulator<M>) -> (pair: MemoryPair)
    ensures
        ({
            let f = operand(
                Some(AddressingMode::DirectZeroPage),
                regs(old(emulator).state),
                mem_of(old(emulator).memory),
            );
            &&& Some(pair) == f.0
            &&& fetched(*old(emulator), *final(emulator), f.1, f.2)
        }),
{
    let ghost pre = *emulator;
    let pc = emulator.state.pc;
    let zero_page = emulator.read(pc);
    let address = zero_page as u16;
    emulator.state.pc = emulator.state.pc.wrapping_add(1);
    let value = emulator.read(address);
    assert(emulator.state.cycles@ =~= pre.state.cycles@ + seq![
        read_cycle(pc, zero_page),
        read_cycle(address, value),
    ]);
    MemoryPair { address, value }
}

/// Indexed zero-page operands: the operand byte plus `index`, wrapping
/// within page zero.
fn fetch_zero_page_indexed<M: VirtualMemory>(emulator: &mut CPUEmulator<M>, index: u8) -> (pair: MemoryPair)
    ensures
        ({
            let f = zero_page_operand(regs(old(emulator).state), mem_of(old(emulator).memory), index);
            &&& Some(pair) == f.0
            &&& fetched(*old(emulator), *final(emulator), f.1, f.2)
        }),
{
    let ghost pre = *emulator;
    let pc = emulator.state.pc;
    let zero_page = emulator.read(pc);
    let address = zero_page.wrapping_add(index) as u16;
    emulator.state.pc = emulator.state.pc.wrapping_add(1);
    let value = emulator.read(address);
    assert(emulator.state.cycles@ =~= pre.state.cycles@ + seq![
        read_cycle(pc, zero_page),
        read_cycle(address, value),
    ]);
    MemoryPair { address, value }
}

/// Absolute operands, plus `index`: the second byte of the instruction holds
/// the low eight bits of the effective address and the third byte the high
/// eight bits.
fn fetch_absolute<M: VirtualMemory>(emulator: &mut CPUEmulator<M>, index: u8) -> (pair: MemoryPair)
    ensures
        ({
            let f = absolute_operand(regs(old(emulator).state), mem_of(old(emulator).memory), index);
            &&& Some(pair) == f.0
            &&& fetched(*old(emulator), *final(emulator), f.1, f.2)
        }),
{
    let ghost pre = *emulator;
    let pc = emulator.state.pc;
    let low_byte = emulator.read(pc);
    emulator.state.pc = emulator.state.pc.wrapping_add(1);
    let pc1 = emulator.state.pc;
    let high_byte = emulator.read(pc1);
    emulator.state.pc = emulator.state.pc.wrapping_add(1);
    let address: u16 = (high_byte as u16) * 256 + low_byte as u16;
    let address = address.wrapping_add(index as u16);
    let value = emulator.read(address);
    assert(emulator.state.cycles@ =~= pre.state.cycles@ + seq![
        read_cycle(pc, low_byte),
        read_cycle(pc1, high_byte),
        read_cycle(address, value),
    ]);
    MemoryPair { address, value }
}

/// Indexed-indirect operands: the operand byte plus X names a page-zero
/// pointer to the effective address.
fn fetch_indirect_x<M: VirtualMemory>(emulator: &mut CPUEmulator<M>) -> (pair: MemoryPair)
    ensures
        ({
            let f = operand(
                Some(AddressingMode::IndirectZeroPageX),
                regs(old(emulator).state),
                mem_of(old(emulator).memory),
            );
            &&& Some(pair) == f.0
            &&& fetched(*old(emulator), *final(emulator), f.1, f.2)
        }),
{
    let ghost pre = *emulator;
    let pc = emulator.state.pc;
    let operand_byte = emulator.read(pc);
    let zero_page = operand_byte.wrapping_add(emulator.state.x);
    emulator.state.pc = emulator.state.pc.wrapping_add(1);
    let low_byte = emulator.read(zero_page as u16);
    let high_at = zero_page.wrapping_add(1) as u16;
    let high_byte = emulator.read(high_at);
    let address: u16 = (high_byte as u16) * 256 + low_byte as u16;
    let value = emulator.read(address);
    assert(emulator.state.cycles@ =~= pre.state.cycles@ + seq![
        read_cycle(pc, operand_byte),
        read_cycle(zero_page as u16, low_byte),
        read_cycle(high_at, high_byte),
        read_cycle(address, value),
    ]);
    MemoryPair { address, value }
}

/// Indirect-indexed operands: the operand byte points into page zero. The
/// byte there plus Y is the low byte of the effective address; the carry of
/// that sum goes into the following page-zero byte, which gives the high
/// byte.
fn fetch_indirect_y<M: VirtualMemory>(emulator: &mut CPUEmulator<M>) -> (pair: MemoryPair)
    ensures
        ({
            let f = operand(
                Some(AddressingMode::IndirectZeroPageY),
                regs(old(emulator).state),
                mem_of(old(emulator).memory),
            );
            &&& Some(pair) == f.0
            &&& fetched(*old(emulator), *final(emulator), f.1, f.2)
        }),
{
    let ghost pre = *emulator;
    let pc = emulator.state.pc;
    let next_address = emulator.read(pc);
    emulator.state.pc = emulator.state.pc.wrapping_add(1);
    let base = emulator.read(next_address as u16);
    let overflow: u8 = if base as u16 + emulator.state.y as u16 > 255 { 1 } else { 0 };
    let low_byte = base.wrapping_add(emulator.state.y);
    let high_at = next_address.wrapping_add(1) as u16;
    let base_high = emulator.read(high_at);
    let high_byte = base_high.wrapping_add(overflow);
    let address: u16 = (high_byte as u16) * 256 + low_byte as u16;
    let value = emulator.read(address);
    assert(emulator.state.cycles@ =~= pre.state.cycles@ + seq![
        read_cycle(pc, next_address),
        read_cycle(next_address as u16, base),
        read_cycle(high_at, base_high),
        read_cycle(address, value),
    ]);
    MemoryPair { address, value }
}

/// Resolves the operand of `mode` at the program counter, advancing the
/// program counter past the operand bytes and logging every read.
fn fetch_operand<M: VirtualMemory>(mode: Option<AddressingMode>, emulator: &mut CPUEmulator<M>) -> (pair:
    Option<MemoryPair>)
    ensures
        ({
            let f = operand(mode, regs(old(emulator).state), mem_of(old(emulator).memory));
            &&& pair == f.0
            &&& fetched(*old(emulator), *final(emulator), f.1, f.2)
        }),
{
    let ghost pre = *emulator;
    match mode {
        Some(AddressingMode::Immediate) | Some(AddressingMode::Relative) => Some(
            fetch_immediate(emulator),
        ),
        Some(AddressingMode::DirectZeroPage) => Some(fetch_zero_page(emulator)),
        Some(AddressingMode::DirectZeroPageX) => {
            let x = emulator.state.x;
            Some(fetch_zero_page_indexed(emulator, x))
        },
        Some(AddressingMode::DirectZeroPageY) => {
            let y = emulator.state.y;
            Some(fetch_zero_page_indexed(emulator, y))
        },
        Some(AddressingMode::DirectAbsolute) => Some(fetch_absolute(emulator, 0)),
        Some(AddressingMode::DirectAbsoluteX) => {
            let x = emulator.state.x;
            Some(fetch_absolute(emulator, x))
        },
        Some(AddressingMode::DirectAbsoluteY) => {
            let y = emulator.state.y;
            Some(fetch_absolute(emulator, y))
        },
        Some(AddressingMode::IndirectZeroPageX) => Some(fetch_indirect_x(emulator)),
        Some(AddressingMode::IndirectZeroPageY) => Some(fetch_indirect_y(emulator)),
        _ => {
            assert(emulator.state.cycles@ =~= pre.state.cycles@ + Seq::<SystemCycle>::empty());
            None
        },
    }
}

/// Sets Z and N from `value`.
fn set_zero_negative(state: &mut SystemState, value: u8)
    ensures
        regs(*final(state)) == (Registers { p: with_nz(old(state).p@, value), ..regs(*old(state)) }),
        final(state).cycles == old(state).cycles,
        final(state).running == old(state).running,
{
    state.p.set(SystemFlags::zero(), value == 0);
    state.p.set(SystemFlags::negative(), (value & 0b1000_0000) == 0b1000_0000);
}

/// Runs an instruction that takes no operand value and only changes
/// registers.
fn run_register_op(op: OpCode, state: &mut SystemState)
    requires
        is_register_op(op),
    ensures
        regs(*final(state)) == register_op(op, regs(*old(state))),
        final(state).cycles == old(state).cycles,
        final(state).running == old(state).running,
{
    match op {
        OpCode::CLC => state.p.remove(SystemFlags::carry()),
        OpCode::CLD => state.p.remove(SystemFlags::decimal()),
        OpCode::CLI => state.p.remove(SystemFlags::interrupt_disable()),
        OpCode::CLV => state.p.remove(SystemFlags::overflow()),
        OpCode::SEC => state.p.insert(SystemFlags::carry()),
        OpCode::SED => state.p.insert(SystemFlags::decimal()),
        OpCode::SEI => state.p.insert(SystemFlags::interrupt_disable()),
        OpCode::DEX => {
            state.x = state.x.wrapping_sub(1);
            let value = state.x;
            set_zero_negative(state, value);
        },
        OpCode::DEY => {
            state.y = state.y.wrapping_sub(1);
            let value = state.y;
            set_zero_negative(state, value);
        },
        OpCode::INX => {
            state.x = state.x.wrapping_add(1);
            let value = state.x;
            set_zero_negative(state, value);
        },
        OpCode::INY => {
            state.y = state.y.wrapping_add(1);
            let value = state.y;
            set_zero_negative(state, value);
        },
        OpCode::TAX => {
            let value = state.a;
            state.x = value;
            set_zero_negative(state, value);
        },
        OpCode::TAY => {
            let value = state.a;
            state.y = value;
            set_zero_negative(state, value);
        },
        OpCode::TSX => {
            let value = state.s;
            state.x = value;
            set_zero_negative(state, value);
        },
        OpCode::TXA => {
            let value = state.x;
            state.a = value;
            set_zero_negative(state, value);
        },
        OpCode::TXS => {
            state.s = state.x;
        },
        OpCode::TYA => {
            let value = state.y;
            state.a = value;
            set_zero_negative(state, value);
        },
        _ => (),
    }
}

/// Adds `argument` and the carry to the accumulator in binary.
fn add_with_carry_to(state: &mut SystemState, argument: u8)
    ensures
        regs(*final(state)) == add_with_carry(regs(*old(state)), argument),
        final(state).cycles == old(state).cycles,
        final(state).running == old(state).running,
{
    let a = state.a;
    let carry_in: u16 = if state.p.contains(SystemFlags::carry()) { 1 } else { 0 };
    let total: u16 = a as u16 + argument as u16 + carry_in;
    let sum = (total % 256) as u8;
    let a_negative = (a & 0b1000_0000) == 0b1000_0000;
    let argument_negative = (argument & 0b1000_0000) == 0b1000_0000;
    let sum_negative = (sum & 0b1000_0000) == 0b1000_0000;
    state.p.set(SystemFlags::carry(), total > 255);
    state.p.set(SystemFlags::overflow(), a_negative == argument_negative && sum_negative != a_negative);
    state.a = sum;
    set_zero_negative(state, sum);
}

/// Sets the flags of a comparison of `register` with `argument`.
fn compare(state: &mut SystemState, register: u8, argument: u8)
    ensures
        regs(*final(state)) == (Registers {
            p: compare_flags(old(state).p@, register, argument),
            ..regs(*old(state))
        }),
        final(state).cycles == old(state).cycles,
        final(state).running == old(state).running,
{
    state.p.set(SystemFlags::carry(), argument <= register);
    set_zero_negative(state, register.wrapping_sub(argument));
}

/// Runs an instruction that combines its operand's value with the registers.
fn run_value_op(op: OpCode, state: &mut SystemState, argument: u8)
    requires
        is_value_op(op),
    ensures
        regs(*final(state)) == value_op(op, regs(*old(state)), argument),
        final(state).cycles == old(state).cycles,
        final(state).running == old(state).running,
{
    match op {
        OpCode::ADC => add_with_carry_to(state, argument),
        OpCode::SBC | OpCode::USBC => add_with_carry_to(state, 255 - argument),
        OpCode::AND => {
            state.a = state.a & argument;
            let value = state.a;
            set_zero_negative(state, value);
        },
        OpCode::BIT => {
            let result = argument & state.a;
            state.p.set(SystemFlags::zero(), result == 0);
            state.p.set(SystemFlags::overflow(), (argument & 0b01000000) == 0b01000000);
            state.p.set(SystemFlags::negative(), (argument & 0b10000000) == 0b10000000);
        },
        OpCode::CMP => {
            let a = state.a;
            compare(state, a, argument);
        },
        OpCode::CPX => {
            let x = state.x;
            compare(state, x, argument);
        },
        OpCode::CPY => {
            let y = state.y;
            compare(state, y, argument);
        },
        OpCode::EOR => {
            state.a = state.a ^ argument;
            let value = state.a;
            set_zero_negative(state, value);
        },
        OpCode::LDA => {
            state.a = argument;
            set_zero_negative(state, argument);
        },
        OpCode::LDX => {
            state.x = argument;
            set_zero_negative(state, argument);
        },
        OpCode::LDY => {
            state.y = argument;
            set_zero_negative(state, argument);
        },
        OpCode::LAX => {
            state.a = argument;
            state.x = argument;
            set_zero_negative(state, argument);
        },
        OpCode::LAS => {
            let value = argument & state.s;
            state.a = value;
            state.x = value;
            state.s = value;
            set_zero_negative(state, value);
        },
        OpCode::ANC | OpCode::ANC2 => {
            let value = state.a & argument;
            state.a = value;
            set_zero_negative(state, value);
            state.p.set(SystemFlags::carry(), (value & 0b1000_0000) == 0b1000_0000);
        },
        OpCode::ALR => {
            let value = state.a & argument;
            state.a = value / 2;
            set_shift_flags(state, (value & 0b0000_0001) == 0b0000_0001, value / 2);
        },
        OpCode::ARR => {
            let value = state.a & argument;
            let out = if state.p.contains(SystemFlags::carry()) { (value / 2) | 0b1000_0000 } else { value / 2 };
            state.a = out;
            set_zero_negative(state, out);
            let bit6 = (out & 0b0100_0000) == 0b0100_0000;
            let bit5 = (out & 0b0010_0000) == 0b0010_0000;
            state.p.set(SystemFlags::carry(), bit6);
            state.p.set(SystemFlags::overflow(), bit6 != bit5);
        },
        OpCode::SBX => {
            let value = state.a & state.x;
            compare(state, value, argument);
            state.x = value.wrapping_sub(argument);
        },
        _ => {
            state.a = state.a | argument;
            let value = state.a;
            set_zero_negative(state, value);
        },
    }
}

/// Moves the program counter by the signed offset of a branch.
fn take_branch(state: &mut SystemState, offset: u8)
    ensures
        regs(*final(state)) == (Registers {
            pc: branch_target(old(state).pc, offset),
            ..regs(*old(state))
        }),
        final(state).cycles == old(state).cycles,
        final(state).running == old(state).running,
{
    // The offset byte is a two's-complement number.
    if offset < 128 {
        state.pc = state.pc.wrapping_add(offset as u16);
    } else {
        state.pc = state.pc.wrapping_sub(256 - offset as u16);
    }
}

/// `post` is `pre` with `log` appended to its cycles and the writes of `log`
/// applied to its memory; the run flag is left alone.
pub open spec fn logged<M: VirtualMemory>(pre: CPUEmulator<M>, post: CPUEmulator<M>, log: Seq<SystemCycle>) -> bool {
    &&& post.state.cycles@ == pre.state.cycles@ + log
    &&& post.state.running == pre.state.running
    &&& forall|a: u16| #[trigger] post.memory.peek(a) == mem_after(log, mem_of(pre.memory), a)
}

/// Writes `value` at `address`, logging the write.
fn store<M: VirtualMemory>(emulator: &mut CPUEmulator<M>, address: u16, value: u8)
    ensures
        regs(final(emulator).state) == regs(old(emulator).state),
        logged(*old(emulator), *final(emulator), seq![write_cycle(address, value)]),
{
    let ghost pre = *emulator;
    emulator.write(address, value);
    assert(emulator.state.cycles@ =~= pre.state.cycles@ + seq![write_cycle(address, value)]);
    assert forall|a: u16| #[trigger]
        emulator.memory.peek(a) == mem_after(seq![write_cycle(address, value)], mem_of(pre.memory), a) by {
        lemma_mem_after_one(write_cycle(address, value), mem_of(pre.memory), a);
    }
}

/// Calls the subroutine at `address`: pushes the address of the last byte
/// of the call's operand (one before the program counter), high byte first,
/// onto the stack in page one.
fn jump_to_subroutine<M: VirtualMemory>(emulator: &mut CPUEmulator<M>, address: u16)
    ensures
        ({
            let r = regs(old(emulator).state);
            let back = wrap16(r.pc - 1);
            let s1 = wrap8(r.s - 1);
            &&& regs(final(emulator).state) == (Registers { pc: address, s: wrap8(s1 - 1), ..r })
            &&& logged(
                *old(emulator),
                *final(emulator),
                seq![
                    write_cycle(stack_address(r.s), high_byte(back)),
                    write_cycle(stack_address(s1), low_byte(back)),
                ],
            )
        }),
{
    let ghost pre = *emulator;
    let back = emulator.state.pc.wrapping_sub(1);
    let low = (back % 256) as u8;
    let high = (back / 256) as u8;
    let s = emulator.state.s;
    emulator.write(0x100 + s as u16, high);
    emulator.state.s = s.wrapping_sub(1);
    let s1 = emulator.state.s;
    emulator.write(0x100 + s1 as u16, low);
    emulator.state.s = s1.wrapping_sub(1);
    emulator.state.pc = address;
    let ghost log = seq![write_cycle((0x100 + s) as u16, high), write_cycle((0x100 + s1) as u16, low)];
    assert(emulator.state.cycles@ =~= pre.state.cycles@ + log);
    assert forall|a: u16| #[trigger] emulator.memory.peek(a) == mem_after(log, mem_of(pre.memory), a) by {
        lemma_mem_after_two(log[0], log[1], mem_of(pre.memory), a);
        lemma_mem_after_one(log[0], mem_of(pre.memory), a);
    }
}

/// Runs a break: pushes the address two past the opcode, high byte first,
/// and the status register with the break bit set, sets the
/// interrupt-disable flag, and jumps through the vector at $FFFE.
fn run_break<M: VirtualMemory>(emulator: &mut CPUEmulator<M>) -> (res: Result<(), EmulatorError>)
    ensures
        performed(
            *old(emulator),
            *final(emulator),
            res,
            break_effect(regs(old(emulator).state), mem_of(old(emulator).memory)),
        ),
{
    let ghost pre = *emulator;
    let back = emulator.state.pc.wrapping_add(1);
    let low = (back % 256) as u8;
    let high = (back / 256) as u8;
    let s = emulator.state.s;
    emulator.write(0x100 + s as u16, high);
    emulator.state.s = s.wrapping_sub(1);
    let s1 = emulator.state.s;
    emulator.write(0x100 + s1 as u16, low);
    emulator.state.s = s1.wrapping_sub(1);
    let s2 = emulator.state.s;
    let flags = emulator.state.p.bits() | 0b0011_0000;
    emulator.write(0x100 + s2 as u16, flags);
    emulator.state.s = s2.wrapping_sub(1);
    emulator.state.p.insert(SystemFlags::interrupt_disable());
    let ghost writes = seq![
        write_cycle((0x100 + s) as u16, high),
        write_cycle((0x100 + s1) as u16, low),
        write_cycle((0x100 + s2) as u16, flags),
    ];
    let ghost mid = *emulator;
    proof {
        assert forall|a: u16| #[trigger] mid.memory.peek(a) == mem_after(writes, mem_of(pre.memory), a) by {
            lemma_mem_after_three(writes[0], writes[1], writes[2], mem_of(pre.memory), a);
            lemma_mem_after_two(writes[0], writes[1], mem_of(pre.memory), a);
            lemma_mem_after_one(writes[0], mem_of(pre.memory), a);
        }
        assert(mid.memory.peek(BREAK_VECTOR) == pre.memory.peek(BREAK_VECTOR));
        assert(mid.memory.peek((BREAK_VECTOR + 1) as u16) == pre.memory.peek((BREAK_VECTOR + 1) as u16));
    }
    let vector_low = emulator.read(BREAK_VECTOR);
    let vector_high = emulator.read(BREAK_VECTOR + 1);
    emulator.state.pc = (vector_high as u16) * 256 + vector_low as u16;
    proof {
        let log = break_effect(regs(pre.state), mem_of(pre.memory)).2;
        assert(log =~= writes.push(read_cycle(BREAK_VECTOR, vector_low)).push(
            read_cycle((BREAK_VECTOR + 1) as u16, vector_high),
        ));
        assert(emulator.state.cycles@ =~= pre.state.cycles@ + log);
        assert forall|a: u16| #[trigger] emulator.memory.peek(a) == mem_after(log, mem_of(pre.memory), a) by {
            lemma_mem_after_push(writes.push(read_cycle(BREAK_VECTOR, vector_low)), read_cycle((BREAK_VECTOR + 1) as u16, vector_high), mem_of(pre.memory), a);
            lemma_mem_after_push(writes, read_cycle(BREAK_VECTOR, vector_low), mem_of(pre.memory), a);
        }
    }
    Ok(())
}

/// Jumps through the pointer that the operand names: the operand's byte is
/// the target's low byte, and the high byte follows the pointer within its
/// page.
fn run_indirect_jump<M: VirtualMemory>(memory_pair: Option<MemoryPair>, emulator: &mut CPUEmulator<M>) -> (res:
    Result<(), EmulatorError>)
    ensures
        performed(
            *old(emulator),
            *final(emulator),
            res,
            indirect_jump_effect(memory_pair, regs(old(emulator).state), mem_of(old(emulator).memory)),
        ),
{
    let ghost pre = *emulator;
    match memory_pair {
        Some(mp) => {
            let pointer = mp.address;
            let high_at = (pointer / 256) * 256 + (pointer % 256 + 1) % 256;
            assert(high_at == pointer_next(pointer)) by {
                assert((pointer % 256 + 1) % 256 == (pointer + 1) % 256);
            }
            let high = emulator.read(high_at);
            emulator.state.pc = (high as u16) * 256 + mp.value as u16;
            proof {
                let log = seq![read_cycle(high_at, high)];
                assert(emulator.state.cycles@ =~= pre.state.cycles@ + log);
                assert forall|a: u16| #[trigger] emulator.memory.peek(a) == mem_after(log, mem_of(pre.memory), a) by {
                    lemma_mem_after_one(log[0], mem_of(pre.memory), a);
                }
            }
            Ok(())
        },
        None => {
            assert(pre.state.cycles@ + Seq::<SystemCycle>::empty() =~= pre.state.cycles@);
            Err(EmulatorError::ExpectedMemoryPair)
        },
    }
}

/// Stores a register at the operand's address.
fn run_store<M: VirtualMemory>(
    op: OpCode,
    mode: Option<AddressingMode>,
    memory_pair: Option<MemoryPair>,
    emulator: &mut CPUEmulator<M>,
) -> (res: Result<(), EmulatorError>)
    requires
        op == OpCode::STA || op == OpCode::STX || op == OpCode::STY || op == OpCode::SAX,
    ensures
        performed(
            *old(emulator),
            *final(emulator),
            res,
            store_effect(op, memory_pair, regs(old(emulator).state)),
        ),
{
    let ghost pre = *emulator;
    match memory_pair {
        Some(mp) => {
            let value = match op {
                OpCode::STA => emulator.state.a,
                OpCode::STX => emulator.state.x,
                OpCode::STY => emulator.state.y,
                _ => emulator.state.a & emulator.state.x,
            };
            store(emulator, mp.address, value);
            Ok(())
        },
        None => {
            assert(pre.state.cycles@ + Seq::<SystemCycle>::empty() =~= pre.state.cycles@);
            Err(EmulatorError::ExpectedMemoryPair)
        },
    }
}

/// Decrements or increments the byte at the operand's address.
fn run_step_memory<M: VirtualMemory>(
    op: OpCode,
    mode: Option<AddressingMode>,
    memory_pair: Option<MemoryPair>,
    emulator: &mut CPUEmulator<M>,
) -> (res: Result<(), EmulatorError>)
    requires
        op == OpCode::DEC || op == OpCode::INC,
    ensures
        performed(
            *old(emulator),
            *final(emulator),
            res,
            step_effect(op, memory_pair, regs(old(emulator).state)),
        ),
{
    let ghost pre = *emulator;
    match memory_pair {
        Some(mp) => {
            let value = match op {
                OpCode::DEC => mp.value.wrapping_sub(1),
                _ => mp.value.wrapping_add(1),
            };
            let ghost outcome = step_effect(op, memory_pair, regs(pre.state));
            assert(outcome.2 == seq![write_cycle(mp.address, value)]);
            store(emulator, mp.address, value);
            let ghost mid = *emulator;
            emulator.state.p.set(SystemFlags::zero(), value == 0);
            emulator.state.p.set(SystemFlags::negative(), (value & 0b10000000) == 0b10000000);
            assert(logged(mid, *emulator, seq![]));
            assert(regs(emulator.state) == outcome.1);
            Ok(())
        },
        None => {
            assert(pre.state.cycles@ + Seq::<SystemCycle>::empty() =~= pre.state.cycles@);
            Err(EmulatorError::ExpectedMemoryPair)
        },
    }
}

/// Jumps to the operand's address; a subroutine call first pushes its
/// return address.
fn run_jump<M: VirtualMemory>(
    op: OpCode,
    memory_pair: Option<MemoryPair>,
    emulator: &mut CPUEmulator<M>,
) -> (res: Result<(), EmulatorError>)
    requires
        op == OpCode::JMP || op == OpCode::JSR,
    ensures
        performed(
            *old(emulator),
            *final(emulator),
            res,
            jump_effect(op, memory_pair, regs(old(emulator).state)),
        ),
{
    let ghost pre = *emulator;
    match memory_pair {
        Some(mp) => {
            match op {
                OpCode::JMP => {
                    emulator.state.pc = mp.address;
                    assert(pre.state.cycles@ + Seq::<SystemCycle>::empty() =~= pre.state.cycles@);
                },
                _ => jump_to_subroutine(emulator, mp.address),
            }
            Ok(())
        },
        None => {
            assert(pre.state.cycles@ + Seq::<SystemCycle>::empty() =~= pre.state.cycles@);
            Err(EmulatorError::ExpectedMemoryPair)
        },
    }
}

/// Where a shift or rotate takes its input: the accumulator, or the
/// operand's byte together with its address.
fn shift_source<M: VirtualMemory>(
    mode: Option<AddressingMode>,
    memory_pair: Option<MemoryPair>,
    emulator: &CPUEmulator<M>,
) -> (r: Option<(u8, Option<u16>)>)
    ensures
        mode == Some(AddressingMode::Accumulator) ==> r == Some((emulator.state.a, None::<u16>)),
        mode != Some(AddressingMode::Accumulator) ==> r == match memory_pair {
            Some(mp) => Some((mp.value, Some(mp.address))),
            None => None,
        },
{
    match mode {
        Some(AddressingMode::Accumulator) => Some((emulator.state.a, None)),
        _ => match memory_pair {
            Some(mp) => Some((mp.value, Some(mp.address))),
            None => None,
        },
    }
}

/// Puts the result of a shift or rotate back where its input came from.
fn shift_result<M: VirtualMemory>(emulator: &mut CPUEmulator<M>, target: Option<u16>, output: u8)
    ensures
        target is None ==> regs(final(emulator).state) == (Registers { a: output, ..regs(old(emulator).state) })
            && logged(*old(emulator), *final(emulator), seq![]),
        target matches Some(address) ==> regs(final(emulator).state) == regs(old(emulator).state)
            && logged(*old(emulator), *final(emulator), seq![write_cycle(address, output)]),
{
    let ghost pre = *emulator;
    match target {
        None => {
            emulator.state.a = output;
            assert(pre.state.cycles@ + Seq::<SystemCycle>::empty() =~= pre.state.cycles@);
        },
        Some(address) => store(emulator, address, output),
    }
}

/// Sets C to the bit shifted out and Z and N from the result.
fn set_shift_flags(state: &mut SystemState, carry: bool, output: u8)
    ensures
        regs(*final(state)) == (Registers {
            p: shift_flags(old(state).p@, carry, output),
            ..regs(*old(state))
        }),
        final(state).cycles == old(state).cycles,
        final(state).running == old(state).running,
{
    state.p.set(SystemFlags::carry(), carry);
    set_zero_negative(state, output);
}

/// Shifts or rotates the accumulator or the operand's byte by one bit. A
/// rotate takes the carry in at the end that the shift empties; the bit
/// shifted out goes to the carry.
fn run_shift<M: VirtualMemory>(
    op: OpCode,
    mode: Option<AddressingMode>,
    memory_pair: Option<MemoryPair>,
    emulator: &mut CPUEmulator<M>,
) -> (res: Result<(), EmulatorError>)
    requires
        op == OpCode::ASL || op == OpCode::LSR || op == OpCode::ROL || op == OpCode::ROR,
    ensures
        performed(
            *old(emulator),
            *final(emulator),
            res,
            effect(op, mode, memory_pair, regs(old(emulator).state), mem_of(old(emulator).memory)),
        ),
{
    let ghost pre = *emulator;
    let (input, target) = match shift_source(mode, memory_pair, emulator) {
        Some(source) => source,
        None => {
            assert(pre.state.cycles@ + Seq::<SystemCycle>::empty() =~= pre.state.cycles@);
            return Err(EmulatorError::ExpectedMemoryPair);
        },
    };
    let carry_in = emulator.state.p.contains(SystemFlags::carry());
    let (output, carry_out): (u8, bool) = match op {
        OpCode::ASL => (((input as u16 * 2) % 256) as u8, (input & 0b1000_0000) == 0b1000_0000),
        OpCode::LSR => (input / 2, (input & 0b0000_0001) == 0b0000_0001),
        OpCode::ROL => {
            let shifted: u16 = if carry_in { input as u16 * 2 + 1 } else { input as u16 * 2 };
            ((shifted % 256) as u8, (input & 0b1000_0000) == 0b1000_0000)
        },
        _ => {
            let shifted = if carry_in { (input / 2) | 0b1000_0000 } else { input / 2 };
            (shifted, (input & 0b0000_0001) == 0b0000_0001)
        },
    };
    shift_result(emulator, target, output);
    set_shift_flags(&mut emulator.state, carry_out, output);
    Ok(())
}

/// Runs a combined read-modify-write: rewrites the operand's byte by a
/// shift, rotate, increment or decrement, then applies the follow-up
/// operation to the byte written.
fn run_combined<M: VirtualMemory>(
    op: OpCode,
    memory_pair: Option<MemoryPair>,
    emulator: &mut CPUEmulator<M>,
) -> (res: Result<(), EmulatorError>)
    requires
        is_combined_op(op),
    ensures
        performed(*old(emulator), *final(emulator), res, combined_effect(op, memory_pair, regs(old(emulator).state))),
{
    let ghost pre = *emulator;
    match memory_pair {
        Some(mp) => {
            let v = mp.value;
            let carry_in = emulator.state.p.contains(SystemFlags::carry());
            let out: u8 = match op {
                OpCode::SLO => ((v as u16 * 2) % 256) as u8,
                OpCode::RLA => {
                    let shifted: u16 = if carry_in { v as u16 * 2 + 1 } else { v as u16 * 2 };
                    (shifted % 256) as u8
                },
                OpCode::SRE => v / 2,
                OpCode::RRA => if carry_in { (v / 2) | 0b1000_0000 } else { v / 2 },
                OpCode::DCP => v.wrapping_sub(1),
                _ => v.wrapping_add(1),
            };
            store(emulator, mp.address, out);
            let ghost stored = *emulator;
            match op {
                OpCode::SLO | OpCode::RLA => {
                    set_shift_flags(&mut emulator.state, (v & 0b1000_0000) == 0b1000_0000, out)
                },
                OpCode::SRE | OpCode::RRA => {
                    set_shift_flags(&mut emulator.state, (v & 0b0000_0001) == 0b0000_0001, out)
                },
                _ => set_zero_negative(&mut emulator.state, out),
            }
            assert(regs(emulator.state) == modify(op, v, regs(pre.state)).1);
            assert(out == modify(op, v, regs(pre.state)).0);
            let second = match op {
                OpCode::SLO => OpCode::ORA,
                OpCode::RLA => OpCode::AND,
                OpCode::SRE => OpCode::EOR,
                OpCode::RRA => OpCode::ADC,
                OpCode::DCP => OpCode::CMP,
                _ => OpCode::SBC,
            };
            run_value_op(second, &mut emulator.state, out);
            assert(logged(stored, *emulator, seq![])) by {
                assert(stored.state.cycles@ + Seq::<SystemCycle>::empty() =~= stored.state.cycles@);
            }
            Ok(())
        },
        None => {
            assert(pre.state.cycles@ + Seq::<SystemCycle>::empty() =~= pre.state.cycles@);
            Err(EmulatorError::ExpectedMemoryPair)
        },
    }
}

/// Pushes the accumulator or the status register onto the stack; the status
/// register goes with its break and expansion bits set.
fn run_push<M: VirtualMemory>(
    op: OpCode,
    emulator: &mut CPUEmulator<M>,
) -> (res: Result<(), EmulatorError>)
    requires
        op == OpCode::PHA || op == OpCode::PHP,
    ensures
        performed(
            *old(emulator),
            *final(emulator),
            res,
            push_effect(op, regs(old(emulator).state)),
        ),
{
    let s = emulator.state.s;
    let value = match op {
        OpCode::PHA => emulator.state.a,
        _ => emulator.state.p.bits() | 0b0011_0000,
    };
    store(emulator, 0x100 + s as u16, value);
    emulator.state.s = s.wrapping_sub(1);
    Ok(())
}

/// Pulls one byte from the stack, logging the read.
fn pull<M: VirtualMemory>(emulator: &mut CPUEmulator<M>) -> (value: u8)
    ensures
        ({
            let r = regs(old(emulator).state);
            let s1 = wrap8(r.s + 1);
            &&& value == old(emulator).memory.peek(stack_address(s1))
            &&& regs(final(emulator).state) == (Registers { s: s1, ..r })
            &&& final(emulator).state.cycles@ == old(emulator).state.cycles@.push(
                read_cycle(stack_address(s1), value),
            )
            &&& final(emulator).state.running == old(emulator).state.running
            &&& forall|a: u16| #[trigger] final(emulator).memory.peek(a) == old(emulator).memory.peek(a)
        }),
{
    emulator.state.s = emulator.state.s.wrapping_add(1);
    let s = emulator.state.s;
    emulator.read(0x100 + s as u16)
}

/// The status register after pulling `value` over `p`: the flags come from
/// `value`, the break and expansion bits stay as they were.
fn pulled_flags(p: SystemFlags, value: u8) -> (f: SystemFlags)
    ensures
        f@ == pulled_status(p@, value),
{
    SystemFlags::from_bits_retain((value & 0b1100_1111) | (p.bits() & 0b0011_0000))
}

/// Pulls the accumulator, setting Z and N, or the status register from the
/// stack.
fn run_pull<M: VirtualMemory>(
    op: OpCode,
    emulator: &mut CPUEmulator<M>,
) -> (res: Result<(), EmulatorError>)
    requires
        op == OpCode::PLA || op == OpCode::PLP,
    ensures
        performed(
            *old(emulator),
            *final(emulator),
            res,
            pull_effect(op, regs(old(emulator).state), mem_of(old(emulator).memory)),
        ),
{
    let ghost pre = *emulator;
    let value = pull(emulator);
    match op {
        OpCode::PLA => {
            emulator.state.a = value;
            set_zero_negative(&mut emulator.state, value);
        },
        _ => emulator.state.p = pulled_flags(emulator.state.p, value),
    }
    proof {
        let log = pull_effect(op, regs(pre.state), mem_of(pre.memory)).2;
        assert(emulator.state.cycles@ =~= pre.state.cycles@ + log);
        assert forall|a: u16| #[trigger] emulator.memory.peek(a) == mem_after(log, mem_of(pre.memory), a) by {
            lemma_mem_after_one(log[0], mem_of(pre.memory), a);
        }
    }
    Ok(())
}

/// Returns from an interrupt (pulling the status register, then the program
/// counter) or from a subroutine (pulling the program counter, then moving
/// one past it).
fn run_return<M: VirtualMemory>(
    op: OpCode,
    emulator: &mut CPUEmulator<M>,
) -> (res: Result<(), EmulatorError>)
    requires
        op == OpCode::RTI || op == OpCode::RTS,
    ensures
        performed(
            *old(emulator),
            *final(emulator),
            res,
            return_effect(op, regs(old(emulator).state), mem_of(old(emulator).memory)),
        ),
{
    let ghost pre = *emulator;
    match op {
        OpCode::RTI => {
            let r1 = pull(emulator);
            let r2 = pull(emulator);
            let r3 = pull(emulator);
            emulator.state.p = pulled_flags(emulator.state.p, r1);
            emulator.state.pc = (r3 as u16) * 256 + r2 as u16;
        },
        _ => {
            let r1 = pull(emulator);
            let r2 = pull(emulator);
            let back: u16 = (r2 as u16) * 256 + r1 as u16;
            emulator.state.pc = back.wrapping_add(1);
        },
    }
    proof {
        let log = return_effect(op, regs(pre.state), mem_of(pre.memory)).2;
        assert(emulator.state.cycles@ =~= pre.state.cycles@ + log);
        assert(only_reads(log));
        assert forall|a: u16| #[trigger] emulator.memory.peek(a) == mem_after(log, mem_of(pre.memory), a) by {
            lemma_mem_after_reads(log, mem_of(pre.memory), a);
        }
    }
    Ok(())
}

impl Instruction {
    /// Carries out the instruction on `emulator`, whose program counter
    /// points just past the opcode byte: fetches the operand, then applies
    /// the operation. Every byte read or written is logged as a bus cycle.
    pub fn execute<M: VirtualMemory>(&self, emulator: &mut CPUEmulator<M>) -> (res: Result<
        (),
        EmulatorError,
    >)
        ensures
            performed(
                *old(emulator),
                *final(emulator),
                res,
                step(*self, regs(old(emulator).state), mem_of(old(emulator).memory)),
            ),
    {
        let ghost start = *emulator;
        reveal(step);
        let memory_pair = fetch_operand(self.mode, emulator);
        let ghost mid = *emulator;
        let res = self.apply(memory_pair, emulator);
        proof {
            let fetched = operand(self.mode, regs(start.state), mem_of(start.memory));
            assert(mem_of(mid.memory) =~= mem_of(start.memory));
            let done = effect(self.opcode, self.mode, fetched.0, regs(mid.state), mem_of(start.memory));
            lemma_operand_only_reads(self.mode, regs(start.state), mem_of(start.memory));
            assert(emulator.state.cycles@ =~= start.state.cycles@ + (fetched.2 + done.2));
            assert forall|a: u16| #[trigger]
                emulator.memory.peek(a) == mem_after(fetched.2 + done.2, mem_of(start.memory), a) by {
                lemma_mem_after_read_prefix(fetched.2, done.2, mem_of(start.memory), a);
            }
        }
        res
    }

    /// Applies the operation to an operand already fetched.
    fn apply<M: VirtualMemory>(&self, memory_pair: Option<MemoryPair>, emulator: &mut CPUEmulator<M>) -> (res:
        Result<(), EmulatorError>)
        ensures
            performed(
                *old(emulator),
                *final(emulator),
                res,
                effect(
                    self.opcode,
                    self.mode,
                    memory_pair,
                    regs(old(emulator).state),
                    mem_of(old(emulator).memory),
                ),
            ),
    {
        let ghost pre = *emulator;
        let op = self.opcode;
        let res = match op {
            OpCode::CLC | OpCode::CLD | OpCode::CLI | OpCode::CLV | OpCode::SEC | OpCode::SED
            | OpCode::SEI | OpCode::DEX | OpCode::DEY | OpCode::INX | OpCode::INY | OpCode::TAX
            | OpCode::TAY | OpCode::TSX | OpCode::TXA | OpCode::TXS | OpCode::TYA | OpCode::NOP
            | OpCode::INOP => {
                run_register_op(op, &mut emulator.state);
                Ok(())
            },
            OpCode::ADC | OpCode::AND | OpCode::BIT | OpCode::CMP | OpCode::CPX | OpCode::CPY
            | OpCode::EOR | OpCode::LDA | OpCode::LDX | OpCode::LDY | OpCode::ORA | OpCode::SBC
            | OpCode::USBC | OpCode::LAX | OpCode::LAS | OpCode::ANC | OpCode::ANC2 | OpCode::ALR
            | OpCode::ARR | OpCode::SBX => {
                match memory_pair {
                    Some(mp) => {
                        run_value_op(op, &mut emulator.state, mp.value);
                        Ok(())
                    },
                    None => Err(EmulatorError::ExpectedMemoryPair),
                }
            },
            OpCode::BCC | OpCode::BCS | OpCode::BEQ | OpCode::BMI | OpCode::BNE | OpCode::BPL
            | OpCode::BVC | OpCode::BVS => {
                let taken = match op {
                    OpCode::BCC => !emulator.state.p.contains(SystemFlags::carry()),
                    OpCode::BCS => emulator.state.p.contains(SystemFlags::carry()),
                    OpCode::BEQ => emulator.state.p.contains(SystemFlags::zero()),
                    OpCode::BMI => emulator.state.p.contains(SystemFlags::negative()),
                    OpCode::BNE => !emulator.state.p.contains(SystemFlags::zero()),
                    OpCode::BPL => !emulator.state.p.contains(SystemFlags::negative()),
                    OpCode::BVC => !emulator.state.p.contains(SystemFlags::overflow()),
                    _ => emulator.state.p.contains(SystemFlags::overflow()),
                };
                if taken {
                    match memory_pair {
                        Some(mp) => {
                            take_branch(&mut emulator.state, mp.value);
                            Ok(())
                        },
                        None => Err(EmulatorError::ExpectedMemoryPair),
                    }
                } else {
                    Ok(())
                }
            },
            OpCode::STA | OpCode::STX | OpCode::STY | OpCode::SAX => {
                return run_store(op, self.mode, memory_pair, emulator);
            },
            OpCode::SLO | OpCode::RLA | OpCode::SRE | OpCode::RRA | OpCode::DCP | OpCode::ISC => {
                return run_combined(op, memory_pair, emulator);
            },
            OpCode::DEC | OpCode::INC => {
                return run_step_memory(op, self.mode, memory_pair, emulator);
            },
            OpCode::JMP | OpCode::JSR => {
                return run_jump(op, memory_pair, emulator);
            },
            OpCode::JMPAbsolute => {
                return run_indirect_jump(memory_pair, emulator);
            },
            OpCode::BRK => {
                return run_break(emulator);
            },
            OpCode::ASL | OpCode::LSR | OpCode::ROL | OpCode::ROR => {
                return run_shift(op, self.mode, memory_pair, emulator);
            },
            OpCode::PHA | OpCode::PHP => {
                return run_push(op, emulator);
            },
            OpCode::PLA | OpCode::PLP => {
                return run_pull(op, emulator);
            },
            OpCode::RTI | OpCode::RTS => {
                return run_return(op, emulator);
            },
            _ => Err(EmulatorError::UnimplementedInstruction),
        };
        assert(pre.state.cycles@ + Seq::<SystemCycle>::empty() =~= pre.state.cycles@);
        res
    }
}

} // verus!
