//! The dispatch table: instruction, addressing mode and base cycles of each
//! of the 256 opcode bytes. Undocumented slots decode to `XXX`.
use crate::cpu::addressing::AddressingMode;
use crate::cpu::instruction::{Instruction, NumOfCycles};
use vstd::prelude::*;

verus! {

#[derive(Clone, Copy, Debug, PartialEq, Eq, Structural)]
pub struct OpCode {
    pub inst: Instruction,
    pub mode: AddressingMode,
    pub cycle: NumOfCycles,
}

impl OpCode {
    pub fn new(inst: Instruction, mode: AddressingMode, cycle: NumOfCycles) -> (r: OpCode)
        ensures
            r == (OpCode { inst, mode, cycle }),
    {
        OpCode { inst, mode, cycle }
    }
}

/// Row 0x0_ of the table, by low nibble.
pub open spec fn opcode_row_0(lo: u8) -> OpCode {
    match lo {
        0u8 => OpCode { inst: Instruction::BRK, mode: AddressingMode::IMM, cycle: 7 },
        1u8 => OpCode { inst: Instruction::ORA, mode: AddressingMode::IZX, cycle: 6 },
        2u8 => OpCode { inst: Instruction::XXX, mode: AddressingMode::IMP, cycle: 2 },
        3u8 => OpCode { inst: Instruction::XXX, mode: AddressingMode::IMP, cycle: 8 },
        4u8 => OpCode { inst: Instruction::NOP, mode: AddressingMode::IMP, cycle: 3 },
        5u8 => OpCode { inst: Instruction::ORA, mode: AddressingMode::ZP0, cycle: 3 },
        6u8 => OpCode { inst: Instruction::ASL, mode: AddressingMode::ZP0, cycle: 5 },
        7u8 => OpCode { inst: Instruction::XXX, mode: AddressingMode::IMP, cycle: 5 },
        8u8 => OpCode { inst: Instruction::PHP, mode: AddressingMode::IMP, cycle: 3 },
        9u8 => OpCode { inst: Instruction::ORA, mode: AddressingMode::IMM, cycle: 2 },
        10u8 => OpCode { inst: Instruction::ASL, mode: AddressingMode::ACC, cycle: 2 },
        11u8 => OpCode { inst: Instruction::XXX, mode: AddressingMode::IMP, cycle: 2 },
        12u8 => OpCode { inst: Instruction::NOP, mode: AddressingMode::IMP, cycle: 4 },
        13u8 => OpCode { inst: Instruction::ORA, mode: AddressingMode::ABS, cycle: 4 },
        14u8 => OpCode { inst: Instruction::ASL, mode: AddressingMode::ABS, cycle: 6 },
        _ => OpCode { inst: Instruction::XXX, mode: AddressingMode::IMP, cycle: 6 },
    }
}

/// Row 0x1_ of the table, by low nibble.
pub open spec fn opcode_row_1(lo: u8) -> OpCode {
    match lo {
        0u8 => OpCode { inst: Instruction::BPL, mode: AddressingMode::REL, cycle: 2 },
        1u8 => OpCode { inst: Instruction::ORA, mode: AddressingMode::IZY, cycle: 5 },
        2u8 => OpCode { inst: Instruction::XXX, mode: AddressingMode::IMP, cycle: 2 },
        3u8 => OpCode { inst: Instruction::XXX, mode: AddressingMode::IMP, cycle: 8 },
        4u8 => OpCode { inst: Instruction::NOP, mode: AddressingMode::IMP, cycle: 4 },
        5u8 => OpCode { inst: Instruction::ORA, mode: AddressingMode::ZPX, cycle: 4 },
        6u8 => OpCode { inst: Instruction::ASL, mode: AddressingMode::ZPX, cycle: 6 },
        7u8 => OpCode { inst: Instruction::XXX, mode: AddressingMode::IMP, cycle: 6 },
        8u8 => OpCode { inst: Instruction::CLC, mode: AddressingMode::IMP, cycle: 2 },
        9u8 => OpCode { inst: Instruction::ORA, mode: AddressingMode::ABY, cycle: 4 },
        10u8 => OpCode { inst: Instruction::NOP, mode: AddressingMode::IMP, cycle: 2 },
        11u8 => OpCode { inst: Instruction::XXX, mode: AddressingMode::IMP, cycle: 7 },
        12u8 => OpCode { inst: Instruction::NOP, mode: AddressingMode::IMP, cycle: 4 },
        13u8 => OpCode { inst: Instruction::ORA, mode: AddressingMode::ABX, cycle: 4 },
        14u8 => OpCode { inst: Instruction::ASL, mode: AddressingMode::ABX, cycle: 7 },
        _ => OpCode { inst: Instruction::XXX, mode: AddressingMode::IMP, cycle: 7 },
    }
}

/// Row 0x2_ of the table, by low nibble.
pub open spec fn opcode_row_2(lo: u8) -> OpCode {
    match lo {
        0u8 => OpCode { inst: Instruction::JSR, mode: AddressingMode::ABS, cycle: 6 },
        1u8 => OpCode { inst: Instruction::AND, mode: AddressingMode::IZX, cycle: 6 },
        2u8 => OpCode { inst: Instruction::XXX, mode: AddressingMode::IMP, cycle: 2 },
        3u8 => OpCode { inst: Instruction::XXX, mode: AddressingMode::IMP, cycle: 8 },
        4u8 => OpCode { inst: Instruction::BIT, mode: AddressingMode::ZP0, cycle: 3 },
        5u8 => OpCode { inst: Instruction::AND, mode: AddressingMode::ZP0, cycle: 3 },
        6u8 => OpCode { inst: Instruction::ROL, mode: AddressingMode::ZP0, cycle: 5 },
        7u8 => OpCode { inst: Instruction::XXX, mode: AddressingMode::IMP, cycle: 5 },
        8u8 => OpCode { inst: Instruction::PLP, mode: AddressingMode::IMP, cycle: 4 },
        9u8 => OpCode { inst: Instruction::AND, mode: AddressingMode::IMM, cycle: 2 },
        10u8 => OpCode { inst: Instruction::ROL, mode: AddressingMode::ACC, cycle: 2 },
        11u8 => OpCode { inst: Instruction::XXX, mode: AddressingMode::IMP, cycle: 2 },
        12u8 => OpCode { inst: Instruction::BIT, mode: AddressingMode::ABS, cycle: 4 },
        13u8 => OpCode { inst: Instruction::AND, mode: AddressingMode::ABS, cycle: 4 },
        14u8 => OpCode { inst: Instruction::ROL, mode: AddressingMode::ABS, cycle: 6 },
        _ => OpCode { inst: Instruction::XXX, mode: AddressingMode::IMP, cycle: 6 },
    }
}

/// Row 0x3_ of the table, by low nibble.
pub open spec fn opcode_row_3(lo: u8) -> OpCode {
    match lo {
        0u8 => OpCode { inst: Instruction::BMI, mode: AddressingMode::REL, cycle: 2 },
        1u8 => OpCode { inst: Instruction::AND, mode: AddressingMode::IZY, cycle: 5 },
        2u8 => OpCode { inst: Instruction::XXX, mode: AddressingMode::IMP, cycle: 2 },
        3u8 => OpCode { inst: Instruction::XXX, mode: AddressingMode::IMP, cycle: 8 },
        4u8 => OpCode { inst: Instruction::NOP, mode: AddressingMode::IMP, cycle: 4 },
        5u8 => OpCode { inst: Instruction::AND, mode: AddressingMode::ZPX, cycle: 4 },
        6u8 => OpCode { inst: Instruction::ROL, mode: AddressingMode::ZPX, cycle: 6 },
        7u8 => OpCode { inst: Instruction::XXX, mode: AddressingMode::IMP, cycle: 6 },
        8u8 => OpCode { inst: Instruction::SEC, mode: AddressingMode::IMP, cycle: 2 },
        9u8 => OpCode { inst: Instruction::AND, mode: AddressingMode::ABY, cycle: 4 },
        10u8 => OpCode { inst: Instruction::NOP, mode: AddressingMode::IMP, cycle: 2 },
        11u8 => OpCode { inst: Instruction::XXX, mode: AddressingMode::IMP, cycle: 7 },
        12u8 => OpCode { inst: Instruction::NOP, mode: AddressingMode::IMP, cycle: 4 },
        13u8 => OpCode { inst: Instruction::AND, mode: AddressingMode::ABX, cycle: 4 },
        14u8 => OpCode { inst: Instruction::ROL, mode: AddressingMode::ABX, cycle: 7 },
        _ => OpCode { inst: Instruction::XXX, mode: AddressingMode::IMP, cycle: 7 },
    }
}

/// Row 0x4_ of the table, by low nibble.
pub open spec fn opcode_row_4(lo: u8) -> OpCode {
    match lo {
        0u8 => OpCode { inst: Instruction::RTI, mode: AddressingMode::IMP, cycle: 6 },
        1u8 => OpCode { inst: Instruction::EOR, mode: AddressingMode::IZX, cycle: 6 },
        2u8 => OpCode { inst: Instruction::XXX, mode: AddressingMode::IMP, cycle: 2 },
        3u8 => OpCode { inst: Instruction::XXX, mode: AddressingMode::IMP, cycle: 8 },
        4u8 => OpCode { inst: Instruction::NOP, mode: AddressingMode::IMP, cycle: 3 },
        5u8 => OpCode { inst: Instruction::EOR, mode: AddressingMode::ZP0, cycle: 3 },
        6u8 => OpCode { inst: Instruction::LSR, mode: AddressingMode::ZP0, cycle: 5 },
        7u8 => OpCode { inst: Instruction::XXX, mode: AddressingMode::IMP, cycle: 5 },
        8u8 => OpCode { inst: Instruction::PHA, mode: AddressingMode::IMP, cycle: 3 },
        9u8 => OpCode { inst: Instruction::EOR, mode: AddressingMode::IMM, cycle: 2 },
        10u8 => OpCode { inst: Instruction::LSR, mode: AddressingMode::ACC, cycle: 2 },
        11u8 => OpCode { inst: Instruction::XXX, mode: AddressingMode::IMP, cycle: 2 },
        12u8 => OpCode { inst: Instruction::JMP, mode: AddressingMode::ABS, cycle: 3 },
        13u8 => OpCode { inst: Instruction::EOR, mode: AddressingMode::ABS, cycle: 4 },
        14u8 => OpCode { inst: Instruction::LSR, mode: AddressingMode::ABS, cycle: 6 },
        _ => OpCode { inst: Instruction::XXX, mode: AddressingMode::IMP, cycle: 6 },
    }
}

/// Row 0x5_ of the table, by low nibble.
pub open spec fn opcode_row_5(lo: u8) -> OpCode {
    match lo {
        0u8 => OpCode { inst: Instruction::BVC, mode: AddressingMode::REL, cycle: 2 },
        1u8 => OpCode { inst: Instruction::EOR, mode: AddressingMode::IZY, cycle: 5 },
        2u8 => OpCode { inst: Instruction::XXX, mode: AddressingMode::IMP, cycle: 2 },
        3u8 => OpCode { inst: Instruction::XXX, mode: AddressingMode::IMP, cycle: 8 },
        4u8 => OpCode { inst: Instruction::NOP, mode: AddressingMode::IMP, cycle: 4 },
        5u8 => OpCode { inst: Instruction::EOR, mode: AddressingMode::ZPX, cycle: 4 },
        6u8 => OpCode { inst: Instruction::LSR, mode: AddressingMode::ZPX, cycle: 6 },
        7u8 => OpCode { inst: Instruction::XXX, mode: AddressingMode::IMP, cycle: 6 },
        8u8 => OpCode { inst: Instruction::CLI, mode: AddressingMode::IMP, cycle: 2 },
        9u8 => OpCode { inst: Instruction::EOR, mode: AddressingMode::ABY, cycle: 4 },
        10u8 => OpCode { inst: Instruction::NOP, mode: AddressingMode::IMP, cycle: 2 },
        11u8 => OpCode { inst: Instruction::XXX, mode: AddressingMode::IMP, cycle: 7 },
        12u8 => OpCode { inst: Instruction::NOP, mode: AddressingMode::IMP, cycle: 4 },
        13u8 => OpCode { inst: Instruction::EOR, mode: AddressingMode::ABX, cycle: 4 },
        14u8 => OpCode { inst: Instruction::LSR, mode: AddressingMode::ABX, cycle: 7 },
        _ => OpCode { inst: Instruction::XXX, mode: AddressingMode::IMP, cycle: 7 },
    }
}

/// Row 0x6_ of the table, by low nibble.
pub open spec fn opcode_row_6(lo: u8) -> OpCode {
    match lo {
        0u8 => OpCode { inst: Instruction::RTS, mode: AddressingMode::IMP, cycle: 6 },
        1u8 => OpCode { inst: Instruction::ADC, mode: AddressingMode::IZX, cycle: 6 },
        2u8 => OpCode { inst: Instruction::XXX, mode: AddressingMode::IMP, cycle: 2 },
        3u8 => OpCode { inst: Instruction::XXX, mode: AddressingMode::IMP, cycle: 8 },
        4u8 => OpCode { inst: Instruction::NOP, mode: AddressingMode::IMP, cycle: 3 },
        5u8 => OpCode { inst: Instruction::ADC, mode: AddressingMode::ZP0, cycle: 3 },
        6u8 => OpCode { inst: Instruction::ROR, mode: AddressingMode::ZP0, cycle: 5 },
        7u8 => OpCode { inst: Instruction::XXX, mode: AddressingMode::IMP, cycle: 5 },
        8u8 => OpCode { inst: Instruction::PLA, mode: AddressingMode::IMP, cycle: 4 },
        9u8 => OpCode { inst: Instruction::ADC, mode: AddressingMode::IMM, cycle: 2 },
        10u8 => OpCode { inst: Instruction::ROR, mode: AddressingMode::ACC, cycle: 2 },
        11u8 => OpCode { inst: Instruction::XXX, mode: AddressingMode::IMP, cycle: 2 },
        12u8 => OpCode { inst: Instruction::JMP, mode: AddressingMode::IND, cycle: 5 },
        13u8 => OpCode { inst: Instruction::ADC, mode: AddressingMode::ABS, cycle: 4 },
        14u8 => OpCode { inst: Instruction::ROR, mode: AddressingMode::ABS, cycle: 6 },
        _ => OpCode { inst: Instruction::XXX, mode: AddressingMode::IMP, cycle: 6 },
    }
}

/// Row 0x7_ of the table, by low nibble.
pub open spec fn opcode_row_7(lo: u8) -> OpCode {
    match lo {
        0u8 => OpCode { inst: Instruction::BVS, mode: AddressingMode::REL, cycle: 2 },
        1u8 => OpCode { inst: Instruction::ADC, mode: AddressingMode::IZY, cycle: 5 },
        2u8 => OpCode { inst: Instruction::XXX, mode: AddressingMode::IMP, cycle: 2 },
        3u8 => OpCode { inst: Instruction::XXX, mode: AddressingMode::IMP, cycle: 8 },
        4u8 => OpCode { inst: Instruction::NOP, mode: AddressingMode::IMP, cycle: 4 },
        5u8 => OpCode { inst: Instruction::ADC, mode: AddressingMode::ZPX, cycle: 4 },
        6u8 => OpCode { inst: Instruction::ROR, mode: AddressingMode::ZPX, cycle: 6 },
        7u8 => OpCode { inst: Instruction::XXX, mode: AddressingMode::IMP, cycle: 6 },
        8u8 => OpCode { inst: Instruction::SEI, mode: AddressingMode::IMP, cycle: 2 },
        9u8 => OpCode { inst: Instruction::ADC, mode: AddressingMode::ABY, cycle: 4 },
        10u8 => OpCode { inst: Instruction::NOP, mode: AddressingMode::IMP, cycle: 2 },
        11u8 => OpCode { inst: Instruction::XXX, mode: AddressingMode::IMP, cycle: 7 },
        12u8 => OpCode { inst: Instruction::NOP, mode: AddressingMode::IMP, cycle: 4 },
        13u8 => OpCode { inst: Instruction::ADC, mode: AddressingMode::ABX, cycle: 4 },
        14u8 => OpCode { inst: Instruction::ROR, mode: AddressingMode::ABX, cycle: 7 },
        _ => OpCode { inst: Instruction::XXX, mode: AddressingMode::IMP, cycle: 7 },
    }
}

/// Row 0x8_ of the table, by low nibble.
pub open spec fn opcode_row_8(lo: u8) -> OpCode {
    match lo {
        0u8 => OpCode { inst: Instruction::NOP, mode: AddressingMode::IMP, cycle: 2 },
        1u8 => OpCode { inst: Instruction::STA, mode: AddressingMode::IZX, cycle: 6 },
        2u8 => OpCode { inst: Instruction::NOP, mode: AddressingMode::IMP, cycle: 2 },
        3u8 => OpCode { inst: Instruction::XXX, mode: AddressingMode::IMP, cycle: 6 },
        4u8 => OpCode { inst: Instruction::STY, mode: AddressingMode::ZP0, cycle: 3 },
        5u8 => OpCode { inst: Instruction::STA, mode: AddressingMode::ZP0, cycle: 3 },
        6u8 => OpCode { inst: Instruction::STX, mode: AddressingMode::ZP0, cycle: 3 },
        7u8 => OpCode { inst: Instruction::XXX, mode: AddressingMode::IMP, cycle: 3 },
        8u8 => OpCode { inst: Instruction::DEY, mode: AddressingMode::IMP, cycle: 2 },
        9u8 => OpCode { inst: Instruction::NOP, mode: AddressingMode::IMP, cycle: 2 },
        10u8 => OpCode { inst: Instruction::TXA, mode: AddressingMode::IMP, cycle: 2 },
        11u8 => OpCode { inst: Instruction::XXX, mode: AddressingMode::IMP, cycle: 2 },
        12u8 => OpCode { inst: Instruction::STY, mode: AddressingMode::ABS, cycle: 4 },
        13u8 => OpCode { inst: Instruction::STA, mode: AddressingMode::ABS, cycle: 4 },
        14u8 => OpCode { inst: Instruction::STX, mode: AddressingMode::ABS, cycle: 4 },
        _ => OpCode { inst: Instruction::XXX, mode: AddressingMode::IMP, cycle: 4 },
    }
}

/// Row 0x9_ of the table, by low nibble.
pub open spec fn opcode_row_9(lo: u8) -> OpCode {
    match lo {
        0u8 => OpCode { inst: Instruction::BCC, mode: AddressingMode::REL, cycle: 2 },
        1u8 => OpCode { inst: Instruction::STA, mode: AddressingMode::IZY, cycle: 6 },
        2u8 => OpCode { inst: Instruction::XXX, mode: AddressingMode::IMP, cycle: 2 },
        3u8 => OpCode { inst: Instruction::XXX, mode: AddressingMode::IMP, cycle: 6 },
        4u8 => OpCode { inst: Instruction::STY, mode: AddressingMode::ZPX, cycle: 4 },
        5u8 => OpCode { inst: Instruction::STA, mode: AddressingMode::ZPX, cycle: 4 },
        6u8 => OpCode { inst: Instruction::STX, mode: AddressingMode::ZPY, cycle: 4 },
        7u8 => OpCode { inst: Instruction::XXX, mode: AddressingMode::IMP, cycle: 4 },
        8u8 => OpCode { inst: Instruction::TYA, mode: AddressingMode::IMP, cycle: 2 },
        9u8 => OpCode { inst: Instruction::STA, mode: AddressingMode::ABY, cycle: 5 },
        10u8 => OpCode { inst: Instruction::TXS, mode: AddressingMode::IMP, cycle: 2 },
        11u8 => OpCode { inst: Instruction::XXX, mode: AddressingMode::IMP, cycle: 5 },
        12u8 => OpCode { inst: Instruction::NOP, mode: AddressingMode::IMP, cycle: 5 },
        13u8 => OpCode { inst: Instruction::STA, mode: AddressingMode::ABX, cycle: 5 },
        14u8 => OpCode { inst: Instruction::XXX, mode: AddressingMode::IMP, cycle: 5 },
        _ => OpCode { inst: Instruction::XXX, mode: AddressingMode::IMP, cycle: 5 },
    }
}

/// Row 0xA_ of the table, by low nibble.
pub open spec fn opcode_row_a(lo: u8) -> OpCode {
    match lo {
        0u8 => OpCode { inst: Instruction::LDY, mode: AddressingMode::IMM, cycle: 2 },
        1u8 => OpCode { inst: Instruction::LDA, mode: AddressingMode::IZX, cycle: 6 },
        2u8 => OpCode { inst: Instruction::LDX, mode: AddressingMode::IMM, cycle: 2 },
        3u8 => OpCode { inst: Instruction::XXX, mode: AddressingMode::IMP, cycle: 6 },
        4u8 => OpCode { inst: Instruction::LDY, mode: AddressingMode::ZP0, cycle: 3 },
        5u8 => OpCode { inst: Instruction::LDA, mode: AddressingMode::ZP0, cycle: 3 },
        6u8 => OpCode { inst: Instruction::LDX, mode: AddressingMode::ZP0, cycle: 3 },
        7u8 => OpCode { inst: Instruction::XXX, mode: AddressingMode::IMP, cycle: 3 },
        8u8 => OpCode { inst: Instruction::TAY, mode: AddressingMode::IMP, cycle: 2 },
        9u8 => OpCode { inst: Instruction::LDA, mode: AddressingMode::IMM, cycle: 2 },
        10u8 => OpCode { inst: Instruction::TAX, mode: AddressingMode::IMP, cycle: 2 },
        11u8 => OpCode { inst: Instruction::XXX, mode: AddressingMode::IMP, cycle: 2 },
        12u8 => OpCode { inst: Instruction::LDY, mode: AddressingMode::ABS, cycle: 4 },
        13u8 => OpCode { inst: Instruction::LDA, mode: AddressingMode::ABS, cycle: 4 },
        14u8 => OpCode { inst: Instruction::LDX, mode: AddressingMode::ABS, cycle: 4 },
        _ => OpCode { inst: Instruction::XXX, mode: AddressingMode::IMP, cycle: 4 },
    }
}

/// Row 0xB_ of the table, by low nibble.
pub open spec fn opcode_row_b(lo: u8) -> OpCode {
    match lo {
        0u8 => OpCode { inst: Instruction::BCS, mode: AddressingMode::REL, cycle: 2 },
        1u8 => OpCode { inst: Instruction::LDA, mode: AddressingMode::IZY, cycle: 5 },
        2u8 => OpCode { inst: Instruction::XXX, mode: AddressingMode::IMP, cycle: 2 },
        3u8 => OpCode { inst: Instruction::XXX, mode: AddressingMode::IMP, cycle: 5 },
        4u8 => OpCode { inst: Instruction::LDY, mode: AddressingMode::ZPX, cycle: 4 },
        5u8 => OpCode { inst: Instruction::LDA, mode: AddressingMode::ZPX, cycle: 4 },
        6u8 => OpCode { inst: Instruction::LDX, mode: AddressingMode::ZPY, cycle: 4 },
        7u8 => OpCode { inst: Instruction::XXX, mode: AddressingMode::IMP, cycle: 4 },
        8u8 => OpCode { inst: Instruction::CLV, mode: AddressingMode::IMP, cycle: 2 },
        9u8 => OpCode { inst: Instruction::LDA, mode: AddressingMode::ABY, cycle: 4 },
        10u8 => OpCode { inst: Instruction::TSX, mode: AddressingMode::IMP, cycle: 2 },
        11u8 => OpCode { inst: Instruction::XXX, mode: AddressingMode::IMP, cycle: 4 },
        12u8 => OpCode { inst: Instruction::LDY, mode: AddressingMode::ABX, cycle: 4 },
        13u8 => OpCode { inst: Instruction::LDA, mode: AddressingMode::ABX, cycle: 4 },
        14u8 => OpCode { inst: Instruction::LDX, mode: AddressingMode::ABY, cycle: 4 },
        _ => OpCode { inst: Instruction::XXX, mode: AddressingMode::IMP, cycle: 4 },
    }
}

/// Row 0xC_ of the table, by low nibble.
pub open spec fn opcode_row_c(lo: u8) -> OpCode {
    match lo {
        0u8 => OpCode { inst: Instruction::CPY, mode: AddressingMode::IMM, cycle: 2 },
        1u8 => OpCode { inst: Instruction::CMP, mode: AddressingMode::IZX, cycle: 6 },
        2u8 => OpCode { inst: Instruction::NOP, mode: AddressingMode::IMP, cycle: 2 },
        3u8 => OpCode { inst: Instruction::XXX, mode: AddressingMode::IMP, cycle: 8 },
        4u8 => OpCode { inst: Instruction::CPY, mode: AddressingMode::ZP0, cycle: 3 },
        5u8 => OpCode { inst: Instruction::CMP, mode: AddressingMode::ZP0, cycle: 3 },
        6u8 => OpCode { inst: Instruction::DEC, mode: AddressingMode::ZP0, cycle: 5 },
        7u8 => OpCode { inst: Instruction::XXX, mode: AddressingMode::IMP, cycle: 5 },
        8u8 => OpCode { inst: Instruction::INY, mode: AddressingMode::IMP, cycle: 2 },
        9u8 => OpCode { inst: Instruction::CMP, mode: AddressingMode::IMM, cycle: 2 },
        10u8 => OpCode { inst: Instruction::DEX, mode: AddressingMode::IMP, cycle: 2 },
        11u8 => OpCode { inst: Instruction::XXX, mode: AddressingMode::IMP, cycle: 2 },
        12u8 => OpCode { inst: Instruction::CPY, mode: AddressingMode::ABS, cycle: 4 },
        13u8 => OpCode { inst: Instruction::CMP, mode: AddressingMode::ABS, cycle: 4 },
        14u8 => OpCode { inst: Instruction::DEC, mode: AddressingMode::ABS, cycle: 6 },
        _ => OpCode { inst: Instruction::XXX, mode: AddressingMode::IMP, cycle: 6 },
    }
}

/// Row 0xD_ of the table, by low nibble.
pub open spec fn opcode_row_d(lo: u8) -> OpCode {
    match lo {
        0u8 => OpCode { inst: Instruction::BNE, mode: AddressingMode::REL, cycle: 2 },
        1u8 => OpCode { inst: Instruction::CMP, mode: AddressingMode::IZY, cycle: 5 },
        2u8 => OpCode { inst: Instruction::XXX, mode: AddressingMode::IMP, cycle: 2 },
        3u8 => OpCode { inst: Instruction::XXX, mode: AddressingMode::IMP, cycle: 8 },
        4u8 => OpCode { inst: Instruction::NOP, mode: AddressingMode::IMP, cycle: 4 },
        5u8 => OpCode { inst: Instruction::CMP, mode: AddressingMode::ZPX, cycle: 4 },
        6u8 => OpCode { inst: Instruction::DEC, mode: AddressingMode::ZPX, cycle: 6 },
        7u8 => OpCode { inst: Instruction::XXX, mode: AddressingMode::IMP, cycle: 6 },
        8u8 => OpCode { inst: Instruction::CLD, mode: AddressingMode::IMP, cycle: 2 },
        9u8 => OpCode { inst: Instruction::CMP, mode: AddressingMode::ABY, cycle: 4 },
        10u8 => OpCode { inst: Instruction::NOP, mode: AddressingMode::IMP, cycle: 2 },
        11u8 => OpCode { inst: Instruction::XXX, mode: AddressingMode::IMP, cycle: 7 },
        12u8 => OpCode { inst: Instruction::NOP, mode: AddressingMode::IMP, cycle: 4 },
        13u8 => OpCode { inst: Instruction::CMP, mode: AddressingMode::ABX, cycle: 4 },
        14u8 => OpCode { inst: Instruction::DEC, mode: AddressingMode::ABX, cycle: 7 },
        _ => OpCode { inst: Instruction::XXX, mode: AddressingMode::IMP, cycle: 7 },
    }
}

/// Row 0xE_ of the table, by low nibble.
pub open spec fn opcode_row_e(lo: u8) -> OpCode {
    match lo {
        0u8 => OpCode { inst: Instruction::CPX, mode: AddressingMode::IMM, cycle: 2 },
        1u8 => OpCode { inst: Instruction::SBC, mode: AddressingMode::IZX, cycle: 6 },
        2u8 => OpCode { inst: Instruction::NOP, mode: AddressingMode::IMP, cycle: 2 },
        3u8 => OpCode { inst: Instruction::XXX, mode: AddressingMode::IMP, cycle: 8 },
        4u8 => OpCode { inst: Instruction::CPX, mode: AddressingMode::ZP0, cycle: 3 },
        5u8 => OpCode { inst: Instruction::SBC, mode: AddressingMode::ZP0, cycle: 3 },
        6u8 => OpCode { inst: Instruction::INC, mode: AddressingMode::ZP0, cycle: 5 },
        7u8 => OpCode { inst: Instruction::XXX, mode: AddressingMode::IMP, cycle: 5 },
        8u8 => OpCode { inst: Instruction::INX, mode: AddressingMode::IMP, cycle: 2 },
        9u8 => OpCode { inst: Instruction::SBC, mode: AddressingMode::IMM, cycle: 2 },
        10u8 => OpCode { inst: Instruction::NOP, mode: AddressingMode::IMP, cycle: 2 },
        11u8 => OpCode { inst: Instruction::SBC, mode: AddressingMode::IMP, cycle: 2 },
        12u8 => OpCode { inst: Instruction::CPX, mode: AddressingMode::ABS, cycle: 4 },
        13u8 => OpCode { inst: Instruction::SBC, mode: AddressingMode::ABS, cycle: 4 },
        14u8 => OpCode { inst: Instruction::INC, mode: AddressingMode::ABS, cycle: 6 },
        _ => OpCode { inst: Instruction::XXX, mode: AddressingMode::IMP, cycle: 6 },
    }
}

/// Row 0xF_ of the table, by low nibble.
pub open spec fn opcode_row_f(lo: u8) -> OpCode {
    match lo {
        0u8 => OpCode { inst: Instruction::BEQ, mode: AddressingMode::REL, cycle: 2 },
        1u8 => OpCode { inst: Instruction::SBC, mode: AddressingMode::IZY, cycle: 5 },
        2u8 => OpCode { inst: Instruction::XXX, mode: AddressingMode::IMP, cycle: 2 },
        3u8 => OpCode { inst: Instruction::XXX, mode: AddressingMode::IMP, cycle: 8 },
        4u8 => OpCode { inst: Instruction::NOP, mode: AddressingMode::IMP, cycle: 4 },
        5u8 => OpCode { inst: Instruction::SBC, mode: AddressingMode::ZPX, cycle: 4 },
        6u8 => OpCode { inst: Instruction::INC, mode: AddressingMode::ZPX, cycle: 6 },
        7u8 => OpCode { inst: Instruction::XXX, mode: AddressingMode::IMP, cycle: 6 },
        8u8 => OpCode { inst: Instruction::SED, mode: AddressingMode::IMP, cycle: 2 },
        9u8 => OpCode { inst: Instruction::SBC, mode: AddressingMode::ABY, cycle: 4 },
        10u8 => OpCode { inst: Instruction::NOP, mode: AddressingMode::IMP, cycle: 2 },
        11u8 => OpCode { inst: Instruction::XXX, mode: AddressingMode::IMP, cycle: 7 },
        12u8 => OpCode { inst: Instruction::NOP, mode: AddressingMode::IMP, cycle: 4 },
        13u8 => OpCode { inst: Instruction::SBC, mode: AddressingMode::ABX, cycle: 4 },
        14u8 => OpCode { inst: Instruction::INC, mode: AddressingMode::ABX, cycle: 7 },
        _ => OpCode { inst: Instruction::XXX, mode: AddressingMode::IMP, cycle: 7 },
    }
}

/// The table entry of opcode byte `code`.
pub open spec fn opcode_table(code: u8) -> OpCode {
    let lo = code % 16;
    match code / 16 {
        0u8 => opcode_row_0(lo),
        1u8 => opcode_row_1(lo),
        2u8 => opcode_row_2(lo),
        3u8 => opcode_row_3(lo),
        4u8 => opcode_row_4(lo),
        5u8 => opcode_row_5(lo),
        6u8 => opcode_row_6(lo),
        7u8 => opcode_row_7(lo),
        8u8 => opcode_row_8(lo),
        9u8 => opcode_row_9(lo),
        10u8 => opcode_row_a(lo),
        11u8 => opcode_row_b(lo),
        12u8 => opcode_row_c(lo),
        13u8 => opcode_row_d(lo),
        14u8 => opcode_row_e(lo),
        _ => opcode_row_f(lo),
    }
}

fn lookup_row_0(lo: u8) -> (r: OpCode)
    ensures
        r == opcode_row_0(lo),
{
    match lo {
        0u8 => OpCode::new(Instruction::BRK, AddressingMode::IMM, 7),
        1u8 => OpCode::new(Instruction::ORA, AddressingMode::IZX, 6),
        2u8 => OpCode::new(Instruction::XXX, AddressingMode::IMP, 2),
        3u8 => OpCode::new(Instruction::XXX, AddressingMode::IMP, 8),
        4u8 => OpCode::new(Instruction::NOP, AddressingMode::IMP, 3),
        5u8 => OpCode::new(Instruction::ORA, AddressingMode::ZP0, 3),
        6u8 => OpCode::new(Instruction::ASL, AddressingMode::ZP0, 5),
        7u8 => OpCode::new(Instruction::XXX, AddressingMode::IMP, 5),
        8u8 => OpCode::new(Instruction::PHP, AddressingMode::IMP, 3),
        9u8 => OpCode::new(Instruction::ORA, AddressingMode::IMM, 2),
        10u8 => OpCode::new(Instruction::ASL, AddressingMode::ACC, 2),
        11u8 => OpCode::new(Instruction::XXX, AddressingMode::IMP, 2),
        12u8 => OpCode::new(Instruction::NOP, AddressingMode::IMP, 4),
        13u8 => OpCode::new(Instruction::ORA, AddressingMode::ABS, 4),
        14u8 => OpCode::new(Instruction::ASL, AddressingMode::ABS, 6),
        _ => OpCode::new(Instruction::XXX, AddressingMode::IMP, 6),
    }
}

fn lookup_row_1(lo: u8) -> (r: OpCode)
    ensures
        r == opcode_row_1(lo),
{
    match lo {
        0u8 => OpCode::new(Instruction::BPL, AddressingMode::REL, 2),
        1u8 => OpCode::new(Instruction::ORA, AddressingMode::IZY, 5),
        2u8 => OpCode::new(Instruction::XXX, AddressingMode::IMP, 2),
        3u8 => OpCode::new(Instruction::XXX, AddressingMode::IMP, 8),
        4u8 => OpCode::new(Instruction::NOP, AddressingMode::IMP, 4),
        5u8 => OpCode::new(Instruction::ORA, AddressingMode::ZPX, 4),
        6u8 => OpCode::new(Instruction::ASL, AddressingMode::ZPX, 6),
        7u8 => OpCode::new(Instruction::XXX, AddressingMode::IMP, 6),
        8u8 => OpCode::new(Instruction::CLC, AddressingMode::IMP, 2),
        9u8 => OpCode::new(Instruction::ORA, AddressingMode::ABY, 4),
        10u8 => OpCode::new(Instruction::NOP, AddressingMode::IMP, 2),
        11u8 => OpCode::new(Instruction::XXX, AddressingMode::IMP, 7),
        12u8 => OpCode::new(Instruction::NOP, AddressingMode::IMP, 4),
        13u8 => OpCode::new(Instruction::ORA, AddressingMode::ABX, 4),
        14u8 => OpCode::new(Instruction::ASL, AddressingMode::ABX, 7),
        _ => OpCode::new(Instruction::XXX, AddressingMode::IMP, 7),
    }
}

fn lookup_row_2(lo: u8) -> (r: OpCode)
    ensures
        r == opcode_row_2(lo),
{
    match lo {
        0u8 => OpCode::new(Instruction::JSR, AddressingMode::ABS, 6),
        1u8 => OpCode::new(Instruction::AND, AddressingMode::IZX, 6),
        2u8 => OpCode::new(Instruction::XXX, AddressingMode::IMP, 2),
        3u8 => OpCode::new(Instruction::XXX, AddressingMode::IMP, 8),
        4u8 => OpCode::new(Instruction::BIT, AddressingMode::ZP0, 3),
        5u8 => OpCode::new(Instruction::AND, AddressingMode::ZP0, 3),
        6u8 => OpCode::new(Instruction::ROL, AddressingMode::ZP0, 5),
        7u8 => OpCode::new(Instruction::XXX, AddressingMode::IMP, 5),
        8u8 => OpCode::new(Instruction::PLP, AddressingMode::IMP, 4),
        9u8 => OpCode::new(Instruction::AND, AddressingMode::IMM, 2),
        10u8 => OpCode::new(Instruction::ROL, AddressingMode::ACC, 2),
        11u8 => OpCode::new(Instruction::XXX, AddressingMode::IMP, 2),
        12u8 => OpCode::new(Instruction::BIT, AddressingMode::ABS, 4),
        13u8 => OpCode::new(Instruction::AND, AddressingMode::ABS, 4),
        14u8 => OpCode::new(Instruction::ROL, AddressingMode::ABS, 6),
        _ => OpCode::new(Instruction::XXX, AddressingMode::IMP, 6),
    }
}

fn lookup_row_3(lo: u8) -> (r: OpCode)
    ensures
        r == opcode_row_3(lo),
{
    match lo {
        0u8 => OpCode::new(Instruction::BMI, AddressingMode::REL, 2),
        1u8 => OpCode::new(Instruction::AND, AddressingMode::IZY, 5),
        2u8 => OpCode::new(Instruction::XXX, AddressingMode::IMP, 2),
        3u8 => OpCode::new(Instruction::XXX, AddressingMode::IMP, 8),
        4u8 => OpCode::new(Instruction::NOP, AddressingMode::IMP, 4),
        5u8 => OpCode::new(Instruction::AND, AddressingMode::ZPX, 4),
        6u8 => OpCode::new(Instruction::ROL, AddressingMode::ZPX, 6),
        7u8 => OpCode::new(Instruction::XXX, AddressingMode::IMP, 6),
        8u8 => OpCode::new(Instruction::SEC, AddressingMode::IMP, 2),
        9u8 => OpCode::new(Instruction::AND, AddressingMode::ABY, 4),
        10u8 => OpCode::new(Instruction::NOP, AddressingMode::IMP, 2),
        11u8 => OpCode::new(Instruction::XXX, AddressingMode::IMP, 7),
        12u8 => OpCode::new(Instruction::NOP, AddressingMode::IMP, 4),
        13u8 => OpCode::new(Instruction::AND, AddressingMode::ABX, 4),
        14u8 => OpCode::new(Instruction::ROL, AddressingMode::ABX, 7),
        _ => OpCode::new(Instruction::XXX, AddressingMode::IMP, 7),
    }
}

fn lookup_row_4(lo: u8) -> (r: OpCode)
    ensures
        r == opcode_row_4(lo),
{
    match lo {
        0u8 => OpCode::new(Instruction::RTI, AddressingMode::IMP, 6),
        1u8 => OpCode::new(Instruction::EOR, AddressingMode::IZX, 6),
        2u8 => OpCode::new(Instruction::XXX, AddressingMode::IMP, 2),
        3u8 => OpCode::new(Instruction::XXX, AddressingMode::IMP, 8),
        4u8 => OpCode::new(Instruction::NOP, AddressingMode::IMP, 3),
        5u8 => OpCode::new(Instruction::EOR, AddressingMode::ZP0, 3),
        6u8 => OpCode::new(Instruction::LSR, AddressingMode::ZP0, 5),
        7u8 => OpCode::new(Instruction::XXX, AddressingMode::IMP, 5),
        8u8 => OpCode::new(Instruction::PHA, AddressingMode::IMP, 3),
        9u8 => OpCode::new(Instruction::EOR, AddressingMode::IMM, 2),
        10u8 => OpCode::new(Instruction::LSR, AddressingMode::ACC, 2),
        11u8 => OpCode::new(Instruction::XXX, AddressingMode::IMP, 2),
        12u8 => OpCode::new(Instruction::JMP, AddressingMode::ABS, 3),
        13u8 => OpCode::new(Instruction::EOR, AddressingMode::ABS, 4),
        14u8 => OpCode::new(Instruction::LSR, AddressingMode::ABS, 6),
        _ => OpCode::new(Instruction::XXX, AddressingMode::IMP, 6),
    }
}

fn lookup_row_5(lo: u8) -> (r: OpCode)
    ensures
        r == opcode_row_5(lo),
{
    match lo {
        0u8 => OpCode::new(Instruction::BVC, AddressingMode::REL, 2),
        1u8 => OpCode::new(Instruction::EOR, AddressingMode::IZY, 5),
        2u8 => OpCode::new(Instruction::XXX, AddressingMode::IMP, 2),
        3u8 => OpCode::new(Instruction::XXX, AddressingMode::IMP, 8),
        4u8 => OpCode::new(Instruction::NOP, AddressingMode::IMP, 4),
        5u8 => OpCode::new(Instruction::EOR, AddressingMode::ZPX, 4),
        6u8 => OpCode::new(Instruction::LSR, AddressingMode::ZPX, 6),
        7u8 => OpCode::new(Instruction::XXX, AddressingMode::IMP, 6),
        8u8 => OpCode::new(Instruction::CLI, AddressingMode::IMP, 2),
        9u8 => OpCode::new(Instruction::EOR, AddressingMode::ABY, 4),
        10u8 => OpCode::new(Instruction::NOP, AddressingMode::IMP, 2),
        11u8 => OpCode::new(Instruction::XXX, AddressingMode::IMP, 7),
        12u8 => OpCode::new(Instruction::NOP, AddressingMode::IMP, 4),
        13u8 => OpCode::new(Instruction::EOR, AddressingMode::ABX, 4),
        14u8 => OpCode::new(Instruction::LSR, AddressingMode::ABX, 7),
        _ => OpCode::new(Instruction::XXX, AddressingMode::IMP, 7),
    }
}

fn lookup_row_6(lo: u8) -> (r: OpCode)
    ensures
        r == opcode_row_6(lo),
{
    match lo {
        0u8 => OpCode::new(Instruction::RTS, AddressingMode::IMP, 6),
        1u8 => OpCode::new(Instruction::ADC, AddressingMode::IZX, 6),
        2u8 => OpCode::new(Instruction::XXX, AddressingMode::IMP, 2),
        3u8 => OpCode::new(Instruction::XXX, AddressingMode::IMP, 8),
        4u8 => OpCode::new(Instruction::NOP, AddressingMode::IMP, 3),
        5u8 => OpCode::new(Instruction::ADC, AddressingMode::ZP0, 3),
        6u8 => OpCode::new(Instruction::ROR, AddressingMode::ZP0, 5),
        7u8 => OpCode::new(Instruction::XXX, AddressingMode::IMP, 5),
        8u8 => OpCode::new(Instruction::PLA, AddressingMode::IMP, 4),
        9u8 => OpCode::new(Instruction::ADC, AddressingMode::IMM, 2),
        10u8 => OpCode::new(Instruction::ROR, AddressingMode::ACC, 2),
        11u8 => OpCode::new(Instruction::XXX, AddressingMode::IMP, 2),
        12u8 => OpCode::new(Instruction::JMP, AddressingMode::IND, 5),
        13u8 => OpCode::new(Instruction::ADC, AddressingMode::ABS, 4),
        14u8 => OpCode::new(Instruction::ROR, AddressingMode::ABS, 6),
        _ => OpCode::new(Instruction::XXX, AddressingMode::IMP, 6),
    }
}

fn lookup_row_7(lo: u8) -> (r: OpCode)
    ensures
        r == opcode_row_7(lo),
{
    match lo {
        0u8 => OpCode::new(Instruction::BVS, AddressingMode::REL, 2),
        1u8 => OpCode::new(Instruction::ADC, AddressingMode::IZY, 5),
        2u8 => OpCode::new(Instruction::XXX, AddressingMode::IMP, 2),
        3u8 => OpCode::new(Instruction::XXX, AddressingMode::IMP, 8),
        4u8 => OpCode::new(Instruction::NOP, AddressingMode::IMP, 4),
        5u8 => OpCode::new(Instruction::ADC, AddressingMode::ZPX, 4),
        6u8 => OpCode::new(Instruction::ROR, AddressingMode::ZPX, 6),
        7u8 => OpCode::new(Instruction::XXX, AddressingMode::IMP, 6),
        8u8 => OpCode::new(Instruction::SEI, AddressingMode::IMP, 2),
        9u8 => OpCode::new(Instruction::ADC, AddressingMode::ABY, 4),
        10u8 => OpCode::new(Instruction::NOP, AddressingMode::IMP, 2),
        11u8 => OpCode::new(Instruction::XXX, AddressingMode::IMP, 7),
        12u8 => OpCode::new(Instruction::NOP, AddressingMode::IMP, 4),
        13u8 => OpCode::new(Instruction::ADC, AddressingMode::ABX, 4),
        14u8 => OpCode::new(Instruction::ROR, AddressingMode::ABX, 7),
        _ => OpCode::new(Instruction::XXX, AddressingMode::IMP, 7),
    }
}

fn lookup_row_8(lo: u8) -> (r: OpCode)
    ensures
        r == opcode_row_8(lo),
{
    match lo {
        0u8 => OpCode::new(Instruction::NOP, AddressingMode::IMP, 2),
        1u8 => OpCode::new(Instruction::STA, AddressingMode::IZX, 6),
        2u8 => OpCode::new(Instruction::NOP, AddressingMode::IMP, 2),
        3u8 => OpCode::new(Instruction::XXX, AddressingMode::IMP, 6),
        4u8 => OpCode::new(Instruction::STY, AddressingMode::ZP0, 3),
        5u8 => OpCode::new(Instruction::STA, AddressingMode::ZP0, 3),
        6u8 => OpCode::new(Instruction::STX, AddressingMode::ZP0, 3),
        7u8 => OpCode::new(Instruction::XXX, AddressingMode::IMP, 3),
        8u8 => OpCode::new(Instruction::DEY, AddressingMode::IMP, 2),
        9u8 => OpCode::new(Instruction::NOP, AddressingMode::IMP, 2),
        10u8 => OpCode::new(Instruction::TXA, AddressingMode::IMP, 2),
        11u8 => OpCode::new(Instruction::XXX, AddressingMode::IMP, 2),
        12u8 => OpCode::new(Instruction::STY, AddressingMode::ABS, 4),
        13u8 => OpCode::new(Instruction::STA, AddressingMode::ABS, 4),
        14u8 => OpCode::new(Instruction::STX, AddressingMode::ABS, 4),
        _ => OpCode::new(Instruction::XXX, AddressingMode::IMP, 4),
    }
}

fn lookup_row_9(lo: u8) -> (r: OpCode)
    ensures
        r == opcode_row_9(lo),
{
    match lo {
        0u8 => OpCode::new(Instruction::BCC, AddressingMode::REL, 2),
        1u8 => OpCode::new(Instruction::STA, AddressingMode::IZY, 6),
        2u8 => OpCode::new(Instruction::XXX, AddressingMode::IMP, 2),
        3u8 => OpCode::new(Instruction::XXX, AddressingMode::IMP, 6),
        4u8 => OpCode::new(Instruction::STY, AddressingMode::ZPX, 4),
        5u8 => OpCode::new(Instruction::STA, AddressingMode::ZPX, 4),
        6u8 => OpCode::new(Instruction::STX, AddressingMode::ZPY, 4),
        7u8 => OpCode::new(Instruction::XXX, AddressingMode::IMP, 4),
        8u8 => OpCode::new(Instruction::TYA, AddressingMode::IMP, 2),
        9u8 => OpCode::new(Instruction::STA, AddressingMode::ABY, 5),
        10u8 => OpCode::new(Instruction::TXS, AddressingMode::IMP, 2),
        11u8 => OpCode::new(Instruction::XXX, AddressingMode::IMP, 5),
        12u8 => OpCode::new(Instruction::NOP, AddressingMode::IMP, 5),
        13u8 => OpCode::new(Instruction::STA, AddressingMode::ABX, 5),
        14u8 => OpCode::new(Instruction::XXX, AddressingMode::IMP, 5),
        _ => OpCode::new(Instruction::XXX, AddressingMode::IMP, 5),
    }
}

fn lookup_row_a(lo: u8) -> (r: OpCode)
    ensures
        r == opcode_row_a(lo),
{
    match lo {
        0u8 => OpCode::new(Instruction::LDY, AddressingMode::IMM, 2),
        1u8 => OpCode::new(Instruction::LDA, AddressingMode::IZX, 6),
        2u8 => OpCode::new(Instruction::LDX, AddressingMode::IMM, 2),
        3u8 => OpCode::new(Instruction::XXX, AddressingMode::IMP, 6),
        4u8 => OpCode::new(Instruction::LDY, AddressingMode::ZP0, 3),
        5u8 => OpCode::new(Instruction::LDA, AddressingMode::ZP0, 3),
        6u8 => OpCode::new(Instruction::LDX, AddressingMode::ZP0, 3),
        7u8 => OpCode::new(Instruction::XXX, AddressingMode::IMP, 3),
        8u8 => OpCode::new(Instruction::TAY, AddressingMode::IMP, 2),
        9u8 => OpCode::new(Instruction::LDA, AddressingMode::IMM, 2),
        10u8 => OpCode::new(Instruction::TAX, AddressingMode::IMP, 2),
        11u8 => OpCode::new(Instruction::XXX, AddressingMode::IMP, 2),
        12u8 => OpCode::new(Instruction::LDY, AddressingMode::ABS, 4),
        13u8 => OpCode::new(Instruction::LDA, AddressingMode::ABS, 4),
        14u8 => OpCode::new(Instruction::LDX, AddressingMode::ABS, 4),
        _ => OpCode::new(Instruction::XXX, AddressingMode::IMP, 4),
    }
}

fn lookup_row_b(lo: u8) -> (r: OpCode)
    ensures
        r == opcode_row_b(lo),
{
    match lo {
        0u8 => OpCode::new(Instruction::BCS, AddressingMode::REL, 2),
        1u8 => OpCode::new(Instruction::LDA, AddressingMode::IZY, 5),
        2u8 => OpCode::new(Instruction::XXX, AddressingMode::IMP, 2),
        3u8 => OpCode::new(Instruction::XXX, AddressingMode::IMP, 5),
        4u8 => OpCode::new(Instruction::LDY, AddressingMode::ZPX, 4),
        5u8 => OpCode::new(Instruction::LDA, AddressingMode::ZPX, 4),
        6u8 => OpCode::new(Instruction::LDX, AddressingMode::ZPY, 4),
        7u8 => OpCode::new(Instruction::XXX, AddressingMode::IMP, 4),
        8u8 => OpCode::new(Instruction::CLV, AddressingMode::IMP, 2),
        9u8 => OpCode::new(Instruction::LDA, AddressingMode::ABY, 4),
        10u8 => OpCode::new(Instruction::TSX, AddressingMode::IMP, 2),
        11u8 => OpCode::new(Instruction::XXX, AddressingMode::IMP, 4),
        12u8 => OpCode::new(Instruction::LDY, AddressingMode::ABX, 4),
        13u8 => OpCode::new(Instruction::LDA, AddressingMode::ABX, 4),
        14u8 => OpCode::new(Instruction::LDX, AddressingMode::ABY, 4),
        _ => OpCode::new(Instruction::XXX, AddressingMode::IMP, 4),
    }
}

fn lookup_row_c(lo: u8) -> (r: OpCode)
    ensures
        r == opcode_row_c(lo),
{
    match lo {
        0u8 => OpCode::new(Instruction::CPY, AddressingMode::IMM, 2),
        1u8 => OpCode::new(Instruction::CMP, AddressingMode::IZX, 6),
        2u8 => OpCode::new(Instruction::NOP, AddressingMode::IMP, 2),
        3u8 => OpCode::new(Instruction::XXX, AddressingMode::IMP, 8),
        4u8 => OpCode::new(Instruction::CPY, AddressingMode::ZP0, 3),
        5u8 => OpCode::new(Instruction::CMP, AddressingMode::ZP0, 3),
        6u8 => OpCode::new(Instruction::DEC, AddressingMode::ZP0, 5),
        7u8 => OpCode::new(Instruction::XXX, AddressingMode::IMP, 5),
        8u8 => OpCode::new(Instruction::INY, AddressingMode::IMP, 2),
        9u8 => OpCode::new(Instruction::CMP, AddressingMode::IMM, 2),
        10u8 => OpCode::new(Instruction::DEX, AddressingMode::IMP, 2),
        11u8 => OpCode::new(Instruction::XXX, AddressingMode::IMP, 2),
        12u8 => OpCode::new(Instruction::CPY, AddressingMode::ABS, 4),
        13u8 => OpCode::new(Instruction::CMP, AddressingMode::ABS, 4),
        14u8 => OpCode::new(Instruction::DEC, AddressingMode::ABS, 6),
        _ => OpCode::new(Instruction::XXX, AddressingMode::IMP, 6),
    }
}

fn lookup_row_d(lo: u8) -> (r: OpCode)
    ensures
        r == opcode_row_d(lo),
{
    match lo {
        0u8 => OpCode::new(Instruction::BNE, AddressingMode::REL, 2),
        1u8 => OpCode::new(Instruction::CMP, AddressingMode::IZY, 5),
        2u8 => OpCode::new(Instruction::XXX, AddressingMode::IMP, 2),
        3u8 => OpCode::new(Instruction::XXX, AddressingMode::IMP, 8),
        4u8 => OpCode::new(Instruction::NOP, AddressingMode::IMP, 4),
        5u8 => OpCode::new(Instruction::CMP, AddressingMode::ZPX, 4),
        6u8 => OpCode::new(Instruction::DEC, AddressingMode::ZPX, 6),
        7u8 => OpCode::new(Instruction::XXX, AddressingMode::IMP, 6),
        8u8 => OpCode::new(Instruction::CLD, AddressingMode::IMP, 2),
        9u8 => OpCode::new(Instruction::CMP, AddressingMode::ABY, 4),
        10u8 => OpCode::new(Instruction::NOP, AddressingMode::IMP, 2),
        11u8 => OpCode::new(Instruction::XXX, AddressingMode::IMP, 7),
        12u8 => OpCode::new(Instruction::NOP, AddressingMode::IMP, 4),
        13u8 => OpCode::new(Instruction::CMP, AddressingMode::ABX, 4),
        14u8 => OpCode::new(Instruction::DEC, AddressingMode::ABX, 7),
        _ => OpCode::new(Instruction::XXX, AddressingMode::IMP, 7),
    }
}

fn lookup_row_e(lo: u8) -> (r: OpCode)
    ensures
        r == opcode_row_e(lo),
{
    match lo {
        0u8 => OpCode::new(Instruction::CPX, AddressingMode::IMM, 2),
        1u8 => OpCode::new(Instruction::SBC, AddressingMode::IZX, 6),
        2u8 => OpCode::new(Instruction::NOP, AddressingMode::IMP, 2),
        3u8 => OpCode::new(Instruction::XXX, AddressingMode::IMP, 8),
        4u8 => OpCode::new(Instruction::CPX, AddressingMode::ZP0, 3),
        5u8 => OpCode::new(Instruction::SBC, AddressingMode::ZP0, 3),
        6u8 => OpCode::new(Instruction::INC, AddressingMode::ZP0, 5),
        7u8 => OpCode::new(Instruction::XXX, AddressingMode::IMP, 5),
        8u8 => OpCode::new(Instruction::INX, AddressingMode::IMP, 2),
        9u8 => OpCode::new(Instruction::SBC, AddressingMode::IMM, 2),
        10u8 => OpCode::new(Instruction::NOP, AddressingMode::IMP, 2),
        11u8 => OpCode::new(Instruction::SBC, AddressingMode::IMP, 2),
        12u8 => OpCode::new(Instruction::CPX, AddressingMode::ABS, 4),
        13u8 => OpCode::new(Instruction::SBC, AddressingMode::ABS, 4),
        14u8 => OpCode::new(Instruction::INC, AddressingMode::ABS, 6),
        _ => OpCode::new(Instruction::XXX, AddressingMode::IMP, 6),
    }
}

fn lookup_row_f(lo: u8) -> (r: OpCode)
    ensures
        r == opcode_row_f(lo),
{
    match lo {
        0u8 => OpCode::new(Instruction::BEQ, AddressingMode::REL, 2),
        1u8 => OpCode::new(Instruction::SBC, AddressingMode::IZY, 5),
        2u8 => OpCode::new(Instruction::XXX, AddressingMode::IMP, 2),
        3u8 => OpCode::new(Instruction::XXX, AddressingMode::IMP, 8),
        4u8 => OpCode::new(Instruction::NOP, AddressingMode::IMP, 4),
        5u8 => OpCode::new(Instruction::SBC, AddressingMode::ZPX, 4),
        6u8 => OpCode::new(Instruction::INC, AddressingMode::ZPX, 6),
        7u8 => OpCode::new(Instruction::XXX, AddressingMode::IMP, 6),
        8u8 => OpCode::new(Instruction::SED, AddressingMode::IMP, 2),
        9u8 => OpCode::new(Instruction::SBC, AddressingMode::ABY, 4),
        10u8 => OpCode::new(Instruction::NOP, AddressingMode::IMP, 2),
        11u8 => OpCode::new(Instruction::XXX, AddressingMode::IMP, 7),
        12u8 => OpCode::new(Instruction::NOP, AddressingMode::IMP, 4),
        13u8 => OpCode::new(Instruction::SBC, AddressingMode::ABX, 4),
        14u8 => OpCode::new(Instruction::INC, AddressingMode::ABX, 7),
        _ => OpCode::new(Instruction::XXX, AddressingMode::IMP, 7),
    }
}

/// Looks opcode byte `code` up in the dispatch table.
pub fn lookup(code: u8) -> (r: OpCode)
    ensures
        r == opcode_table(code),
{
    let lo = code % 16;
    match code / 16 {
        0u8 => lookup_row_0(lo),
        1u8 => lookup_row_1(lo),
        2u8 => lookup_row_2(lo),
        3u8 => lookup_row_3(lo),
        4u8 => lookup_row_4(lo),
        5u8 => lookup_row_5(lo),
        6u8 => lookup_row_6(lo),
        7u8 => lookup_row_7(lo),
        8u8 => lookup_row_8(lo),
        9u8 => lookup_row_9(lo),
        10u8 => lookup_row_a(lo),
        11u8 => lookup_row_b(lo),
        12u8 => lookup_row_c(lo),
        13u8 => lookup_row_d(lo),
        14u8 => lookup_row_e(lo),
        _ => lookup_row_f(lo),
    }
}

/// Every documented instruction has a base cost of 2 to 7 cycles.
pub proof fn lemma_documented_base_cycles(code: u8)
    requires
        opcode_table(code).inst != Instruction::XXX,
    ensures
        2 <= opcode_table(code).cycle <= 7,
{
}

} // verus!
