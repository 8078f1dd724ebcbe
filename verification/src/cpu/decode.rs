//! The opcode table of the 6502 core: which instruction and addressing
//! mode each opcode selects, and its base cycle count.
use vstd::prelude::*;

verus! {

/// The addressing modes an opcode can use.
#[derive(Debug, Clone, Copy, PartialEq, Eq, Structural)]
pub enum AddressModes {
    Implicit,
    Accumulator,
    Immediate,
    Zeropage,
    ZeropageX,
    ZeropageY,
    Relative,
    Absolute,
    AbsoluteX,
    AbsoluteY,
    Indirect,
    IndexedIndirect,
    IndirectIndexed,
}

/// The operations the core executes: the official instruction set and
/// the unofficial SRE.
#[derive(Debug, Clone, Copy, PartialEq, Eq, Structural)]
pub enum Instruction {
    LDA, LDX, LDY, STA, STX, STY,
    TAX, TAY, TXA, TYA,
    TSX, TXS, PHA, PHP, PLA, PLP,
    AND, EOR, ORA, BIT,
    ADC, SBC, CMP, CPX, CPY,
    INC, INX, INY, DEC, DEX, DEY,
    ASL, LSR, ROL, ROR,
    JMP, JSR, RTS,
    BCC, BCS, BEQ, BMI, BNE, BPL, BVC, BVS,
    CLC, CLD, CLI, CLV, SEC, SED, SEI,
    BRK, NOP, RTI,
    SRE,
}

/// The addressing mode that bits 2-4 (`b`) select in the ALU group
/// (opcodes ending in binary 01).
pub open spec fn group_one_mode(b: int) -> AddressModes {
    if b == 0 {
        AddressModes::IndexedIndirect
    } else if b == 1 {
        AddressModes::Zeropage
    } else if b == 2 {
        AddressModes::Immediate
    } else if b == 3 {
        AddressModes::Absolute
    } else if b == 4 {
        AddressModes::IndirectIndexed
    } else if b == 5 {
        AddressModes::ZeropageX
    } else if b == 6 {
        AddressModes::AbsoluteY
    } else {
        AddressModes::AbsoluteX
    }
}

/// The operation that bits 5-7 (`a`) select in the ALU group.
pub open spec fn group_one_op(a: int) -> Instruction {
    if a == 0 {
        Instruction::ORA
    } else if a == 1 {
        Instruction::AND
    } else if a == 2 {
        Instruction::EOR
    } else if a == 3 {
        Instruction::ADC
    } else if a == 4 {
        Instruction::STA
    } else if a == 5 {
        Instruction::LDA
    } else if a == 6 {
        Instruction::CMP
    } else {
        Instruction::SBC
    }
}

/// The operation that bits 5-7 (`a`) select in the shift and X-register
/// group (opcodes ending in binary 10).
pub open spec fn group_two_op(a: int) -> Instruction {
    if a == 0 {
        Instruction::ASL
    } else if a == 1 {
        Instruction::ROL
    } else if a == 2 {
        Instruction::LSR
    } else if a == 3 {
        Instruction::ROR
    } else if a == 4 {
        Instruction::STX
    } else if a == 5 {
        Instruction::LDX
    } else if a == 6 {
        Instruction::DEC
    } else {
        Instruction::INC
    }
}

/// The ALU group: every combination but STA immediate.
pub open spec fn group_one(a: int, b: int) -> Option<(AddressModes, Instruction)> {
    if a == 4 && b == 2 {
        None
    } else {
        Some((group_one_mode(b), group_one_op(a)))
    }
}

/// The shift and X-register group, with its register transfers and NOP
/// in the accumulator column and indexing by Y for STX and LDX.
pub open spec fn group_two(a: int, b: int) -> Option<(AddressModes, Instruction)> {
    let op = group_two_op(a);
    if b == 0 {
        if a == 5 { Some((AddressModes::Immediate, Instruction::LDX)) } else { None }
    } else if b == 1 {
        Some((AddressModes::Zeropage, op))
    } else if b == 2 {
        if a < 4 {
            Some((AddressModes::Accumulator, op))
        } else if a == 4 {
            Some((AddressModes::Implicit, Instruction::TXA))
        } else if a == 5 {
            Some((AddressModes::Implicit, Instruction::TAX))
        } else if a == 6 {
            Some((AddressModes::Implicit, Instruction::DEX))
        } else {
            Some((AddressModes::Implicit, Instruction::NOP))
        }
    } else if b == 3 {
        Some((AddressModes::Absolute, op))
    } else if b == 5 {
        if a == 4 || a == 5 { Some((AddressModes::ZeropageY, op)) } else { Some((AddressModes::ZeropageX, op)) }
    } else if b == 6 {
        if a == 4 {
            Some((AddressModes::Implicit, Instruction::TXS))
        } else if a == 5 {
            Some((AddressModes::Implicit, Instruction::TSX))
        } else {
            None
        }
    } else if b == 7 {
        if a == 5 {
            Some((AddressModes::AbsoluteY, Instruction::LDX))
        } else if a == 4 {
            None
        } else {
            Some((AddressModes::AbsoluteX, op))
        }
    } else {
        None
    }
}

/// The control group (opcodes ending in binary 00): interrupts and
/// subroutines, BIT, jumps, Y-register and compare instructions, the
/// stack and register instructions, branches and flag instructions.
pub open spec fn group_zero(a: int, b: int) -> Option<(AddressModes, Instruction)> {
    if b == 0 {
        if a == 0 {
            Some((AddressModes::Implicit, Instruction::BRK))
        } else if a == 1 {
            Some((AddressModes::Absolute, Instruction::JSR))
        } else if a == 2 {
            Some((AddressModes::Implicit, Instruction::RTI))
        } else if a == 3 {
            Some((AddressModes::Implicit, Instruction::RTS))
        } else if a == 5 {
            Some((AddressModes::Immediate, Instruction::LDY))
        } else if a == 6 {
            Some((AddressModes::Immediate, Instruction::CPY))
        } else if a == 7 {
            Some((AddressModes::Immediate, Instruction::CPX))
        } else {
            None
        }
    } else if b == 1 || b == 3 {
        let mode = if b == 1 { AddressModes::Zeropage } else { AddressModes::Absolute };
        if a == 1 {
            Some((mode, Instruction::BIT))
        } else if a == 2 && b == 3 {
            Some((AddressModes::Absolute, Instruction::JMP))
        } else if a == 3 && b == 3 {
            Some((AddressModes::Indirect, Instruction::JMP))
        } else if a == 4 {
            Some((mode, Instruction::STY))
        } else if a == 5 {
            Some((mode, Instruction::LDY))
        } else if a == 6 {
            Some((mode, Instruction::CPY))
        } else if a == 7 {
            Some((mode, Instruction::CPX))
        } else {
            None
        }
    } else if b == 2 {
        Some((AddressModes::Implicit, if a == 0 {
            Instruction::PHP
        } else if a == 1 {
            Instruction::PLP
        } else if a == 2 {
            Instruction::PHA
        } else if a == 3 {
            Instruction::PLA
        } else if a == 4 {
            Instruction::DEY
        } else if a == 5 {
            Instruction::TAY
        } else if a == 6 {
            Instruction::INY
        } else {
            Instruction::INX
        }))
    } else if b == 4 {
        Some((AddressModes::Relative, if a == 0 {
            Instruction::BPL
        } else if a == 1 {
            Instruction::BMI
        } else if a == 2 {
            Instruction::BVC
        } else if a == 3 {
            Instruction::BVS
        } else if a == 4 {
            Instruction::BCC
        } else if a == 5 {
            Instruction::BCS
        } else if a == 6 {
            Instruction::BNE
        } else {
            Instruction::BEQ
        }))
    } else if b == 5 {
        if a == 4 {
            Some((AddressModes::ZeropageX, Instruction::STY))
        } else if a == 5 {
            Some((AddressModes::ZeropageX, Instruction::LDY))
        } else {
            None
        }
    } else if b == 6 {
        Some((AddressModes::Implicit, if a == 0 {
            Instruction::CLC
        } else if a == 1 {
            Instruction::SEC
        } else if a == 2 {
            Instruction::CLI
        } else if a == 3 {
            Instruction::SEI
        } else if a == 4 {
            Instruction::TYA
        } else if a == 5 {
            Instruction::CLV
        } else if a == 6 {
            Instruction::CLD
        } else {
            Instruction::SED
        }))
    } else {
        if a == 5 { Some((AddressModes::AbsoluteX, Instruction::LDY)) } else { None }
    }
}

/// The addressing mode and operation of `opcode`, read from its bit
/// fields `aaabbbcc`: the official opcode map, plus SRE zero page
/// ($47); other opcodes are not implemented.
pub open spec fn decoded(opcode: u8) -> Option<(AddressModes, Instruction)> {
    let a = opcode as int / 32;
    let b = (opcode as int / 4) % 8;
    let c = opcode as int % 4;
    if c == 1 {
        group_one(a, b)
    } else if c == 2 {
        group_two(a, b)
    } else if c == 0 {
        group_zero(a, b)
    } else if opcode == 0x47 {
        Some((AddressModes::Zeropage, Instruction::SRE))
    } else {
        None
    }
}

/// Whether `op` reads, modifies and writes back its memory operand.
pub open spec fn read_modify_write(op: Instruction) -> bool {
    op == Instruction::ASL || op == Instruction::LSR || op == Instruction::ROL || op == Instruction::ROR
        || op == Instruction::INC || op == Instruction::DEC || op == Instruction::SRE
}

/// The base cycle count of `op` in addressing mode `mode`.
pub open spec fn base_cycles(mode: AddressModes, op: Instruction) -> u8 {
    match mode {
        AddressModes::Implicit => {
            if op == Instruction::PHA || op == Instruction::PHP {
                3
            } else if op == Instruction::PLA || op == Instruction::PLP {
                4
            } else if op == Instruction::RTS || op == Instruction::RTI {
                6
            } else if op == Instruction::BRK {
                7
            } else {
                2
            }
        },
        AddressModes::Accumulator | AddressModes::Immediate | AddressModes::Relative => 2,
        AddressModes::Zeropage => if read_modify_write(op) { 5 } else { 3 },
        AddressModes::ZeropageX | AddressModes::ZeropageY => if read_modify_write(op) { 6 } else { 4 },
        AddressModes::Absolute => {
            if op == Instruction::JMP {
                3
            } else if op == Instruction::JSR || read_modify_write(op) {
                6
            } else {
                4
            }
        },
        AddressModes::AbsoluteX | AddressModes::AbsoluteY => {
            if read_modify_write(op) {
                7
            } else if op == Instruction::STA {
                5
            } else {
                4
            }
        },
        AddressModes::Indirect => 5,
        AddressModes::IndexedIndirect => 6,
        AddressModes::IndirectIndexed => if op == Instruction::STA { 6 } else { 5 },
    }
}

/// The table entry of `opcode`: addressing mode, operation and base
/// cycle count, or `None` for an opcode the core does not implement.
pub open spec fn opcode_entry(opcode: u8) -> Option<(AddressModes, Instruction, u8)> {
    match decoded(opcode) {
        Some((mode, op)) => Some((mode, op, base_cycles(mode, op))),
        None => None,
    }
}

/// Looks `opcode` up in the opcode table.
#[verifier::rlimit(100)]
pub fn lookup(opcode: u8) -> (r: Option<(AddressModes, Instruction, u8)>)
    ensures
        r == opcode_entry(opcode),
{
    match opcode {
        0xA9u8 => Some((AddressModes::Immediate, Instruction::LDA, 2)),
        0xA5u8 => Some((AddressModes::Zeropage, Instruction::LDA, 3)),
        0xB5u8 => Some((AddressModes::ZeropageX, Instruction::LDA, 4)),
        0xADu8 => Some((AddressModes::Absolute, Instruction::LDA, 4)),
        0xBDu8 => Some((AddressModes::AbsoluteX, Instruction::LDA, 4)),
        0xB9u8 => Some((AddressModes::AbsoluteY, Instruction::LDA, 4)),
        0xA1u8 => Some((AddressModes::IndexedIndirect, Instruction::LDA, 6)),
        0xB1u8 => Some((AddressModes::IndirectIndexed, Instruction::LDA, 5)),
        0xA2u8 => Some((AddressModes::Immediate, Instruction::LDX, 2)),
        0xA6u8 => Some((AddressModes::Zeropage, Instruction::LDX, 3)),
        0xB6u8 => Some((AddressModes::ZeropageY, Instruction::LDX, 4)),
        0xAEu8 => Some((AddressModes::Absolute, Instruction::LDX, 4)),
        0xBEu8 => Some((AddressModes::AbsoluteY, Instruction::LDX, 4)),
        0xA0u8 => Some((AddressModes::Immediate, Instruction::LDY, 2)),
        0xA4u8 => Some((AddressModes::Zeropage, Instruction::LDY, 3)),
        0xB4u8 => Some((AddressModes::ZeropageX, Instruction::LDY, 4)),
        0xACu8 => Some((AddressModes::Absolute, Instruction::LDY, 4)),
        0xBCu8 => Some((AddressModes::AbsoluteX, Instruction::LDY, 4)),
        0x85u8 => Some((AddressModes::Zeropage, Instruction::STA, 3)),
        0x95u8 => Some((AddressModes::ZeropageX, Instruction::STA, 4)),
        0x8Du8 => Some((AddressModes::Absolute, Instruction::STA, 4)),
        0x9Du8 => Some((AddressModes::AbsoluteX, Instruction::STA, 5)),
        0x99u8 => Some((AddressModes::AbsoluteY, Instruction::STA, 5)),
        0x81u8 => Some((AddressModes::IndexedIndirect, Instruction::STA, 6)),
        0x91u8 => Some((AddressModes::IndirectIndexed, Instruction::STA, 6)),
        0x86u8 => Some((AddressModes::Zeropage, Instruction::STX, 3)),
        0x96u8 => Some((AddressModes::ZeropageY, Instruction::STX, 4)),
        0x8Eu8 => Some((AddressModes::Absolute, Instruction::STX, 4)),
        0x84u8 => Some((AddressModes::Zeropage, Instruction::STY, 3)),
        0x94u8 => Some((AddressModes::ZeropageX, Instruction::STY, 4)),
        0x8Cu8 => Some((AddressModes::Absolute, Instruction::STY, 4)),
        0xAAu8 => Some((AddressModes::Implicit, Instruction::TAX, 2)),
        0xA8u8 => Some((AddressModes::Implicit, Instruction::TAY, 2)),
        0x8Au8 => Some((AddressModes::Implicit, Instruction::TXA, 2)),
        0x98u8 => Some((AddressModes::Implicit, Instruction::TYA, 2)),
        0xBAu8 => Some((AddressModes::Implicit, Instruction::TSX, 2)),
        0x9Au8 => Some((AddressModes::Implicit, Instruction::TXS, 2)),
        0x48u8 => Some((AddressModes::Implicit, Instruction::PHA, 3)),
        0x8u8 => Some((AddressModes::Implicit, Instruction::PHP, 3)),
        0x68u8 => Some((AddressModes::Implicit, Instruction::PLA, 4)),
        0x28u8 => Some((AddressModes::Implicit, Instruction::PLP, 4)),
        0x29u8 => Some((AddressModes::Immediate, Instruction::AND, 2)),
        0x25u8 => Some((AddressModes::Zeropage, Instruction::AND, 3)),
        0x35u8 => Some((AddressModes::ZeropageX, Instruction::AND, 4)),
        0x2Du8 => Some((AddressModes::Absolute, Instruction::AND, 4)),
        0x3Du8 => Some((AddressModes::AbsoluteX, Instruction::AND, 4)),
        0x39u8 => Some((AddressModes::AbsoluteY, Instruction::AND, 4)),
        0x21u8 => Some((AddressModes::IndexedIndirect, Instruction::AND, 6)),
        0x31u8 => Some((AddressModes::IndirectIndexed, Instruction::AND, 5)),
        0x49u8 => Some((AddressModes::Immediate, Instruction::EOR, 2)),
        0x45u8 => Some((AddressModes::Zeropage, Instruction::EOR, 3)),
        0x55u8 => Some((AddressModes::ZeropageX, Instruction::EOR, 4)),
        0x4Du8 => Some((AddressModes::Absolute, Instruction::EOR, 4)),
        0x5Du8 => Some((AddressModes::AbsoluteX, Instruction::EOR, 4)),
        0x59u8 => Some((AddressModes::AbsoluteY, Instruction::EOR, 4)),
        0x41u8 => Some((AddressModes::IndexedIndirect, Instruction::EOR, 6)),
        0x51u8 => Some((AddressModes::IndirectIndexed, Instruction::EOR, 5)),
        0x9u8 => Some((AddressModes::Immediate, Instruction::ORA, 2)),
        0x5u8 => Some((AddressModes::Zeropage, Instruction::ORA, 3)),
        0x15u8 => Some((AddressModes::ZeropageX, Instruction::ORA, 4)),
        0xDu8 => Some((AddressModes::Absolute, Instruction::ORA, 4)),
        0x1Du8 => Some((AddressModes::AbsoluteX, Instruction::ORA, 4)),
        0x19u8 => Some((AddressModes::AbsoluteY, Instruction::ORA, 4)),
        0x1u8 => Some((AddressModes::IndexedIndirect, Instruction::ORA, 6)),
        0x11u8 => Some((AddressModes::IndirectIndexed, Instruction::ORA, 5)),
        0x24u8 => Some((AddressModes::Zeropage, Instruction::BIT, 3)),
        0x2Cu8 => Some((AddressModes::Absolute, Instruction::BIT, 4)),
        0x69u8 => Some((AddressModes::Immediate, Instruction::ADC, 2)),
        0x65u8 => Some((AddressModes::Zeropage, Instruction::ADC, 3)),
        0x75u8 => Some((AddressModes::ZeropageX, Instruction::ADC, 4)),
        0x6Du8 => Some((AddressModes::Absolute, Instruction::ADC, 4)),
        0x7Du8 => Some((AddressModes::AbsoluteX, Instruction::ADC, 4)),
        0x79u8 => Some((AddressModes::AbsoluteY, Instruction::ADC, 4)),
        0x61u8 => Some((AddressModes::IndexedIndirect, Instruction::ADC, 6)),
        0x71u8 => Some((AddressModes::IndirectIndexed, Instruction::ADC, 5)),
        0xE9u8 => Some((AddressModes::Immediate, Instruction::SBC, 2)),
        0xE5u8 => Some((AddressModes::Zeropage, Instruction::SBC, 3)),
        0xF5u8 => Some((AddressModes::ZeropageX, Instruction::SBC, 4)),
        0xEDu8 => Some((AddressModes::Absolute, Instruction::SBC, 4)),
        0xFDu8 => Some((AddressModes::AbsoluteX, Instruction::SBC, 4)),
        0xF9u8 => Some((AddressModes::AbsoluteY, Instruction::SBC, 4)),
        0xE1u8 => Some((AddressModes::IndexedIndirect, Instruction::SBC, 6)),
        0xF1u8 => Some((AddressModes::IndirectIndexed, Instruction::SBC, 5)),
        0xC9u8 => Some((AddressModes::Immediate, Instruction::CMP, 2)),
        0xC5u8 => Some((AddressModes::Zeropage, Instruction::CMP, 3)),
        0xD5u8 => Some((AddressModes::ZeropageX, Instruction::CMP, 4)),
        0xCDu8 => Some((AddressModes::Absolute, Instruction::CMP, 4)),
        0xDDu8 => Some((AddressModes::AbsoluteX, Instruction::CMP, 4)),
        0xD9u8 => Some((AddressModes::AbsoluteY, Instruction::CMP, 4)),
        0xC1u8 => Some((AddressModes::IndexedIndirect, Instruction::CMP, 6)),
        0xD1u8 => Some((AddressModes::IndirectIndexed, Instruction::CMP, 5)),
        0xE0u8 => Some((AddressModes::Immediate, Instruction::CPX, 2)),
        0xE4u8 => Some((AddressModes::Zeropage, Instruction::CPX, 3)),
        0xECu8 => Some((AddressModes::Absolute, Instruction::CPX, 4)),
        0xC0u8 => Some((AddressModes::Immediate, Instruction::CPY, 2)),
        0xC4u8 => Some((AddressModes::Zeropage, Instruction::CPY, 3)),
        0xCCu8 => Some((AddressModes::Absolute, Instruction::CPY, 4)),
        0xE6u8 => Some((AddressModes::Zeropage, Instruction::INC, 5)),
        0xF6u8 => Some((AddressModes::ZeropageX, Instruction::INC, 6)),
        0xEEu8 => Some((AddressModes::Absolute, Instruction::INC, 6)),
        0xFEu8 => Some((AddressModes::AbsoluteX, Instruction::INC, 7)),
        0xE8u8 => Some((AddressModes::Implicit, Instruction::INX, 2)),
        0xC8u8 => Some((AddressModes::Implicit, Instruction::INY, 2)),
        0xC6u8 => Some((AddressModes::Zeropage, Instruction::DEC, 5)),
        0xD6u8 => Some((AddressModes::ZeropageX, Instruction::DEC, 6)),
        0xCEu8 => Some((AddressModes::Absolute, Instruction::DEC, 6)),
        0xDEu8 => Some((AddressModes::AbsoluteX, Instruction::DEC, 7)),
        0xCAu8 => Some((AddressModes::Implicit, Instruction::DEX, 2)),
        0x88u8 => Some((AddressModes::Implicit, Instruction::DEY, 2)),
        0xAu8 => Some((AddressModes::Accumulator, Instruction::ASL, 2)),
        0x6u8 => Some((AddressModes::Zeropage, Instruction::ASL, 5)),
        0x16u8 => Some((AddressModes::ZeropageX, Instruction::ASL, 6)),
        0xEu8 => Some((AddressModes::Absolute, Instruction::ASL, 6)),
        0x1Eu8 => Some((AddressModes::AbsoluteX, Instruction::ASL, 7)),
        0x4Au8 => Some((AddressModes::Accumulator, Instruction::LSR, 2)),
        0x46u8 => Some((AddressModes::Zeropage, Instruction::LSR, 5)),
        0x56u8 => Some((AddressModes::ZeropageX, Instruction::LSR, 6)),
        0x4Eu8 => Some((AddressModes::Absolute, Instruction::LSR, 6)),
        0x5Eu8 => Some((AddressModes::AbsoluteX, Instruction::LSR, 7)),
        0x2Au8 => Some((AddressModes::Accumulator, Instruction::ROL, 2)),
        0x26u8 => Some((AddressModes::Zeropage, Instruction::ROL, 5)),
        0x36u8 => Some((AddressModes::ZeropageX, Instruction::ROL, 6)),
        0x2Eu8 => Some((AddressModes::Absolute, Instruction::ROL, 6)),
        0x3Eu8 => Some((AddressModes::AbsoluteX, Instruction::ROL, 7)),
        0x6Au8 => Some((AddressModes::Accumulator, Instruction::ROR, 2)),
        0x66u8 => Some((AddressModes::Zeropage, Instruction::ROR, 5)),
        0x76u8 => Some((AddressModes::ZeropageX, Instruction::ROR, 6)),
        0x6Eu8 => Some((AddressModes::Absolute, Instruction::ROR, 6)),
        0x7Eu8 => Some((AddressModes::AbsoluteX, Instruction::ROR, 7)),
        0x4Cu8 => Some((AddressModes::Absolute, Instruction::JMP, 3)),
        0x6Cu8 => Some((AddressModes::Indirect, Instruction::JMP, 5)),
        0x20u8 => Some((AddressModes::Absolute, Instruction::JSR, 6)),
        0x60u8 => Some((AddressModes::Implicit, Instruction::RTS, 6)),
        0x90u8 => Some((AddressModes::Relative, Instruction::BCC, 2)),
        0xB0u8 => Some((AddressModes::Relative, Instruction::BCS, 2)),
        0xF0u8 => Some((AddressModes::Relative, Instruction::BEQ, 2)),
        0x30u8 => Some((AddressModes::Relative, Instruction::BMI, 2)),
        0xD0u8 => Some((AddressModes::Relative, Instruction::BNE, 2)),
        0x10u8 => Some((AddressModes::Relative, Instruction::BPL, 2)),
        0x50u8 => Some((AddressModes::Relative, Instruction::BVC, 2)),
        0x70u8 => Some((AddressModes::Relative, Instruction::BVS, 2)),
        0x18u8 => Some((AddressModes::Implicit, Instruction::CLC, 2)),
        0xD8u8 => Some((AddressModes::Implicit, Instruction::CLD, 2)),
        0x58u8 => Some((AddressModes::Implicit, Instruction::CLI, 2)),
        0xB8u8 => Some((AddressModes::Implicit, Instruction::CLV, 2)),
        0x38u8 => Some((AddressModes::Implicit, Instruction::SEC, 2)),
        0xF8u8 => Some((AddressModes::Implicit, Instruction::SED, 2)),
        0x78u8 => Some((AddressModes::Implicit, Instruction::SEI, 2)),
        0x0u8 => Some((AddressModes::Implicit, Instruction::BRK, 7)),
        0xEAu8 => Some((AddressModes::Implicit, Instruction::NOP, 2)),
        0x40u8 => Some((AddressModes::Implicit, Instruction::RTI, 6)),
        0x47u8 => Some((AddressModes::Zeropage, Instruction::SRE, 5)),
        _ => None,
    }
}

} // verus!
