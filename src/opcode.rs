use vstd::prelude::*;

verus! {

/// The instruction mnemonics, the undocumented ones included.
#[derive(Clone, Copy, Debug, PartialEq, Eq, Structural)]
pub enum Instruction {
    ADC,
    AND,
    ASL,
    BCC,
    BCS,
    BEQ,
    BIT,
    BMI,
    BNE,
    BPL,
    BRK,
    BVC,
    BVS,
    CLC,
    CLD,
    CLI,
    CLV,
    CMP,
    CPX,
    CPY,
    DCP,
    DEC,
    DEX,
    DEY,
    EOR,
    INC,
    INX,
    INY,
    ISB,
    JMP,
    JSR,
    LAX,
    LDA,
    LDX,
    LDY,
    LSR,
    NOP,
    ORA,
    PHA,
    PHP,
    PLA,
    PLP,
    RLA,
    ROL,
    ROR,
    RRA,
    RTI,
    RTS,
    SAX,
    SBC,
    SEC,
    SED,
    SEI,
    SLO,
    SRE,
    STA,
    STX,
    STY,
    TAX,
    TAY,
    TSX,
    TXA,
    TXS,
    TYA,
}

/// The thirteen addressing modes.
#[derive(Clone, Copy, Debug, PartialEq, Eq, Structural)]
pub enum Addressing {
    Accumulator,
    Implied,
    Immediate,
    Relative,
    ZeroPage,
    ZeroPageX,
    ZeroPageY,
    Absolute,
    AbsoluteX,
    AbsoluteY,
    PreIndexedIndirect,
    PostIndexedIndirect,
    IndirectAbsolute,
}

/// One entry of the opcode table: the instruction, how its operand is found,
/// and its base cost in CPU cycles.
#[derive(Clone, Copy, Debug, PartialEq, Eq, Structural)]
pub struct Opcode {
    pub name: Instruction,
    pub mode: Addressing,
    pub cycle: u8,
}

pub open spec fn entry(name: Instruction, mode: Addressing, cycle: u8) -> Opcode {
    Opcode { name, mode, cycle }
}

/// The opcode table, keyed by the opcode byte. The bytes without an entry are the
/// unstable undocumented opcodes and the ones that halt the processor.
#[verifier::opaque]
pub open spec fn opcode_table(code: u8) -> Option<Opcode> {
    match code {
        0x00 => Some(entry(Instruction::BRK, Addressing::Implied, 7)),
        0x01 => Some(entry(Instruction::ORA, Addressing::PreIndexedIndirect, 6)),
        0x03 => Some(entry(Instruction::SLO, Addressing::PreIndexedIndirect, 8)),
        0x04 => Some(entry(Instruction::NOP, Addressing::ZeroPage, 3)),
        0x05 => Some(entry(Instruction::ORA, Addressing::ZeroPage, 3)),
        0x06 => Some(entry(Instruction::ASL, Addressing::ZeroPage, 5)),
        0x07 => Some(entry(Instruction::SLO, Addressing::ZeroPage, 5)),
        0x08 => Some(entry(Instruction::PHP, Addressing::Implied, 3)),
        0x09 => Some(entry(Instruction::ORA, Addressing::Immediate, 2)),
        0x0A => Some(entry(Instruction::ASL, Addressing::Accumulator, 2)),
        0x0C => Some(entry(Instruction::NOP, Addressing::Absolute, 4)),
        0x0D => Some(entry(Instruction::ORA, Addressing::Absolute, 4)),
        0x0E => Some(entry(Instruction::ASL, Addressing::Absolute, 6)),
        0x0F => Some(entry(Instruction::SLO, Addressing::Absolute, 6)),
        0x10 => Some(entry(Instruction::BPL, Addressing::Relative, 2)),
        0x11 => Some(entry(Instruction::ORA, Addressing::PostIndexedIndirect, 5)),
        0x13 => Some(entry(Instruction::SLO, Addressing::PostIndexedIndirect, 8)),
        0x14 => Some(entry(Instruction::NOP, Addressing::ZeroPageX, 4)),
        0x15 => Some(entry(Instruction::ORA, Addressing::ZeroPageX, 4)),
        0x16 => Some(entry(Instruction::ASL, Addressing::ZeroPageX, 6)),
        0x17 => Some(entry(Instruction::SLO, Addressing::ZeroPageX, 6)),
        0x18 => Some(entry(Instruction::CLC, Addressing::Implied, 2)),
        0x19 => Some(entry(Instruction::ORA, Addressing::AbsoluteY, 4)),
        0x1A => Some(entry(Instruction::NOP, Addressing::Implied, 2)),
        0x1B => Some(entry(Instruction::SLO, Addressing::AbsoluteY, 7)),
        0x1C => Some(entry(Instruction::NOP, Addressing::AbsoluteX, 4)),
        0x1D => Some(entry(Instruction::ORA, Addressing::AbsoluteX, 4)),
        0x1E => Some(entry(Instruction::ASL, Addressing::AbsoluteX, 7)),
        0x1F => Some(entry(Instruction::SLO, Addressing::AbsoluteX, 7)),
        0x20 => Some(entry(Instruction::JSR, Addressing::Absolute, 6)),
        0x21 => Some(entry(Instruction::AND, Addressing::PreIndexedIndirect, 6)),
        0x23 => Some(entry(Instruction::RLA, Addressing::PreIndexedIndirect, 8)),
        0x24 => Some(entry(Instruction::BIT, Addressing::ZeroPage, 3)),
        0x25 => Some(entry(Instruction::AND, Addressing::ZeroPage, 3)),
        0x26 => Some(entry(Instruction::ROL, Addressing::ZeroPage, 5)),
        0x27 => Some(entry(Instruction::RLA, Addressing::ZeroPage, 5)),
        0x28 => Some(entry(Instruction::PLP, Addressing::Implied, 4)),
        0x29 => Some(entry(Instruction::AND, Addressing::Immediate, 2)),
        0x2A => Some(entry(Instruction::ROL, Addressing::Accumulator, 2)),
        0x2C => Some(entry(Instruction::BIT, Addressing::Absolute, 4)),
        0x2D => Some(entry(Instruction::AND, Addressing::Absolute, 4)),
        0x2E => Some(entry(Instruction::ROL, Addressing::Absolute, 6)),
        0x2F => Some(entry(Instruction::RLA, Addressing::Absolute, 6)),
        0x30 => Some(entry(Instruction::BMI, Addressing::Relative, 2)),
        0x31 => Some(entry(Instruction::AND, Addressing::PostIndexedIndirect, 5)),
        0x33 => Some(entry(Instruction::RLA, Addressing::PostIndexedIndirect, 8)),
        0x34 => Some(entry(Instruction::NOP, Addressing::ZeroPageX, 4)),
        0x35 => Some(entry(Instruction::AND, Addressing::ZeroPageX, 4)),
        0x36 => Some(entry(Instruction::ROL, Addressing::ZeroPageX, 6)),
        0x37 => Some(entry(Instruction::RLA, Addressing::ZeroPageX, 6)),
        0x38 => Some(entry(Instruction::SEC, Addressing::Implied, 2)),
        0x39 => Some(entry(Instruction::AND, Addressing::AbsoluteY, 4)),
        0x3A => Some(entry(Instruction::NOP, Addressing::Implied, 2)),
        0x3B => Some(entry(Instruction::RLA, Addressing::AbsoluteY, 7)),
        0x3C => Some(entry(Instruction::NOP, Addressing::AbsoluteX, 4)),
        0x3D => Some(entry(Instruction::AND, Addressing::AbsoluteX, 4)),
        0x3E => Some(entry(Instruction::ROL, Addressing::AbsoluteX, 7)),
        0x3F => Some(entry(Instruction::RLA, Addressing::AbsoluteX, 7)),
        0x40 => Some(entry(Instruction::RTI, Addressing::Implied, 6)),
        0x41 => Some(entry(Instruction::EOR, Addressing::PreIndexedIndirect, 6)),
        0x43 => Some(entry(Instruction::SRE, Addressing::PreIndexedIndirect, 8)),
        0x44 => Some(entry(Instruction::NOP, Addressing::ZeroPage, 3)),
        0x45 => Some(entry(Instruction::EOR, Addressing::ZeroPage, 3)),
        0x46 => Some(entry(Instruction::LSR, Addressing::ZeroPage, 5)),
        0x47 => Some(entry(Instruction::SRE, Addressing::ZeroPage, 5)),
        0x48 => Some(entry(Instruction::PHA, Addressing::Implied, 3)),
        0x49 => Some(entry(Instruction::EOR, Addressing::Immediate, 2)),
        0x4A => Some(entry(Instruction::LSR, Addressing::Accumulator, 2)),
        0x4C => Some(entry(Instruction::JMP, Addressing::Absolute, 3)),
        0x4D => Some(entry(Instruction::EOR, Addressing::Absolute, 4)),
        0x4E => Some(entry(Instruction::LSR, Addressing::Absolute, 6)),
        0x4F => Some(entry(Instruction::SRE, Addressing::Absolute, 6)),
        0x50 => Some(entry(Instruction::BVC, Addressing::Relative, 2)),
        0x51 => Some(entry(Instruction::EOR, Addressing::PostIndexedIndirect, 5)),
        0x53 => Some(entry(Instruction::SRE, Addressing::PostIndexedIndirect, 8)),
        0x54 => Some(entry(Instruction::NOP, Addressing::ZeroPageX, 4)),
        0x55 => Some(entry(Instruction::EOR, Addressing::ZeroPageX, 4)),
        0x56 => Some(entry(Instruction::LSR, Addressing::ZeroPageX, 6)),
        0x57 => Some(entry(Instruction::SRE, Addressing::ZeroPageX, 6)),
        0x58 => Some(entry(Instruction::CLI, Addressing::Implied, 2)),
        0x59 => Some(entry(Instruction::EOR, Addressing::AbsoluteY, 4)),
        0x5A => Some(entry(Instruction::NOP, Addressing::Implied, 2)),
        0x5B => Some(entry(Instruction::SRE, Addressing::AbsoluteY, 7)),
        0x5C => Some(entry(Instruction::NOP, Addressing::AbsoluteX, 4)),
        0x5D => Some(entry(Instruction::EOR, Addressing::AbsoluteX, 4)),
        0x5E => Some(entry(Instruction::LSR, Addressing::AbsoluteX, 7)),
        0x5F => Some(entry(Instruction::SRE, Addressing::AbsoluteX, 7)),
        0x60 => Some(entry(Instruction::RTS, Addressing::Implied, 6)),
        0x61 => Some(entry(Instruction::ADC, Addressing::PreIndexedIndirect, 6)),
        0x63 => Some(entry(Instruction::RRA, Addressing::PreIndexedIndirect, 8)),
        0x64 => Some(entry(Instruction::NOP, Addressing::ZeroPage, 3)),
        0x65 => Some(entry(Instruction::ADC, Addressing::ZeroPage, 3)),
        0x66 => Some(entry(Instruction::ROR, Addressing::ZeroPage, 5)),
        0x67 => Some(entry(Instruction::RRA, Addressing::ZeroPage, 5)),
        0x68 => Some(entry(Instruction::PLA, Addressing::Implied, 4)),
        0x69 => Some(entry(Instruction::ADC, Addressing::Immediate, 2)),
        0x6A => Some(entry(Instruction::ROR, Addressing::Accumulator, 2)),
        0x6C => Some(entry(Instruction::JMP, Addressing::IndirectAbsolute, 5)),
        0x6D => Some(entry(Instruction::ADC, Addressing::Absolute, 4)),
        0x6E => Some(entry(Instruction::ROR, Addressing::Absolute, 6)),
        0x6F => Some(entry(Instruction::RRA, Addressing::Absolute, 6)),
        0x70 => Some(entry(Instruction::BVS, Addressing::Relative, 2)),
        0x71 => Some(entry(Instruction::ADC, Addressing::PostIndexedIndirect, 5)),
        0x73 => Some(entry(Instruction::RRA, Addressing::PostIndexedIndirect, 8)),
        0x74 => Some(entry(Instruction::NOP, Addressing::ZeroPageX, 4)),
        0x75 => Some(entry(Instruction::ADC, Addressing::ZeroPageX, 4)),
        0x76 => Some(entry(Instruction::ROR, Addressing::ZeroPageX, 6)),
        0x77 => Some(entry(Instruction::RRA, Addressing::ZeroPageX, 6)),
        0x78 => Some(entry(Instruction::SEI, Addressing::Implied, 2)),
        0x79 => Some(entry(Instruction::ADC, Addressing::AbsoluteY, 4)),
        0x7A => Some(entry(Instruction::NOP, Addressing::Implied, 2)),
        0x7B => Some(entry(Instruction::RRA, Addressing::AbsoluteY, 7)),
        0x7C => Some(entry(Instruction::NOP, Addressing::AbsoluteX, 4)),
        0x7D => Some(entry(Instruction::ADC, Addressing::AbsoluteX, 4)),
        0x7E => Some(entry(Instruction::ROR, Addressing::AbsoluteX, 7)),
        0x7F => Some(entry(Instruction::RRA, Addressing::AbsoluteX, 7)),
        0x80 => Some(entry(Instruction::NOP, Addressing::Immediate, 2)),
        0x81 => Some(entry(Instruction::STA, Addressing::PreIndexedIndirect, 6)),
        0x82 => Some(entry(Instruction::NOP, Addressing::Immediate, 2)),
        0x83 => Some(entry(Instruction::SAX, Addressing::PreIndexedIndirect, 6)),
        0x84 => Some(entry(Instruction::STY, Addressing::ZeroPage, 3)),
        0x85 => Some(entry(Instruction::STA, Addressing::ZeroPage, 3)),
        0x86 => Some(entry(Instruction::STX, Addressing::ZeroPage, 3)),
        0x87 => Some(entry(Instruction::SAX, Addressing::ZeroPage, 3)),
        0x88 => Some(entry(Instruction::DEY, Addressing::Implied, 2)),
        0x89 => Some(entry(Instruction::NOP, Addressing::Immediate, 2)),
        0x8A => Some(entry(Instruction::TXA, Addressing::Implied, 2)),
        0x8C => Some(entry(Instruction::STY, Addressing::Absolute, 4)),
        0x8D => Some(entry(Instruction::STA, Addressing::Absolute, 4)),
        0x8E => Some(entry(Instruction::STX, Addressing::Absolute, 4)),
        0x8F => Some(entry(Instruction::SAX, Addressing::Absolute, 4)),
        0x90 => Some(entry(Instruction::BCC, Addressing::Relative, 2)),
        0x91 => Some(entry(Instruction::STA, Addressing::PostIndexedIndirect, 6)),
        0x94 => Some(entry(Instruction::STY, Addressing::ZeroPageX, 4)),
        0x95 => Some(entry(Instruction::STA, Addressing::ZeroPageX, 4)),
        0x96 => Some(entry(Instruction::STX, Addressing::ZeroPageY, 4)),
        0x97 => Some(entry(Instruction::SAX, Addressing::ZeroPageY, 4)),
        0x98 => Some(entry(Instruction::TYA, Addressing::Implied, 2)),
        0x99 => Some(entry(Instruction::STA, Addressing::AbsoluteY, 5)),
        0x9A => Some(entry(Instruction::TXS, Addressing::Implied, 2)),
        0x9D => Some(entry(Instruction::STA, Addressing::AbsoluteX, 5)),
        0xA0 => Some(entry(Instruction::LDY, Addressing::Immediate, 2)),
        0xA1 => Some(entry(Instruction::LDA, Addressing::PreIndexedIndirect, 6)),
        0xA2 => Some(entry(Instruction::LDX, Addressing::Immediate, 2)),
        0xA3 => Some(entry(Instruction::LAX, Addressing::PreIndexedIndirect, 6)),
        0xA4 => Some(entry(Instruction::LDY, Addressing::ZeroPage, 3)),
        0xA5 => Some(entry(Instruction::LDA, Addressing::ZeroPage, 3)),
        0xA6 => Some(entry(Instruction::LDX, Addressing::ZeroPage, 3)),
        0xA7 => Some(entry(Instruction::LAX, Addressing::ZeroPage, 3)),
        0xA8 => Some(entry(Instruction::TAY, Addressing::Implied, 2)),
        0xA9 => Some(entry(Instruction::LDA, Addressing::Immediate, 2)),
        0xAA => Some(entry(Instruction::TAX, Addressing::Implied, 2)),
        0xAC => Some(entry(Instruction::LDY, Addressing::Absolute, 4)),
        0xAD => Some(entry(Instruction::LDA, Addressing::Absolute, 4)),
        0xAE => Some(entry(Instruction::LDX, Addressing::Absolute, 4)),
        0xAF => Some(entry(Instruction::LAX, Addressing::Absolute, 4)),
        0xB0 => Some(entry(Instruction::BCS, Addressing::Relative, 2)),
        0xB1 => Some(entry(Instruction::LDA, Addressing::PostIndexedIndirect, 5)),
        0xB3 => Some(entry(Instruction::LAX, Addressing::PostIndexedIndirect, 5)),
        0xB4 => Some(entry(Instruction::LDY, Addressing::ZeroPageX, 4)),
        0xB5 => Some(entry(Instruction::LDA, Addressing::ZeroPageX, 4)),
        0xB6 => Some(entry(Instruction::LDX, Addressing::ZeroPageY, 4)),
        0xB7 => Some(entry(Instruction::LAX, Addressing::ZeroPageY, 4)),
        0xB8 => Some(entry(Instruction::CLV, Addressing::Implied, 2)),
        0xB9 => Some(entry(Instruction::LDA, Addressing::AbsoluteY, 4)),
        0xBA => Some(entry(Instruction::TSX, Addressing::Implied, 2)),
        0xBC => Some(entry(Instruction::LDY, Addressing::AbsoluteX, 4)),
        0xBD => Some(entry(Instruction::LDA, Addressing::AbsoluteX, 4)),
        0xBE => Some(entry(Instruction::LDX, Addressing::AbsoluteY, 4)),
        0xBF => Some(entry(Instruction::LAX, Addressing::AbsoluteY, 4)),
        0xC0 => Some(entry(Instruction::CPY, Addressing::Immediate, 2)),
        0xC1 => Some(entry(Instruction::CMP, Addressing::PreIndexedIndirect, 6)),
        0xC2 => Some(entry(Instruction::NOP, Addressing::Immediate, 2)),
        0xC3 => Some(entry(Instruction::DCP, Addressing::PreIndexedIndirect, 8)),
        0xC4 => Some(entry(Instruction::CPY, Addressing::ZeroPage, 3)),
        0xC5 => Some(entry(Instruction::CMP, Addressing::ZeroPage, 3)),
        0xC6 => Some(entry(Instruction::DEC, Addressing::ZeroPage, 5)),
        0xC7 => Some(entry(Instruction::DCP, Addressing::ZeroPage, 5)),
        0xC8 => Some(entry(Instruction::INY, Addressing::Implied, 2)),
        0xC9 => Some(entry(Instruction::CMP, Addressing::Immediate, 2)),
        0xCA => Some(entry(Instruction::DEX, Addressing::Implied, 2)),
        0xCC => Some(entry(Instruction::CPY, Addressing::Absolute, 4)),
        0xCD => Some(entry(Instruction::CMP, Addressing::Absolute, 4)),
        0xCE => Some(entry(Instruction::DEC, Addressing::Absolute, 6)),
        0xCF => Some(entry(Instruction::DCP, Addressing::Absolute, 6)),
        0xD0 => Some(entry(Instruction::BNE, Addressing::Relative, 2)),
        0xD1 => Some(entry(Instruction::CMP, Addressing::PostIndexedIndirect, 5)),
        0xD3 => Some(entry(Instruction::DCP, Addressing::PostIndexedIndirect, 8)),
        0xD4 => Some(entry(Instruction::NOP, Addressing::ZeroPageX, 4)),
        0xD5 => Some(entry(Instruction::CMP, Addressing::ZeroPageX, 4)),
        0xD6 => Some(entry(Instruction::DEC, Addressing::ZeroPageX, 6)),
        0xD7 => Some(entry(Instruction::DCP, Addressing::ZeroPageX, 6)),
        0xD8 => Some(entry(Instruction::CLD, Addressing::Implied, 2)),
        0xD9 => Some(entry(Instruction::CMP, Addressing::AbsoluteY, 4)),
        0xDA => Some(entry(Instruction::NOP, Addressing::Implied, 2)),
        0xDB => Some(entry(Instruction::DCP, Addressing::AbsoluteY, 7)),
        0xDC => Some(entry(Instruction::NOP, Addressing::AbsoluteX, 4)),
        0xDD => Some(entry(Instruction::CMP, Addressing::AbsoluteX, 4)),
        0xDE => Some(entry(Instruction::DEC, Addressing::AbsoluteX, 7)),
        0xDF => Some(entry(Instruction::DCP, Addressing::AbsoluteX, 7)),
        0xE0 => Some(entry(Instruction::CPX, Addressing::Immediate, 2)),
        0xE1 => Some(entry(Instruction::SBC, Addressing::PreIndexedIndirect, 6)),
        0xE2 => Some(entry(Instruction::NOP, Addressing::Immediate, 2)),
        0xE3 => Some(entry(Instruction::ISB, Addressing::PreIndexedIndirect, 8)),
        0xE4 => Some(entry(Instruction::CPX, Addressing::ZeroPage, 3)),
        0xE5 => Some(entry(Instruction::SBC, Addressing::ZeroPage, 3)),
        0xE6 => Some(entry(Instruction::INC, Addressing::ZeroPage, 5)),
        0xE7 => Some(entry(Instruction::ISB, Addressing::ZeroPage, 5)),
        0xE8 => Some(entry(Instruction::INX, Addressing::Implied, 2)),
        0xE9 => Some(entry(Instruction::SBC, Addressing::Immediate, 2)),
        0xEA => Some(entry(Instruction::NOP, Addressing::Implied, 2)),
        0xEB => Some(entry(Instruction::SBC, Addressing::Immediate, 2)),
        0xEC => Some(entry(Instruction::CPX, Addressing::Absolute, 4)),
        0xED => Some(entry(Instruction::SBC, Addressing::Absolute, 4)),
        0xEE => Some(entry(Instruction::INC, Addressing::Absolute, 6)),
        0xEF => Some(entry(Instruction::ISB, Addressing::Absolute, 6)),
        0xF0 => Some(entry(Instruction::BEQ, Addressing::Relative, 2)),
        0xF1 => Some(entry(Instruction::SBC, Addressing::PostIndexedIndirect, 5)),
        0xF3 => Some(entry(Instruction::ISB, Addressing::PostIndexedIndirect, 8)),
        0xF4 => Some(entry(Instruction::NOP, Addressing::ZeroPageX, 4)),
        0xF5 => Some(entry(Instruction::SBC, Addressing::ZeroPageX, 4)),
        0xF6 => Some(entry(Instruction::INC, Addressing::ZeroPageX, 6)),
        0xF7 => Some(entry(Instruction::ISB, Addressing::ZeroPageX, 6)),
        0xF8 => Some(entry(Instruction::SED, Addressing::Implied, 2)),
        0xF9 => Some(entry(Instruction::SBC, Addressing::AbsoluteY, 4)),
        0xFA => Some(entry(Instruction::NOP, Addressing::Implied, 2)),
        0xFB => Some(entry(Instruction::ISB, Addressing::AbsoluteY, 7)),
        0xFC => Some(entry(Instruction::NOP, Addressing::AbsoluteX, 4)),
        0xFD => Some(entry(Instruction::SBC, Addressing::AbsoluteX, 4)),
        0xFE => Some(entry(Instruction::INC, Addressing::AbsoluteX, 7)),
        0xFF => Some(entry(Instruction::ISB, Addressing::AbsoluteX, 7)),
        _ => None,
    }
}

/// Every table entry costs between 2 and 8 cycles.
pub proof fn lemma_table_cycles(code: u8)
    ensures
        opcode_table(code) matches Some(op) ==> 2 <= op.cycle <= 8,
{
    reveal(opcode_table);
}

fn make(name: Instruction, mode: Addressing, cycle: u8) -> (r: Opcode)
    ensures
        r == entry(name, mode, cycle),
{
    Opcode { name, mode, cycle }
}

/// Looks an opcode byte up in the table.
pub fn decode(code: u8) -> (r: Option<Opcode>)
    ensures
        r == opcode_table(code),
        r matches Some(op) ==> 2 <= op.cycle <= 8,
{
    proof {
        reveal(opcode_table);
    }
    match code {
        0x00 => Some(make(Instruction::BRK, Addressing::Implied, 7)),
        0x01 => Some(make(Instruction::ORA, Addressing::PreIndexedIndirect, 6)),
        0x03 => Some(make(Instruction::SLO, Addressing::PreIndexedIndirect, 8)),
        0x04 => Some(make(Instruction::NOP, Addressing::ZeroPage, 3)),
        0x05 => Some(make(Instruction::ORA, Addressing::ZeroPage, 3)),
        0x06 => Some(make(Instruction::ASL, Addressing::ZeroPage, 5)),
        0x07 => Some(make(Instruction::SLO, Addressing::ZeroPage, 5)),
        0x08 => Some(make(Instruction::PHP, Addressing::Implied, 3)),
        0x09 => Some(make(Instruction::ORA, Addressing::Immediate, 2)),
        0x0A => Some(make(Instruction::ASL, Addressing::Accumulator, 2)),
        0x0C => Some(make(Instruction::NOP, Addressing::Absolute, 4)),
        0x0D => Some(make(Instruction::ORA, Addressing::Absolute, 4)),
        0x0E => Some(make(Instruction::ASL, Addressing::Absolute, 6)),
        0x0F => Some(make(Instruction::SLO, Addressing::Absolute, 6)),
        0x10 => Some(make(Instruction::BPL, Addressing::Relative, 2)),
        0x11 => Some(make(Instruction::ORA, Addressing::PostIndexedIndirect, 5)),
        0x13 => Some(make(Instruction::SLO, Addressing::PostIndexedIndirect, 8)),
        0x14 => Some(make(Instruction::NOP, Addressing::ZeroPageX, 4)),
        0x15 => Some(make(Instruction::ORA, Addressing::ZeroPageX, 4)),
        0x16 => Some(make(Instruction::ASL, Addressing::ZeroPageX, 6)),
        0x17 => Some(make(Instruction::SLO, Addressing::ZeroPageX, 6)),
        0x18 => Some(make(Instruction::CLC, Addressing::Implied, 2)),
        0x19 => Some(make(Instruction::ORA, Addressing::AbsoluteY, 4)),
        0x1A => Some(make(Instruction::NOP, Addressing::Implied, 2)),
        0x1B => Some(make(Instruction::SLO, Addressing::AbsoluteY, 7)),
        0x1C => Some(make(Instruction::NOP, Addressing::AbsoluteX, 4)),
        0x1D => Some(make(Instruction::ORA, Addressing::AbsoluteX, 4)),
        0x1E => Some(make(Instruction::ASL, Addressing::AbsoluteX, 7)),
        0x1F => Some(make(Instruction::SLO, Addressing::AbsoluteX, 7)),
        0x20 => Some(make(Instruction::JSR, Addressing::Absolute, 6)),
        0x21 => Some(make(Instruction::AND, Addressing::PreIndexedIndirect, 6)),
        0x23 => Some(make(Instruction::RLA, Addressing::PreIndexedIndirect, 8)),
        0x24 => Some(make(Instruction::BIT, Addressing::ZeroPage, 3)),
        0x25 => Some(make(Instruction::AND, Addressing::ZeroPage, 3)),
        0x26 => Some(make(Instruction::ROL, Addressing::ZeroPage, 5)),
        0x27 => Some(make(Instruction::RLA, Addressing::ZeroPage, 5)),
        0x28 => Some(make(Instruction::PLP, Addressing::Implied, 4)),
        0x29 => Some(make(Instruction::AND, Addressing::Immediate, 2)),
        0x2A => Some(make(Instruction::ROL, Addressing::Accumulator, 2)),
        0x2C => Some(make(Instruction::BIT, Addressing::Absolute, 4)),
        0x2D => Some(make(Instruction::AND, Addressing::Absolute, 4)),
        0x2E => Some(make(Instruction::ROL, Addressing::Absolute, 6)),
        0x2F => Some(make(Instruction::RLA, Addressing::Absolute, 6)),
        0x30 => Some(make(Instruction::BMI, Addressing::Relative, 2)),
        0x31 => Some(make(Instruction::AND, Addressing::PostIndexedIndirect, 5)),
        0x33 => Some(make(Instruction::RLA, Addressing::PostIndexedIndirect, 8)),
        0x34 => Some(make(Instruction::NOP, Addressing::ZeroPageX, 4)),
        0x35 => Some(make(Instruction::AND, Addressing::ZeroPageX, 4)),
        0x36 => Some(make(Instruction::ROL, Addressing::ZeroPageX, 6)),
        0x37 => Some(make(Instruction::RLA, Addressing::ZeroPageX, 6)),
        0x38 => Some(make(Instruction::SEC, Addressing::Implied, 2)),
        0x39 => Some(make(Instruction::AND, Addressing::AbsoluteY, 4)),
        0x3A => Some(make(Instruction::NOP, Addressing::Implied, 2)),
        0x3B => Some(make(Instruction::RLA, Addressing::AbsoluteY, 7)),
        0x3C => Some(make(Instruction::NOP, Addressing::AbsoluteX, 4)),
        0x3D => Some(make(Instruction::AND, Addressing::AbsoluteX, 4)),
        0x3E => Some(make(Instruction::ROL, Addressing::AbsoluteX, 7)),
        0x3F => Some(make(Instruction::RLA, Addressing::AbsoluteX, 7)),
        0x40 => Some(make(Instruction::RTI, Addressing::Implied, 6)),
        0x41 => Some(make(Instruction::EOR, Addressing::PreIndexedIndirect, 6)),
        0x43 => Some(make(Instruction::SRE, Addressing::PreIndexedIndirect, 8)),
        0x44 => Some(make(Instruction::NOP, Addressing::ZeroPage, 3)),
        0x45 => Some(make(Instruction::EOR, Addressing::ZeroPage, 3)),
        0x46 => Some(make(Instruction::LSR, Addressing::ZeroPage, 5)),
        0x47 => Some(make(Instruction::SRE, Addressing::ZeroPage, 5)),
        0x48 => Some(make(Instruction::PHA, Addressing::Implied, 3)),
        0x49 => Some(make(Instruction::EOR, Addressing::Immediate, 2)),
        0x4A => Some(make(Instruction::LSR, Addressing::Accumulator, 2)),
        0x4C => Some(make(Instruction::JMP, Addressing::Absolute, 3)),
        0x4D => Some(make(Instruction::EOR, Addressing::Absolute, 4)),
        0x4E => Some(make(Instruction::LSR, Addressing::Absolute, 6)),
        0x4F => Some(make(Instruction::SRE, Addressing::Absolute, 6)),
        0x50 => Some(make(Instruction::BVC, Addressing::Relative, 2)),
        0x51 => Some(make(Instruction::EOR, Addressing::PostIndexedIndirect, 5)),
        0x53 => Some(make(Instruction::SRE, Addressing::PostIndexedIndirect, 8)),
        0x54 => Some(make(Instruction::NOP, Addressing::ZeroPageX, 4)),
        0x55 => Some(make(Instruction::EOR, Addressing::ZeroPageX, 4)),
        0x56 => Some(make(Instruction::LSR, Addressing::ZeroPageX, 6)),
        0x57 => Some(make(Instruction::SRE, Addressing::ZeroPageX, 6)),
        0x58 => Some(make(Instruction::CLI, Addressing::Implied, 2)),
        0x59 => Some(make(Instruction::EOR, Addressing::AbsoluteY, 4)),
        0x5A => Some(make(Instruction::NOP, Addressing::Implied, 2)),
        0x5B => Some(make(Instruction::SRE, Addressing::AbsoluteY, 7)),
        0x5C => Some(make(Instruction::NOP, Addressing::AbsoluteX, 4)),
        0x5D => Some(make(Instruction::EOR, Addressing::AbsoluteX, 4)),
        0x5E => Some(make(Instruction::LSR, Addressing::AbsoluteX, 7)),
        0x5F => Some(make(Instruction::SRE, Addressing::AbsoluteX, 7)),
        0x60 => Some(make(Instruction::RTS, Addressing::Implied, 6)),
        0x61 => Some(make(Instruction::ADC, Addressing::PreIndexedIndirect, 6)),
        0x63 => Some(make(Instruction::RRA, Addressing::PreIndexedIndirect, 8)),
        0x64 => Some(make(Instruction::NOP, Addressing::ZeroPage, 3)),
        0x65 => Some(make(Instruction::ADC, Addressing::ZeroPage, 3)),
        0x66 => Some(make(Instruction::ROR, Addressing::ZeroPage, 5)),
        0x67 => Some(make(Instruction::RRA, Addressing::ZeroPage, 5)),
        0x68 => Some(make(Instruction::PLA, Addressing::Implied, 4)),
        0x69 => Some(make(Instruction::ADC, Addressing::Immediate, 2)),
        0x6A => Some(make(Instruction::ROR, Addressing::Accumulator, 2)),
        0x6C => Some(make(Instruction::JMP, Addressing::IndirectAbsolute, 5)),
        0x6D => Some(make(Instruction::ADC, Addressing::Absolute, 4)),
        0x6E => Some(make(Instruction::ROR, Addressing::Absolute, 6)),
        0x6F => Some(make(Instruction::RRA, Addressing::Absolute, 6)),
        0x70 => Some(make(Instruction::BVS, Addressing::Relative, 2)),
        0x71 => Some(make(Instruction::ADC, Addressing::PostIndexedIndirect, 5)),
        0x73 => Some(make(Instruction::RRA, Addressing::PostIndexedIndirect, 8)),
        0x74 => Some(make(Instruction::NOP, Addressing::ZeroPageX, 4)),
        0x75 => Some(make(Instruction::ADC, Addressing::ZeroPageX, 4)),
        0x76 => Some(make(Instruction::ROR, Addressing::ZeroPageX, 6)),
        0x77 => Some(make(Instruction::RRA, Addressing::ZeroPageX, 6)),
        0x78 => Some(make(Instruction::SEI, Addressing::Implied, 2)),
        0x79 => Some(make(Instruction::ADC, Addressing::AbsoluteY, 4)),
        0x7A => Some(make(Instruction::NOP, Addressing::Implied, 2)),
        0x7B => Some(make(Instruction::RRA, Addressing::AbsoluteY, 7)),
        0x7C => Some(make(Instruction::NOP, Addressing::AbsoluteX, 4)),
        0x7D => Some(make(Instruction::ADC, Addressing::AbsoluteX, 4)),
        0x7E => Some(make(Instruction::ROR, Addressing::AbsoluteX, 7)),
        0x7F => Some(make(Instruction::RRA, Addressing::AbsoluteX, 7)),
        0x80 => Some(make(Instruction::NOP, Addressing::Immediate, 2)),
        0x81 => Some(make(Instruction::STA, Addressing::PreIndexedIndirect, 6)),
        0x82 => Some(make(Instruction::NOP, Addressing::Immediate, 2)),
        0x83 => Some(make(Instruction::SAX, Addressing::PreIndexedIndirect, 6)),
        0x84 => Some(make(Instruction::STY, Addressing::ZeroPage, 3)),
        0x85 => Some(make(Instruction::STA, Addressing::ZeroPage, 3)),
        0x86 => Some(make(Instruction::STX, Addressing::ZeroPage, 3)),
        0x87 => Some(make(Instruction::SAX, Addressing::ZeroPage, 3)),
        0x88 => Some(make(Instruction::DEY, Addressing::Implied, 2)),
        0x89 => Some(make(Instruction::NOP, Addressing::Immediate, 2)),
        0x8A => Some(make(Instruction::TXA, Addressing::Implied, 2)),
        0x8C => Some(make(Instruction::STY, Addressing::Absolute, 4)),
        0x8D => Some(make(Instruction::STA, Addressing::Absolute, 4)),
        0x8E => Some(make(Instruction::STX, Addressing::Absolute, 4)),
        0x8F => Some(make(Instruction::SAX, Addressing::Absolute, 4)),
        0x90 => Some(make(Instruction::BCC, Addressing::Relative, 2)),
        0x91 => Some(make(Instruction::STA, Addressing::PostIndexedIndirect, 6)),
        0x94 => Some(make(Instruction::STY, Addressing::ZeroPageX, 4)),
        0x95 => Some(make(Instruction::STA, Addressing::ZeroPageX, 4)),
        0x96 => Some(make(Instruction::STX, Addressing::ZeroPageY, 4)),
        0x97 => Some(make(Instruction::SAX, Addressing::ZeroPageY, 4)),
        0x98 => Some(make(Instruction::TYA, Addressing::Implied, 2)),
        0x99 => Some(make(Instruction::STA, Addressing::AbsoluteY, 5)),
        0x9A => Some(make(Instruction::TXS, Addressing::Implied, 2)),
        0x9D => Some(make(Instruction::STA, Addressing::AbsoluteX, 5)),
        0xA0 => Some(make(Instruction::LDY, Addressing::Immediate, 2)),
        0xA1 => Some(make(Instruction::LDA, Addressing::PreIndexedIndirect, 6)),
        0xA2 => Some(make(Instruction::LDX, Addressing::Immediate, 2)),
        0xA3 => Some(make(Instruction::LAX, Addressing::PreIndexedIndirect, 6)),
        0xA4 => Some(make(Instruction::LDY, Addressing::ZeroPage, 3)),
        0xA5 => Some(make(Instruction::LDA, Addressing::ZeroPage, 3)),
        0xA6 => Some(make(Instruction::LDX, Addressing::ZeroPage, 3)),
        0xA7 => Some(make(Instruction::LAX, Addressing::ZeroPage, 3)),
        0xA8 => Some(make(Instruction::TAY, Addressing::Implied, 2)),
        0xA9 => Some(make(Instruction::LDA, Addressing::Immediate, 2)),
        0xAA => Some(make(Instruction::TAX, Addressing::Implied, 2)),
        0xAC => Some(make(Instruction::LDY, Addressing::Absolute, 4)),
        0xAD => Some(make(Instruction::LDA, Addressing::Absolute, 4)),
        0xAE => Some(make(Instruction::LDX, Addressing::Absolute, 4)),
        0xAF => Some(make(Instruction::LAX, Addressing::Absolute, 4)),
        0xB0 => Some(make(Instruction::BCS, Addressing::Relative, 2)),
        0xB1 => Some(make(Instruction::LDA, Addressing::PostIndexedIndirect, 5)),
        0xB3 => Some(make(Instruction::LAX, Addressing::PostIndexedIndirect, 5)),
        0xB4 => Some(make(Instruction::LDY, Addressing::ZeroPageX, 4)),
        0xB5 => Some(make(Instruction::LDA, Addressing::ZeroPageX, 4)),
        0xB6 => Some(make(Instruction::LDX, Addressing::ZeroPageY, 4)),
        0xB7 => Some(make(Instruction::LAX, Addressing::ZeroPageY, 4)),
        0xB8 => Some(make(Instruction::CLV, Addressing::Implied, 2)),
        0xB9 => Some(make(Instruction::LDA, Addressing::AbsoluteY, 4)),
        0xBA => Some(make(Instruction::TSX, Addressing::Implied, 2)),
        0xBC => Some(make(Instruction::LDY, Addressing::AbsoluteX, 4)),
        0xBD => Some(make(Instruction::LDA, Addressing::AbsoluteX, 4)),
        0xBE => Some(make(Instruction::LDX, Addressing::AbsoluteY, 4)),
        0xBF => Some(make(Instruction::LAX, Addressing::AbsoluteY, 4)),
        0xC0 => Some(make(Instruction::CPY, Addressing::Immediate, 2)),
        0xC1 => Some(make(Instruction::CMP, Addressing::PreIndexedIndirect, 6)),
        0xC2 => Some(make(Instruction::NOP, Addressing::Immediate, 2)),
        0xC3 => Some(make(Instruction::DCP, Addressing::PreIndexedIndirect, 8)),
        0xC4 => Some(make(Instruction::CPY, Addressing::ZeroPage, 3)),
        0xC5 => Some(make(Instruction::CMP, Addressing::ZeroPage, 3)),
        0xC6 => Some(make(Instruction::DEC, Addressing::ZeroPage, 5)),
        0xC7 => Some(make(Instruction::DCP, Addressing::ZeroPage, 5)),
        0xC8 => Some(make(Instruction::INY, Addressing::Implied, 2)),
        0xC9 => Some(make(Instruction::CMP, Addressing::Immediate, 2)),
        0xCA => Some(make(Instruction::DEX, Addressing::Implied, 2)),
        0xCC => Some(make(Instruction::CPY, Addressing::Absolute, 4)),
        0xCD => Some(make(Instruction::CMP, Addressing::Absolute, 4)),
        0xCE => Some(make(Instruction::DEC, Addressing::Absolute, 6)),
        0xCF => Some(make(Instruction::DCP, Addressing::Absolute, 6)),
        0xD0 => Some(make(Instruction::BNE, Addressing::Relative, 2)),
        0xD1 => Some(make(Instruction::CMP, Addressing::PostIndexedIndirect, 5)),
        0xD3 => Some(make(Instruction::DCP, Addressing::PostIndexedIndirect, 8)),
        0xD4 => Some(make(Instruction::NOP, Addressing::ZeroPageX, 4)),
        0xD5 => Some(make(Instruction::CMP, Addressing::ZeroPageX, 4)),
        0xD6 => Some(make(Instruction::DEC, Addressing::ZeroPageX, 6)),
        0xD7 => Some(make(Instruction::DCP, Addressing::ZeroPageX, 6)),
        0xD8 => Some(make(Instruction::CLD, Addressing::Implied, 2)),
        0xD9 => Some(make(Instruction::CMP, Addressing::AbsoluteY, 4)),
        0xDA => Some(make(Instruction::NOP, Addressing::Implied, 2)),
        0xDB => Some(make(Instruction::DCP, Addressing::AbsoluteY, 7)),
        0xDC => Some(make(Instruction::NOP, Addressing::AbsoluteX, 4)),
        0xDD => Some(make(Instruction::CMP, Addressing::AbsoluteX, 4)),
        0xDE => Some(make(Instruction::DEC, Addressing::AbsoluteX, 7)),
        0xDF => Some(make(Instruction::DCP, Addressing::AbsoluteX, 7)),
        0xE0 => Some(make(Instruction::CPX, Addressing::Immediate, 2)),
        0xE1 => Some(make(Instruction::SBC, Addressing::PreIndexedIndirect, 6)),
        0xE2 => Some(make(Instruction::NOP, Addressing::Immediate, 2)),
        0xE3 => Some(make(Instruction::ISB, Addressing::PreIndexedIndirect, 8)),
        0xE4 => Some(make(Instruction::CPX, Addressing::ZeroPage, 3)),
        0xE5 => Some(make(Instruction::SBC, Addressing::ZeroPage, 3)),
        0xE6 => Some(make(Instruction::INC, Addressing::ZeroPage, 5)),
        0xE7 => Some(make(Instruction::ISB, Addressing::ZeroPage, 5)),
        0xE8 => Some(make(Instruction::INX, Addressing::Implied, 2)),
        0xE9 => Some(make(Instruction::SBC, Addressing::Immediate, 2)),
        0xEA => Some(make(Instruction::NOP, Addressing::Implied, 2)),
        0xEB => Some(make(Instruction::SBC, Addressing::Immediate, 2)),
        0xEC => Some(make(Instruction::CPX, Addressing::Absolute, 4)),
        0xED => Some(make(Instruction::SBC, Addressing::Absolute, 4)),
        0xEE => Some(make(Instruction::INC, Addressing::Absolute, 6)),
        0xEF => Some(make(Instruction::ISB, Addressing::Absolute, 6)),
        0xF0 => Some(make(Instruction::BEQ, Addressing::Relative, 2)),
        0xF1 => Some(make(Instruction::SBC, Addressing::PostIndexedIndirect, 5)),
        0xF3 => Some(make(Instruction::ISB, Addressing::PostIndexedIndirect, 8)),
        0xF4 => Some(make(Instruction::NOP, Addressing::ZeroPageX, 4)),
        0xF5 => Some(make(Instruction::SBC, Addressing::ZeroPageX, 4)),
        0xF6 => Some(make(Instruction::INC, Addressing::ZeroPageX, 6)),
        0xF7 => Some(make(Instruction::ISB, Addressing::ZeroPageX, 6)),
        0xF8 => Some(make(Instruction::SED, Addressing::Implied, 2)),
        0xF9 => Some(make(Instruction::SBC, Addressing::AbsoluteY, 4)),
        0xFA => Some(make(Instruction::NOP, Addressing::Implied, 2)),
        0xFB => Some(make(Instruction::ISB, Addressing::AbsoluteY, 7)),
        0xFC => Some(make(Instruction::NOP, Addressing::AbsoluteX, 4)),
        0xFD => Some(make(Instruction::SBC, Addressing::AbsoluteX, 4)),
        0xFE => Some(make(Instruction::INC, Addressing::AbsoluteX, 7)),
        0xFF => Some(make(Instruction::ISB, Addressing::AbsoluteX, 7)),
        _ => None,
    }
}

} // verus!
