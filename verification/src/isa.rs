//! The instruction set: mnemonics, addressing modes, and the opcode
//! decode table.
//!
//! `decode` is a pure, total function from an opcode byte to the
//! (mnemonic, addressing mode, base cycle count) triple given by the
//! published reference instruction table; the 105 byte values with no
//! defined instruction decode to `None`.

use vstd::prelude::*;

verus! {

/// An instruction mnemonic. `INSTR_NONE` is the explicit "undefined"
/// sentinel.
#[allow(non_camel_case_types)]
#[derive(Clone, Copy, PartialEq, Eq, Structural, Debug)]
pub enum Instr {
    // Load and store
    LDA, LDX, LDY, STA, STX, STY,
    // Arithmetic
    ADC, SBC, INC, INX, INY, DEC, DEX, DEY,
    // Shift and rotate
    ASL, LSR, ROL, ROR,
    // Logic
    AND, ORA, EOR,
    // Compare and test bit
    CMP, CPX, CPY, BIT,
    // Branch
    BCC, BCS, BEQ, BMI, BNE, BPL, BVC, BVS,
    // Transfer
    TAX, TXA, TAY, TYA, TSX, TXS,
    // Stack
    PHA, PLA, PHP, PLP,
    // Subroutines and jump
    JMP, JSR, RTS, RTI,
    // Set and clear
    SEC, SED, SEI, CLC, CLD, CLI, CLV,
    // Miscellaneous
    NOP, BRK,
    // Undefined
    INSTR_NONE,
}

/// An addressing mode. `ADDRESS_MODE_NONE` is the explicit "none" sentinel.
#[allow(non_camel_case_types)]
#[derive(Clone, Copy, PartialEq, Eq, Structural, Debug)]
pub enum AddressMode {
    /// Zero page: `AND $12`
    ZP,
    /// Indexed zero page with X: `AND $12,X`
    ZPX,
    /// Indexed zero page with Y: `LDX $12,Y`
    ZPY,
    /// Absolute: `AND $1234`
    ABS,
    /// Indexed absolute with X: `AND $1234,X`
    ABSX,
    /// Indexed absolute with Y: `AND $1234,Y`
    ABSY,
    /// Indirect: `JMP ($1234)`
    IND,
    /// Implied: `CLD`
    IMP,
    /// Accumulator: `ASL`
    ACC,
    /// Immediate: `AND #$12`
    IMM,
    /// Relative: `BCS *+5`
    REL,
    /// Indexed indirect: `AND ($12,X)`
    INDX,
    /// Indirect indexed: `AND ($12),Y`
    INDY,
    /// No addressing mode (undefined instructions only)
    ADDRESS_MODE_NONE,
}

/// A decoded instruction: mnemonic, addressing mode, and base cycle count.
#[derive(Clone, Copy, PartialEq, Eq, Structural, Debug)]
pub struct Instruction {
    pub instr: Instr,
    pub address_mode: AddressMode,
    pub cycles: usize,
}

/// The opcode table: the instruction each opcode byte decodes to, or `None`
/// for the byte values with no defined instruction.
pub open spec fn spec_decode(opcode: u8) -> Option<Instruction> {
    match opcode {
        0xA9 => Some(Instruction { instr: Instr::LDA, address_mode: AddressMode::IMM, cycles: 2 }),
        0xA5 => Some(Instruction { instr: Instr::LDA, address_mode: AddressMode::ZP, cycles: 3 }),
        0xB5 => Some(Instruction { instr: Instr::LDA, address_mode: AddressMode::ZPX, cycles: 4 }),
        0xAD => Some(Instruction { instr: Instr::LDA, address_mode: AddressMode::ABS, cycles: 4 }),
        0xBD => Some(Instruction { instr: Instr::LDA, address_mode: AddressMode::ABSX, cycles: 4 }),
        0xB9 => Some(Instruction { instr: Instr::LDA, address_mode: AddressMode::ABSY, cycles: 4 }),
        0xA1 => Some(Instruction { instr: Instr::LDA, address_mode: AddressMode::INDX, cycles: 6 }),
        0xB1 => Some(Instruction { instr: Instr::LDA, address_mode: AddressMode::INDY, cycles: 5 }),
        0xA2 => Some(Instruction { instr: Instr::LDX, address_mode: AddressMode::IMM, cycles: 2 }),
        0xA6 => Some(Instruction { instr: Instr::LDX, address_mode: AddressMode::ZP, cycles: 3 }),
        0xB6 => Some(Instruction { instr: Instr::LDX, address_mode: AddressMode::ZPY, cycles: 4 }),
        0xAE => Some(Instruction { instr: Instr::LDX, address_mode: AddressMode::ABS, cycles: 4 }),
        0xBE => Some(Instruction { instr: Instr::LDX, address_mode: AddressMode::ABSY, cycles: 4 }),
        0xA0 => Some(Instruction { instr: Instr::LDY, address_mode: AddressMode::IMM, cycles: 2 }),
        0xA4 => Some(Instruction { instr: Instr::LDY, address_mode: AddressMode::ZP, cycles: 3 }),
        0xB4 => Some(Instruction { instr: Instr::LDY, address_mode: AddressMode::ZPX, cycles: 4 }),
        0xAC => Some(Instruction { instr: Instr::LDY, address_mode: AddressMode::ABS, cycles: 4 }),
        0xBC => Some(Instruction { instr: Instr::LDY, address_mode: AddressMode::ABSX, cycles: 4 }),
        0x85 => Some(Instruction { instr: Instr::STA, address_mode: AddressMode::ZP, cycles: 3 }),
        0x95 => Some(Instruction { instr: Instr::STA, address_mode: AddressMode::ZPX, cycles: 4 }),
        0x8D => Some(Instruction { instr: Instr::STA, address_mode: AddressMode::ABS, cycles: 4 }),
        0x9D => Some(Instruction { instr: Instr::STA, address_mode: AddressMode::ABSX, cycles: 5 }),
        0x99 => Some(Instruction { instr: Instr::STA, address_mode: AddressMode::ABSY, cycles: 5 }),
        0x81 => Some(Instruction { instr: Instr::STA, address_mode: AddressMode::INDX, cycles: 6 }),
        0x91 => Some(Instruction { instr: Instr::STA, address_mode: AddressMode::INDY, cycles: 6 }),
        0x86 => Some(Instruction { instr: Instr::STX, address_mode: AddressMode::ZP, cycles: 3 }),
        0x96 => Some(Instruction { instr: Instr::STX, address_mode: AddressMode::ZPY, cycles: 4 }),
        0x8E => Some(Instruction { instr: Instr::STX, address_mode: AddressMode::ABS, cycles: 4 }),
        0x84 => Some(Instruction { instr: Instr::STY, address_mode: AddressMode::ZP, cycles: 3 }),
        0x94 => Some(Instruction { instr: Instr::STY, address_mode: AddressMode::ZPX, cycles: 4 }),
        0x8C => Some(Instruction { instr: Instr::STY, address_mode: AddressMode::ABS, cycles: 4 }),
        0x69 => Some(Instruction { instr: Instr::ADC, address_mode: AddressMode::IMM, cycles: 2 }),
        0x65 => Some(Instruction { instr: Instr::ADC, address_mode: AddressMode::ZP, cycles: 3 }),
        0x75 => Some(Instruction { instr: Instr::ADC, address_mode: AddressMode::ZPX, cycles: 4 }),
        0x6D => Some(Instruction { instr: Instr::ADC, address_mode: AddressMode::ABS, cycles: 4 }),
        0x7D => Some(Instruction { instr: Instr::ADC, address_mode: AddressMode::ABSX, cycles: 4 }),
        0x79 => Some(Instruction { instr: Instr::ADC, address_mode: AddressMode::ABSY, cycles: 4 }),
        0x61 => Some(Instruction { instr: Instr::ADC, address_mode: AddressMode::INDX, cycles: 6 }),
        0x71 => Some(Instruction { instr: Instr::ADC, address_mode: AddressMode::INDY, cycles: 5 }),
        0xE9 => Some(Instruction { instr: Instr::SBC, address_mode: AddressMode::IMM, cycles: 2 }),
        0xE5 => Some(Instruction { instr: Instr::SBC, address_mode: AddressMode::ZP, cycles: 3 }),
        0xF5 => Some(Instruction { instr: Instr::SBC, address_mode: AddressMode::ZPX, cycles: 4 }),
        0xED => Some(Instruction { instr: Instr::SBC, address_mode: AddressMode::ABS, cycles: 4 }),
        0xFD => Some(Instruction { instr: Instr::SBC, address_mode: AddressMode::ABSX, cycles: 4 }),
        0xF9 => Some(Instruction { instr: Instr::SBC, address_mode: AddressMode::ABSY, cycles: 4 }),
        0xE1 => Some(Instruction { instr: Instr::SBC, address_mode: AddressMode::INDX, cycles: 6 }),
        0xF1 => Some(Instruction { instr: Instr::SBC, address_mode: AddressMode::INDY, cycles: 5 }),
        0xE6 => Some(Instruction { instr: Instr::INC, address_mode: AddressMode::ZP, cycles: 5 }),
        0xF6 => Some(Instruction { instr: Instr::INC, address_mode: AddressMode::ZPX, cycles: 6 }),
        0xEE => Some(Instruction { instr: Instr::INC, address_mode: AddressMode::ABS, cycles: 6 }),
        0xFE => Some(Instruction { instr: Instr::INC, address_mode: AddressMode::ABSX, cycles: 7 }),
        0xE8 => Some(Instruction { instr: Instr::INX, address_mode: AddressMode::IMP, cycles: 2 }),
        0xC8 => Some(Instruction { instr: Instr::INY, address_mode: AddressMode::IMP, cycles: 2 }),
        0xC6 => Some(Instruction { instr: Instr::DEC, address_mode: AddressMode::ZP, cycles: 5 }),
        0xD6 => Some(Instruction { instr: Instr::DEC, address_mode: AddressMode::ZPX, cycles: 6 }),
        0xCE => Some(Instruction { instr: Instr::DEC, address_mode: AddressMode::ABS, cycles: 6 }),
        0xDE => Some(Instruction { instr: Instr::DEC, address_mode: AddressMode::ABSX, cycles: 7 }),
        0xCA => Some(Instruction { instr: Instr::DEX, address_mode: AddressMode::IMP, cycles: 2 }),
        0x88 => Some(Instruction { instr: Instr::DEY, address_mode: AddressMode::IMP, cycles: 2 }),
        0x0A => Some(Instruction { instr: Instr::ASL, address_mode: AddressMode::ACC, cycles: 2 }),
        0x06 => Some(Instruction { instr: Instr::ASL, address_mode: AddressMode::ZP, cycles: 5 }),
        0x16 => Some(Instruction { instr: Instr::ASL, address_mode: AddressMode::ZPX, cycles: 6 }),
        0x0E => Some(Instruction { instr: Instr::ASL, address_mode: AddressMode::ABS, cycles: 6 }),
        0x1E => Some(Instruction { instr: Instr::ASL, address_mode: AddressMode::ABSX, cycles: 7 }),
        0x4A => Some(Instruction { instr: Instr::LSR, address_mode: AddressMode::ACC, cycles: 2 }),
        0x46 => Some(Instruction { instr: Instr::LSR, address_mode: AddressMode::ZP, cycles: 5 }),
        0x56 => Some(Instruction { instr: Instr::LSR, address_mode: AddressMode::ZPX, cycles: 6 }),
        0x4E => Some(Instruction { instr: Instr::LSR, address_mode: AddressMode::ABS, cycles: 6 }),
        0x5E => Some(Instruction { instr: Instr::LSR, address_mode: AddressMode::ABSX, cycles: 7 }),
        0x2A => Some(Instruction { instr: Instr::ROL, address_mode: AddressMode::ACC, cycles: 2 }),
        0x26 => Some(Instruction { instr: Instr::ROL, address_mode: AddressMode::ZP, cycles: 5 }),
        0x36 => Some(Instruction { instr: Instr::ROL, address_mode: AddressMode::ZPX, cycles: 6 }),
        0x2E => Some(Instruction { instr: Instr::ROL, address_mode: AddressMode::ABS, cycles: 6 }),
        0x3E => Some(Instruction { instr: Instr::ROL, address_mode: AddressMode::ABSX, cycles: 7 }),
        0x6A => Some(Instruction { instr: Instr::ROR, address_mode: AddressMode::ACC, cycles: 2 }),
        0x66 => Some(Instruction { instr: Instr::ROR, address_mode: AddressMode::ZP, cycles: 5 }),
        0x76 => Some(Instruction { instr: Instr::ROR, address_mode: AddressMode::ZPX, cycles: 6 }),
        0x6E => Some(Instruction { instr: Instr::ROR, address_mode: AddressMode::ABS, cycles: 6 }),
        0x7E => Some(Instruction { instr: Instr::ROR, address_mode: AddressMode::ABSX, cycles: 7 }),
        0x29 => Some(Instruction { instr: Instr::AND, address_mode: AddressMode::IMM, cycles: 2 }),
        0x25 => Some(Instruction { instr: Instr::AND, address_mode: AddressMode::ZP, cycles: 3 }),
        0x35 => Some(Instruction { instr: Instr::AND, address_mode: AddressMode::ZPX, cycles: 4 }),
        0x2D => Some(Instruction { instr: Instr::AND, address_mode: AddressMode::ABS, cycles: 4 }),
        0x3D => Some(Instruction { instr: Instr::AND, address_mode: AddressMode::ABSX, cycles: 4 }),
        0x39 => Some(Instruction { instr: Instr::AND, address_mode: AddressMode::ABSY, cycles: 4 }),
        0x21 => Some(Instruction { instr: Instr::AND, address_mode: AddressMode::INDX, cycles: 6 }),
        0x31 => Some(Instruction { instr: Instr::AND, address_mode: AddressMode::INDY, cycles: 5 }),
        0x09 => Some(Instruction { instr: Instr::ORA, address_mode: AddressMode::IMM, cycles: 2 }),
        0x05 => Some(Instruction { instr: Instr::ORA, address_mode: AddressMode::ZP, cycles: 3 }),
        0x15 => Some(Instruction { instr: Instr::ORA, address_mode: AddressMode::ZPX, cycles: 4 }),
        0x0D => Some(Instruction { instr: Instr::ORA, address_mode: AddressMode::ABS, cycles: 4 }),
        0x1D => Some(Instruction { instr: Instr::ORA, address_mode: AddressMode::ABSX, cycles: 4 }),
        0x19 => Some(Instruction { instr: Instr::ORA, address_mode: AddressMode::ABSY, cycles: 4 }),
        0x01 => Some(Instruction { instr: Instr::ORA, address_mode: AddressMode::INDX, cycles: 6 }),
        0x11 => Some(Instruction { instr: Instr::ORA, address_mode: AddressMode::INDY, cycles: 5 }),
        0x49 => Some(Instruction { instr: Instr::EOR, address_mode: AddressMode::IMM, cycles: 2 }),
        0x45 => Some(Instruction { instr: Instr::EOR, address_mode: AddressMode::ZP, cycles: 3 }),
        0x55 => Some(Instruction { instr: Instr::EOR, address_mode: AddressMode::ZPX, cycles: 4 }),
        0x4D => Some(Instruction { instr: Instr::EOR, address_mode: AddressMode::ABS, cycles: 4 }),
        0x5D => Some(Instruction { instr: Instr::EOR, address_mode: AddressMode::ABSX, cycles: 4 }),
        0x59 => Some(Instruction { instr: Instr::EOR, address_mode: AddressMode::ABSY, cycles: 4 }),
        0x41 => Some(Instruction { instr: Instr::EOR, address_mode: AddressMode::INDX, cycles: 6 }),
        0x51 => Some(Instruction { instr: Instr::EOR, address_mode: AddressMode::INDY, cycles: 5 }),
        0xC9 => Some(Instruction { instr: Instr::CMP, address_mode: AddressMode::IMM, cycles: 2 }),
        0xC5 => Some(Instruction { instr: Instr::CMP, address_mode: AddressMode::ZP, cycles: 3 }),
        0xD5 => Some(Instruction { instr: Instr::CMP, address_mode: AddressMode::ZPX, cycles: 4 }),
        0xCD => Some(Instruction { instr: Instr::CMP, address_mode: AddressMode::ABS, cycles: 4 }),
        0xDD => Some(Instruction { instr: Instr::CMP, address_mode: AddressMode::ABSX, cycles: 4 }),
        0xD9 => Some(Instruction { instr: Instr::CMP, address_mode: AddressMode::ABSY, cycles: 4 }),
        0xC1 => Some(Instruction { instr: Instr::CMP, address_mode: AddressMode::INDX, cycles: 6 }),
        0xD1 => Some(Instruction { instr: Instr::CMP, address_mode: AddressMode::INDY, cycles: 5 }),
        0xE0 => Some(Instruction { instr: Instr::CPX, address_mode: AddressMode::IMM, cycles: 2 }),
        0xE4 => Some(Instruction { instr: Instr::CPX, address_mode: AddressMode::ZP, cycles: 3 }),
        0xEC => Some(Instruction { instr: Instr::CPX, address_mode: AddressMode::ABS, cycles: 4 }),
        0xC0 => Some(Instruction { instr: Instr::CPY, address_mode: AddressMode::IMM, cycles: 2 }),
        0xC4 => Some(Instruction { instr: Instr::CPY, address_mode: AddressMode::ZP, cycles: 3 }),
        0xCC => Some(Instruction { instr: Instr::CPY, address_mode: AddressMode::ABS, cycles: 4 }),
        0x24 => Some(Instruction { instr: Instr::BIT, address_mode: AddressMode::ZP, cycles: 3 }),
        0x2C => Some(Instruction { instr: Instr::BIT, address_mode: AddressMode::ABS, cycles: 4 }),
        0x90 => Some(Instruction { instr: Instr::BCC, address_mode: AddressMode::REL, cycles: 2 }),
        0xB0 => Some(Instruction { instr: Instr::BCS, address_mode: AddressMode::REL, cycles: 2 }),
        0xF0 => Some(Instruction { instr: Instr::BEQ, address_mode: AddressMode::REL, cycles: 2 }),
        0x30 => Some(Instruction { instr: Instr::BMI, address_mode: AddressMode::REL, cycles: 2 }),
        0xD0 => Some(Instruction { instr: Instr::BNE, address_mode: AddressMode::REL, cycles: 2 }),
        0x10 => Some(Instruction { instr: Instr::BPL, address_mode: AddressMode::REL, cycles: 2 }),
        0x50 => Some(Instruction { instr: Instr::BVC, address_mode: AddressMode::REL, cycles: 2 }),
        0x70 => Some(Instruction { instr: Instr::BVS, address_mode: AddressMode::REL, cycles: 2 }),
        0xAA => Some(Instruction { instr: Instr::TAX, address_mode: AddressMode::IMP, cycles: 2 }),
        0x8A => Some(Instruction { instr: Instr::TXA, address_mode: AddressMode::IMP, cycles: 2 }),
        0xA8 => Some(Instruction { instr: Instr::TAY, address_mode: AddressMode::IMP, cycles: 2 }),
        0x98 => Some(Instruction { instr: Instr::TYA, address_mode: AddressMode::IMP, cycles: 2 }),
        0xBA => Some(Instruction { instr: Instr::TSX, address_mode: AddressMode::IMP, cycles: 2 }),
        0x9A => Some(Instruction { instr: Instr::TXS, address_mode: AddressMode::IMP, cycles: 2 }),
        0x48 => Some(Instruction { instr: Instr::PHA, address_mode: AddressMode::IMP, cycles: 3 }),
        0x68 => Some(Instruction { instr: Instr::PLA, address_mode: AddressMode::IMP, cycles: 4 }),
        0x08 => Some(Instruction { instr: Instr::PHP, address_mode: AddressMode::IMP, cycles: 3 }),
        0x28 => Some(Instruction { instr: Instr::PLP, address_mode: AddressMode::IMP, cycles: 4 }),
        0x4C => Some(Instruction { instr: Instr::JMP, address_mode: AddressMode::ABS, cycles: 3 }),
        0x6C => Some(Instruction { instr: Instr::JMP, address_mode: AddressMode::IND, cycles: 5 }),
        0x20 => Some(Instruction { instr: Instr::JSR, address_mode: AddressMode::ABS, cycles: 6 }),
        0x60 => Some(Instruction { instr: Instr::RTS, address_mode: AddressMode::IMP, cycles: 6 }),
        0x40 => Some(Instruction { instr: Instr::RTI, address_mode: AddressMode::IMP, cycles: 6 }),
        0x38 => Some(Instruction { instr: Instr::SEC, address_mode: AddressMode::IMP, cycles: 2 }),
        0xF8 => Some(Instruction { instr: Instr::SED, address_mode: AddressMode::IMP, cycles: 2 }),
        0x78 => Some(Instruction { instr: Instr::SEI, address_mode: AddressMode::IMP, cycles: 2 }),
        0x18 => Some(Instruction { instr: Instr::CLC, address_mode: AddressMode::IMP, cycles: 2 }),
        0xD8 => Some(Instruction { instr: Instr::CLD, address_mode: AddressMode::IMP, cycles: 2 }),
        0x58 => Some(Instruction { instr: Instr::CLI, address_mode: AddressMode::IMP, cycles: 2 }),
        0xB8 => Some(Instruction { instr: Instr::CLV, address_mode: AddressMode::IMP, cycles: 2 }),
        0xEA => Some(Instruction { instr: Instr::NOP, address_mode: AddressMode::IMP, cycles: 2 }),
        0x00 => Some(Instruction { instr: Instr::BRK, address_mode: AddressMode::IMP, cycles: 7 }),
        _ => None,
    }
}

/// Decodes one opcode byte. Pure and total: every byte value maps to
/// exactly one result, and the undefined values map to `None`.
pub fn decode(opcode: u8) -> (r: Option<Instruction>)
    ensures
        r == spec_decode(opcode),
{
    match opcode {
        0xA9 => Some(Instruction { instr: Instr::LDA, address_mode: AddressMode::IMM, cycles: 2 }),
        0xA5 => Some(Instruction { instr: Instr::LDA, address_mode: AddressMode::ZP, cycles: 3 }),
        0xB5 => Some(Instruction { instr: Instr::LDA, address_mode: AddressMode::ZPX, cycles: 4 }),
        0xAD => Some(Instruction { instr: Instr::LDA, address_mode: AddressMode::ABS, cycles: 4 }),
        0xBD => Some(Instruction { instr: Instr::LDA, address_mode: AddressMode::ABSX, cycles: 4 }),
        0xB9 => Some(Instruction { instr: Instr::LDA, address_mode: AddressMode::ABSY, cycles: 4 }),
        0xA1 => Some(Instruction { instr: Instr::LDA, address_mode: AddressMode::INDX, cycles: 6 }),
        0xB1 => Some(Instruction { instr: Instr::LDA, address_mode: AddressMode::INDY, cycles: 5 }),
        0xA2 => Some(Instruction { instr: Instr::LDX, address_mode: AddressMode::IMM, cycles: 2 }),
        0xA6 => Some(Instruction { instr: Instr::LDX, address_mode: AddressMode::ZP, cycles: 3 }),
        0xB6 => Some(Instruction { instr: Instr::LDX, address_mode: AddressMode::ZPY, cycles: 4 }),
        0xAE => Some(Instruction { instr: Instr::LDX, address_mode: AddressMode::ABS, cycles: 4 }),
        0xBE => Some(Instruction { instr: Instr::LDX, address_mode: AddressMode::ABSY, cycles: 4 }),
        0xA0 => Some(Instruction { instr: Instr::LDY, address_mode: AddressMode::IMM, cycles: 2 }),
        0xA4 => Some(Instruction { instr: Instr::LDY, address_mode: AddressMode::ZP, cycles: 3 }),
        0xB4 => Some(Instruction { instr: Instr::LDY, address_mode: AddressMode::ZPX, cycles: 4 }),
        0xAC => Some(Instruction { instr: Instr::LDY, address_mode: AddressMode::ABS, cycles: 4 }),
        0xBC => Some(Instruction { instr: Instr::LDY, address_mode: AddressMode::ABSX, cycles: 4 }),
        0x85 => Some(Instruction { instr: Instr::STA, address_mode: AddressMode::ZP, cycles: 3 }),
        0x95 => Some(Instruction { instr: Instr::STA, address_mode: AddressMode::ZPX, cycles: 4 }),
        0x8D => Some(Instruction { instr: Instr::STA, address_mode: AddressMode::ABS, cycles: 4 }),
        0x9D => Some(Instruction { instr: Instr::STA, address_mode: AddressMode::ABSX, cycles: 5 }),
        0x99 => Some(Instruction { instr: Instr::STA, address_mode: AddressMode::ABSY, cycles: 5 }),
        0x81 => Some(Instruction { instr: Instr::STA, address_mode: AddressMode::INDX, cycles: 6 }),
        0x91 => Some(Instruction { instr: Instr::STA, address_mode: AddressMode::INDY, cycles: 6 }),
        0x86 => Some(Instruction { instr: Instr::STX, address_mode: AddressMode::ZP, cycles: 3 }),
        0x96 => Some(Instruction { instr: Instr::STX, address_mode: AddressMode::ZPY, cycles: 4 }),
        0x8E => Some(Instruction { instr: Instr::STX, address_mode: AddressMode::ABS, cycles: 4 }),
        0x84 => Some(Instruction { instr: Instr::STY, address_mode: AddressMode::ZP, cycles: 3 }),
        0x94 => Some(Instruction { instr: Instr::STY, address_mode: AddressMode::ZPX, cycles: 4 }),
        0x8C => Some(Instruction { instr: Instr::STY, address_mode: AddressMode::ABS, cycles: 4 }),
        0x69 => Some(Instruction { instr: Instr::ADC, address_mode: AddressMode::IMM, cycles: 2 }),
        0x65 => Some(Instruction { instr: Instr::ADC, address_mode: AddressMode::ZP, cycles: 3 }),
        0x75 => Some(Instruction { instr: Instr::ADC, address_mode: AddressMode::ZPX, cycles: 4 }),
        0x6D => Some(Instruction { instr: Instr::ADC, address_mode: AddressMode::ABS, cycles: 4 }),
        0x7D => Some(Instruction { instr: Instr::ADC, address_mode: AddressMode::ABSX, cycles: 4 }),
        0x79 => Some(Instruction { instr: Instr::ADC, address_mode: AddressMode::ABSY, cycles: 4 }),
        0x61 => Some(Instruction { instr: Instr::ADC, address_mode: AddressMode::INDX, cycles: 6 }),
        0x71 => Some(Instruction { instr: Instr::ADC, address_mode: AddressMode::INDY, cycles: 5 }),
        0xE9 => Some(Instruction { instr: Instr::SBC, address_mode: AddressMode::IMM, cycles: 2 }),
        0xE5 => Some(Instruction { instr: Instr::SBC, address_mode: AddressMode::ZP, cycles: 3 }),
        0xF5 => Some(Instruction { instr: Instr::SBC, address_mode: AddressMode::ZPX, cycles: 4 }),
        0xED => Some(Instruction { instr: Instr::SBC, address_mode: AddressMode::ABS, cycles: 4 }),
        0xFD => Some(Instruction { instr: Instr::SBC, address_mode: AddressMode::ABSX, cycles: 4 }),
        0xF9 => Some(Instruction { instr: Instr::SBC, address_mode: AddressMode::ABSY, cycles: 4 }),
        0xE1 => Some(Instruction { instr: Instr::SBC, address_mode: AddressMode::INDX, cycles: 6 }),
        0xF1 => Some(Instruction { instr: Instr::SBC, address_mode: AddressMode::INDY, cycles: 5 }),
        0xE6 => Some(Instruction { instr: Instr::INC, address_mode: AddressMode::ZP, cycles: 5 }),
        0xF6 => Some(Instruction { instr: Instr::INC, address_mode: AddressMode::ZPX, cycles: 6 }),
        0xEE => Some(Instruction { instr: Instr::INC, address_mode: AddressMode::ABS, cycles: 6 }),
        0xFE => Some(Instruction { instr: Instr::INC, address_mode: AddressMode::ABSX, cycles: 7 }),
        0xE8 => Some(Instruction { instr: Instr::INX, address_mode: AddressMode::IMP, cycles: 2 }),
        0xC8 => Some(Instruction { instr: Instr::INY, address_mode: AddressMode::IMP, cycles: 2 }),
        0xC6 => Some(Instruction { instr: Instr::DEC, address_mode: AddressMode::ZP, cycles: 5 }),
        0xD6 => Some(Instruction { instr: Instr::DEC, address_mode: AddressMode::ZPX, cycles: 6 }),
        0xCE => Some(Instruction { instr: Instr::DEC, address_mode: AddressMode::ABS, cycles: 6 }),
        0xDE => Some(Instruction { instr: Instr::DEC, address_mode: AddressMode::ABSX, cycles: 7 }),
        0xCA => Some(Instruction { instr: Instr::DEX, address_mode: AddressMode::IMP, cycles: 2 }),
        0x88 => Some(Instruction { instr: Instr::DEY, address_mode: AddressMode::IMP, cycles: 2 }),
        0x0A => Some(Instruction { instr: Instr::ASL, address_mode: AddressMode::ACC, cycles: 2 }),
        0x06 => Some(Instruction { instr: Instr::ASL, address_mode: AddressMode::ZP, cycles: 5 }),
        0x16 => Some(Instruction { instr: Instr::ASL, address_mode: AddressMode::ZPX, cycles: 6 }),
        0x0E => Some(Instruction { instr: Instr::ASL, address_mode: AddressMode::ABS, cycles: 6 }),
        0x1E => Some(Instruction { instr: Instr::ASL, address_mode: AddressMode::ABSX, cycles: 7 }),
        0x4A => Some(Instruction { instr: Instr::LSR, address_mode: AddressMode::ACC, cycles: 2 }),
        0x46 => Some(Instruction { instr: Instr::LSR, address_mode: AddressMode::ZP, cycles: 5 }),
        0x56 => Some(Instruction { instr: Instr::LSR, address_mode: AddressMode::ZPX, cycles: 6 }),
        0x4E => Some(Instruction { instr: Instr::LSR, address_mode: AddressMode::ABS, cycles: 6 }),
        0x5E => Some(Instruction { instr: Instr::LSR, address_mode: AddressMode::ABSX, cycles: 7 }),
        0x2A => Some(Instruction { instr: Instr::ROL, address_mode: AddressMode::ACC, cycles: 2 }),
        0x26 => Some(Instruction { instr: Instr::ROL, address_mode: AddressMode::ZP, cycles: 5 }),
        0x36 => Some(Instruction { instr: Instr::ROL, address_mode: AddressMode::ZPX, cycles: 6 }),
        0x2E => Some(Instruction { instr: Instr::ROL, address_mode: AddressMode::ABS, cycles: 6 }),
        0x3E => Some(Instruction { instr: Instr::ROL, address_mode: AddressMode::ABSX, cycles: 7 }),
        0x6A => Some(Instruction { instr: Instr::ROR, address_mode: AddressMode::ACC, cycles: 2 }),
        0x66 => Some(Instruction { instr: Instr::ROR, address_mode: AddressMode::ZP, cycles: 5 }),
        0x76 => Some(Instruction { instr: Instr::ROR, address_mode: AddressMode::ZPX, cycles: 6 }),
        0x6E => Some(Instruction { instr: Instr::ROR, address_mode: AddressMode::ABS, cycles: 6 }),
        0x7E => Some(Instruction { instr: Instr::ROR, address_mode: AddressMode::ABSX, cycles: 7 }),
        0x29 => Some(Instruction { instr: Instr::AND, address_mode: AddressMode::IMM, cycles: 2 }),
        0x25 => Some(Instruction { instr: Instr::AND, address_mode: AddressMode::ZP, cycles: 3 }),
        0x35 => Some(Instruction { instr: Instr::AND, address_mode: AddressMode::ZPX, cycles: 4 }),
        0x2D => Some(Instruction { instr: Instr::AND, address_mode: AddressMode::ABS, cycles: 4 }),
        0x3D => Some(Instruction { instr: Instr::AND, address_mode: AddressMode::ABSX, cycles: 4 }),
        0x39 => Some(Instruction { instr: Instr::AND, address_mode: AddressMode::ABSY, cycles: 4 }),
        0x21 => Some(Instruction { instr: Instr::AND, address_mode: AddressMode::INDX, cycles: 6 }),
        0x31 => Some(Instruction { instr: Instr::AND, address_mode: AddressMode::INDY, cycles: 5 }),
        0x09 => Some(Instruction { instr: Instr::ORA, address_mode: AddressMode::IMM, cycles: 2 }),
        0x05 => Some(Instruction { instr: Instr::ORA, address_mode: AddressMode::ZP, cycles: 3 }),
        0x15 => Some(Instruction { instr: Instr::ORA, address_mode: AddressMode::ZPX, cycles: 4 }),
        0x0D => Some(Instruction { instr: Instr::ORA, address_mode: AddressMode::ABS, cycles: 4 }),
        0x1D => Some(Instruction { instr: Instr::ORA, address_mode: AddressMode::ABSX, cycles: 4 }),
        0x19 => Some(Instruction { instr: Instr::ORA, address_mode: AddressMode::ABSY, cycles: 4 }),
        0x01 => Some(Instruction { instr: Instr::ORA, address_mode: AddressMode::INDX, cycles: 6 }),
        0x11 => Some(Instruction { instr: Instr::ORA, address_mode: AddressMode::INDY, cycles: 5 }),
        0x49 => Some(Instruction { instr: Instr::EOR, address_mode: AddressMode::IMM, cycles: 2 }),
        0x45 => Some(Instruction { instr: Instr::EOR, address_mode: AddressMode::ZP, cycles: 3 }),
        0x55 => Some(Instruction { instr: Instr::EOR, address_mode: AddressMode::ZPX, cycles: 4 }),
        0x4D => Some(Instruction { instr: Instr::EOR, address_mode: AddressMode::ABS, cycles: 4 }),
        0x5D => Some(Instruction { instr: Instr::EOR, address_mode: AddressMode::ABSX, cycles: 4 }),
        0x59 => Some(Instruction { instr: Instr::EOR, address_mode: AddressMode::ABSY, cycles: 4 }),
        0x41 => Some(Instruction { instr: Instr::EOR, address_mode: AddressMode::INDX, cycles: 6 }),
        0x51 => Some(Instruction { instr: Instr::EOR, address_mode: AddressMode::INDY, cycles: 5 }),
        0xC9 => Some(Instruction { instr: Instr::CMP, address_mode: AddressMode::IMM, cycles: 2 }),
        0xC5 => Some(Instruction { instr: Instr::CMP, address_mode: AddressMode::ZP, cycles: 3 }),
        0xD5 => Some(Instruction { instr: Instr::CMP, address_mode: AddressMode::ZPX, cycles: 4 }),
        0xCD => Some(Instruction { instr: Instr::CMP, address_mode: AddressMode::ABS, cycles: 4 }),
        0xDD => Some(Instruction { instr: Instr::CMP, address_mode: AddressMode::ABSX, cycles: 4 }),
        0xD9 => Some(Instruction { instr: Instr::CMP, address_mode: AddressMode::ABSY, cycles: 4 }),
        0xC1 => Some(Instruction { instr: Instr::CMP, address_mode: AddressMode::INDX, cycles: 6 }),
        0xD1 => Some(Instruction { instr: Instr::CMP, address_mode: AddressMode::INDY, cycles: 5 }),
        0xE0 => Some(Instruction { instr: Instr::CPX, address_mode: AddressMode::IMM, cycles: 2 }),
        0xE4 => Some(Instruction { instr: Instr::CPX, address_mode: AddressMode::ZP, cycles: 3 }),
        0xEC => Some(Instruction { instr: Instr::CPX, address_mode: AddressMode::ABS, cycles: 4 }),
        0xC0 => Some(Instruction { instr: Instr::CPY, address_mode: AddressMode::IMM, cycles: 2 }),
        0xC4 => Some(Instruction { instr: Instr::CPY, address_mode: AddressMode::ZP, cycles: 3 }),
        0xCC => Some(Instruction { instr: Instr::CPY, address_mode: AddressMode::ABS, cycles: 4 }),
        0x24 => Some(Instruction { instr: Instr::BIT, address_mode: AddressMode::ZP, cycles: 3 }),
        0x2C => Some(Instruction { instr: Instr::BIT, address_mode: AddressMode::ABS, cycles: 4 }),
        0x90 => Some(Instruction { instr: Instr::BCC, address_mode: AddressMode::REL, cycles: 2 }),
        0xB0 => Some(Instruction { instr: Instr::BCS, address_mode: AddressMode::REL, cycles: 2 }),
        0xF0 => Some(Instruction { instr: Instr::BEQ, address_mode: AddressMode::REL, cycles: 2 }),
        0x30 => Some(Instruction { instr: Instr::BMI, address_mode: AddressMode::REL, cycles: 2 }),
        0xD0 => Some(Instruction { instr: Instr::BNE, address_mode: AddressMode::REL, cycles: 2 }),
        0x10 => Some(Instruction { instr: Instr::BPL, address_mode: AddressMode::REL, cycles: 2 }),
        0x50 => Some(Instruction { instr: Instr::BVC, address_mode: AddressMode::REL, cycles: 2 }),
        0x70 => Some(Instruction { instr: Instr::BVS, address_mode: AddressMode::REL, cycles: 2 }),
        0xAA => Some(Instruction { instr: Instr::TAX, address_mode: AddressMode::IMP, cycles: 2 }),
        0x8A => Some(Instruction { instr: Instr::TXA, address_mode: AddressMode::IMP, cycles: 2 }),
        0xA8 => Some(Instruction { instr: Instr::TAY, address_mode: AddressMode::IMP, cycles: 2 }),
        0x98 => Some(Instruction { instr: Instr::TYA, address_mode: AddressMode::IMP, cycles: 2 }),
        0xBA => Some(Instruction { instr: Instr::TSX, address_mode: AddressMode::IMP, cycles: 2 }),
        0x9A => Some(Instruction { instr: Instr::TXS, address_mode: AddressMode::IMP, cycles: 2 }),
        0x48 => Some(Instruction { instr: Instr::PHA, address_mode: AddressMode::IMP, cycles: 3 }),
        0x68 => Some(Instruction { instr: Instr::PLA, address_mode: AddressMode::IMP, cycles: 4 }),
        0x08 => Some(Instruction { instr: Instr::PHP, address_mode: AddressMode::IMP, cycles: 3 }),
        0x28 => Some(Instruction { instr: Instr::PLP, address_mode: AddressMode::IMP, cycles: 4 }),
        0x4C => Some(Instruction { instr: Instr::JMP, address_mode: AddressMode::ABS, cycles: 3 }),
        0x6C => Some(Instruction { instr: Instr::JMP, address_mode: AddressMode::IND, cycles: 5 }),
        0x20 => Some(Instruction { instr: Instr::JSR, address_mode: AddressMode::ABS, cycles: 6 }),
        0x60 => Some(Instruction { instr: Instr::RTS, address_mode: AddressMode::IMP, cycles: 6 }),
        0x40 => Some(Instruction { instr: Instr::RTI, address_mode: AddressMode::IMP, cycles: 6 }),
        0x38 => Some(Instruction { instr: Instr::SEC, address_mode: AddressMode::IMP, cycles: 2 }),
        0xF8 => Some(Instruction { instr: Instr::SED, address_mode: AddressMode::IMP, cycles: 2 }),
        0x78 => Some(Instruction { instr: Instr::SEI, address_mode: AddressMode::IMP, cycles: 2 }),
        0x18 => Some(Instruction { instr: Instr::CLC, address_mode: AddressMode::IMP, cycles: 2 }),
        0xD8 => Some(Instruction { instr: Instr::CLD, address_mode: AddressMode::IMP, cycles: 2 }),
        0x58 => Some(Instruction { instr: Instr::CLI, address_mode: AddressMode::IMP, cycles: 2 }),
        0xB8 => Some(Instruction { instr: Instr::CLV, address_mode: AddressMode::IMP, cycles: 2 }),
        0xEA => Some(Instruction { instr: Instr::NOP, address_mode: AddressMode::IMP, cycles: 2 }),
        0x00 => Some(Instruction { instr: Instr::BRK, address_mode: AddressMode::IMP, cycles: 7 }),
        _ => None,
    }
}

/// Decode totality: every opcode byte maps to exactly one result, and every
/// defined opcode carries a real mnemonic, a real addressing mode, and a
/// base cycle count from the published range; the explicit sentinels stand
/// only for the undefined byte values, which decode to `None`.
pub proof fn lemma_decode_well_formed(opcode: u8)
    ensures
        spec_decode(opcode) matches Some(i) ==> {
            &&& i.instr != Instr::INSTR_NONE
            &&& i.address_mode != AddressMode::ADDRESS_MODE_NONE
            &&& 2 <= i.cycles <= 7
        },
{
}

impl Instruction {
    /// The instruction a defined opcode decodes to. Callers must rule out
    /// the undefined byte values first (`decode` reports them as `None`).
    pub fn new(opcode: u8) -> (r: Instruction)
        requires
            spec_decode(opcode) is Some,
        ensures
            Some(r) == spec_decode(opcode),
    {
        decode(opcode).unwrap()
    }
}

} // verus!
