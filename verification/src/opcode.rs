//! The opcode decode table: the dense 256-entry lookup that binds each
//! opcode byte to its mnemonic and addressing mode, and is the single
//! source of truth for which bytes are documented instructions.

use vstd::prelude::*;

use crate::instructions::{AddressMode, Mnemonic};

verus! {

/// One decoded instruction: its mnemonic and its addressing mode.
#[derive(Clone, Copy, Debug, PartialEq, Eq, Structural)]
pub struct Instruction {
    pub name: Mnemonic,
    pub address_mode: AddressMode,
}

/// The decode table: the documented instruction an opcode byte denotes,
/// or nothing for the undocumented bytes.
pub open spec fn spec_decode(opcode: u8) -> Option<Instruction> {
    match opcode {
        0x00 => Some(
            Instruction { name: Mnemonic::BRK, address_mode: AddressMode::Implicit },
        ),
        0x01 => Some(
            Instruction { name: Mnemonic::ORA, address_mode: AddressMode::IndirectX },
        ),
        0x05 => Some(
            Instruction { name: Mnemonic::ORA, address_mode: AddressMode::ZeroPage },
        ),
        0x06 => Some(
            Instruction { name: Mnemonic::ASL, address_mode: AddressMode::ZeroPage },
        ),
        0x08 => Some(
            Instruction { name: Mnemonic::PHP, address_mode: AddressMode::Implicit },
        ),
        0x09 => Some(
            Instruction { name: Mnemonic::ORA, address_mode: AddressMode::Immediate },
        ),
        0x0A => Some(
            Instruction { name: Mnemonic::ASL, address_mode: AddressMode::Accumulator },
        ),
        0x0D => Some(
            Instruction { name: Mnemonic::ORA, address_mode: AddressMode::Absolute },
        ),
        0x0E => Some(
            Instruction { name: Mnemonic::ASL, address_mode: AddressMode::Absolute },
        ),
        0x10 => Some(
            Instruction { name: Mnemonic::BPL, address_mode: AddressMode::Relative },
        ),
        0x11 => Some(
            Instruction { name: Mnemonic::ORA, address_mode: AddressMode::IndirectY },
        ),
        0x15 => Some(
            Instruction { name: Mnemonic::ORA, address_mode: AddressMode::ZeroPageX },
        ),
        0x16 => Some(
            Instruction { name: Mnemonic::ASL, address_mode: AddressMode::ZeroPageX },
        ),
        0x18 => Some(
            Instruction { name: Mnemonic::CLC, address_mode: AddressMode::Implicit },
        ),
        0x19 => Some(
            Instruction { name: Mnemonic::ORA, address_mode: AddressMode::AbsoluteY },
        ),
        0x1D => Some(
            Instruction { name: Mnemonic::ORA, address_mode: AddressMode::AbsoluteX },
        ),
        0x1E => Some(
            Instruction { name: Mnemonic::ASL, address_mode: AddressMode::AbsoluteX },
        ),
        0x20 => Some(
            Instruction { name: Mnemonic::JSR, address_mode: AddressMode::Absolute },
        ),
        0x21 => Some(
            Instruction { name: Mnemonic::AND, address_mode: AddressMode::IndirectX },
        ),
        0x24 => Some(
            Instruction { name: Mnemonic::BIT, address_mode: AddressMode::ZeroPage },
        ),
        0x25 => Some(
            Instruction { name: Mnemonic::AND, address_mode: AddressMode::ZeroPage },
        ),
        0x26 => Some(
            Instruction { name: Mnemonic::ROL, address_mode: AddressMode::ZeroPage },
        ),
        0x28 => Some(
            Instruction { name: Mnemonic::PLP, address_mode: AddressMode::Implicit },
        ),
        0x29 => Some(
            Instruction { name: Mnemonic::AND, address_mode: AddressMode::Immediate },
        ),
        0x2A => Some(
            Instruction { name: Mnemonic::ROL, address_mode: AddressMode::Accumulator },
        ),
        0x2C => Some(
            Instruction { name: Mnemonic::BIT, address_mode: AddressMode::Absolute },
        ),
        0x2D => Some(
            Instruction { name: Mnemonic::AND, address_mode: AddressMode::Absolute },
        ),
        0x2E => Some(
            Instruction { name: Mnemonic::ROL, address_mode: AddressMode::Absolute },
        ),
        0x30 => Some(
            Instruction { name: Mnemonic::BMI, address_mode: AddressMode::Relative },
        ),
        0x31 => Some(
            Instruction { name: Mnemonic::AND, address_mode: AddressMode::IndirectY },
        ),
        0x35 => Some(
            Instruction { name: Mnemonic::AND, address_mode: AddressMode::ZeroPageX },
        ),
        0x36 => Some(
            Instruction { name: Mnemonic::ROL, address_mode: AddressMode::ZeroPageX },
        ),
        0x38 => Some(
            Instruction { name: Mnemonic::SEC, address_mode: AddressMode::Implicit },
        ),
        0x39 => Some(
            Instruction { name: Mnemonic::AND, address_mode: AddressMode::AbsoluteY },
        ),
        0x3D => Some(
            Instruction { name: Mnemonic::AND, address_mode: AddressMode::AbsoluteX },
        ),
        0x3E => Some(
            Instruction { name: Mnemonic::ROL, address_mode: AddressMode::AbsoluteX },
        ),
        0x40 => Some(
            Instruction { name: Mnemonic::RTI, address_mode: AddressMode::Implicit },
        ),
        0x41 => Some(
            Instruction { name: Mnemonic::EOR, address_mode: AddressMode::IndirectX },
        ),
        0x45 => Some(
            Instruction { name: Mnemonic::EOR, address_mode: AddressMode::ZeroPage },
        ),
        0x46 => Some(
            Instruction { name: Mnemonic::LSR, address_mode: AddressMode::ZeroPage },
        ),
        0x48 => Some(
            Instruction { name: Mnemonic::PHA, address_mode: AddressMode::Implicit },
        ),
        0x49 => Some(
            Instruction { name: Mnemonic::EOR, address_mode: AddressMode::Immediate },
        ),
        0x4A => Some(
            Instruction { name: Mnemonic::LSR, address_mode: AddressMode::Accumulator },
        ),
        0x4C => Some(
            Instruction { name: Mnemonic::JMP, address_mode: AddressMode::Absolute },
        ),
        0x4D => Some(
            Instruction { name: Mnemonic::EOR, address_mode: AddressMode::Absolute },
        ),
        0x4E => Some(
            Instruction { name: Mnemonic::LSR, address_mode: AddressMode::Absolute },
        ),
        0x50 => Some(
            Instruction { name: Mnemonic::BVC, address_mode: AddressMode::Relative },
        ),
        0x51 => Some(
            Instruction { name: Mnemonic::EOR, address_mode: AddressMode::IndirectY },
        ),
        0x55 => Some(
            Instruction { name: Mnemonic::EOR, address_mode: AddressMode::ZeroPageX },
        ),
        0x56 => Some(
            Instruction { name: Mnemonic::LSR, address_mode: AddressMode::ZeroPageX },
        ),
        0x58 => Some(
            Instruction { name: Mnemonic::CLI, address_mode: AddressMode::Implicit },
        ),
        0x59 => Some(
            Instruction { name: Mnemonic::EOR, address_mode: AddressMode::AbsoluteY },
        ),
        0x5D => Some(
            Instruction { name: Mnemonic::EOR, address_mode: AddressMode::AbsoluteX },
        ),
        0x5E => Some(
            Instruction { name: Mnemonic::LSR, address_mode: AddressMode::AbsoluteX },
        ),
        0x60 => Some(
            Instruction { name: Mnemonic::RTS, address_mode: AddressMode::Implicit },
        ),
        0x61 => Some(
            Instruction { name: Mnemonic::ADC, address_mode: AddressMode::IndirectX },
        ),
        0x65 => Some(
            Instruction { name: Mnemonic::ADC, address_mode: AddressMode::ZeroPage },
        ),
        0x66 => Some(
            Instruction { name: Mnemonic::ROR, address_mode: AddressMode::ZeroPage },
        ),
        0x68 => Some(
            Instruction { name: Mnemonic::PLA, address_mode: AddressMode::Implicit },
        ),
        0x69 => Some(
            Instruction { name: Mnemonic::ADC, address_mode: AddressMode::Immediate },
        ),
        0x6A => Some(
            Instruction { name: Mnemonic::ROR, address_mode: AddressMode::Accumulator },
        ),
        0x6C => Some(
            Instruction { name: Mnemonic::JMP, address_mode: AddressMode::Indirect },
        ),
        0x6D => Some(
            Instruction { name: Mnemonic::ADC, address_mode: AddressMode::Absolute },
        ),
        0x6E => Some(
            Instruction { name: Mnemonic::ROR, address_mode: AddressMode::Absolute },
        ),
        0x70 => Some(
            Instruction { name: Mnemonic::BVS, address_mode: AddressMode::Relative },
        ),
        0x71 => Some(
            Instruction { name: Mnemonic::ADC, address_mode: AddressMode::IndirectY },
        ),
        0x75 => Some(
            Instruction { name: Mnemonic::ADC, address_mode: AddressMode::ZeroPageX },
        ),
        0x76 => Some(
            Instruction { name: Mnemonic::ROR, address_mode: AddressMode::ZeroPageX },
        ),
        0x78 => Some(
            Instruction { name: Mnemonic::SEI, address_mode: AddressMode::Implicit },
        ),
        0x79 => Some(
            Instruction { name: Mnemonic::ADC, address_mode: AddressMode::AbsoluteY },
        ),
        0x7D => Some(
            Instruction { name: Mnemonic::ADC, address_mode: AddressMode::AbsoluteX },
        ),
        0x7E => Some(
            Instruction { name: Mnemonic::ROR, address_mode: AddressMode::AbsoluteX },
        ),
        0x81 => Some(
            Instruction { name: Mnemonic::STA, address_mode: AddressMode::IndirectX },
        ),
        0x84 => Some(
            Instruction { name: Mnemonic::STY, address_mode: AddressMode::ZeroPage },
        ),
        0x85 => Some(
            Instruction { name: Mnemonic::STA, address_mode: AddressMode::ZeroPage },
        ),
        0x86 => Some(
            Instruction { name: Mnemonic::STX, address_mode: AddressMode::ZeroPage },
        ),
        0x88 => Some(
            Instruction { name: Mnemonic::DEY, address_mode: AddressMode::Implicit },
        ),
        0x8A => Some(
            Instruction { name: Mnemonic::TXA, address_mode: AddressMode::Implicit },
        ),
        0x8C => Some(
            Instruction { name: Mnemonic::STY, address_mode: AddressMode::Absolute },
        ),
        0x8D => Some(
            Instruction { name: Mnemonic::STA, address_mode: AddressMode::Absolute },
        ),
        0x8E => Some(
            Instruction { name: Mnemonic::STX, address_mode: AddressMode::Absolute },
        ),
        0x90 => Some(
            Instruction { name: Mnemonic::BCC, address_mode: AddressMode::Relative },
        ),
        0x91 => Some(
            Instruction { name: Mnemonic::STA, address_mode: AddressMode::IndirectY },
        ),
        0x94 => Some(
            Instruction { name: Mnemonic::STY, address_mode: AddressMode::ZeroPageX },
        ),
        0x95 => Some(
            Instruction { name: Mnemonic::STA, address_mode: AddressMode::ZeroPageX },
        ),
        0x96 => Some(
            Instruction { name: Mnemonic::STX, address_mode: AddressMode::ZeroPageY },
        ),
        0x98 => Some(
            Instruction { name: Mnemonic::TYA, address_mode: AddressMode::Implicit },
        ),
        0x99 => Some(
            Instruction { name: Mnemonic::STA, address_mode: AddressMode::AbsoluteY },
        ),
        0x9A => Some(
            Instruction { name: Mnemonic::TXS, address_mode: AddressMode::Implicit },
        ),
        0x9D => Some(
            Instruction { name: Mnemonic::STA, address_mode: AddressMode::AbsoluteX },
        ),
        0xA0 => Some(
            Instruction { name: Mnemonic::LDY, address_mode: AddressMode::Immediate },
        ),
        0xA1 => Some(
            Instruction { name: Mnemonic::LDA, address_mode: AddressMode::IndirectX },
        ),
        0xA2 => Some(
            Instruction { name: Mnemonic::LDX, address_mode: AddressMode::Immediate },
        ),
        0xA4 => Some(
            Instruction { name: Mnemonic::LDY, address_mode: AddressMode::ZeroPage },
        ),
        0xA5 => Some(
            Instruction { name: Mnemonic::LDA, address_mode: AddressMode::ZeroPage },
        ),
        0xA6 => Some(
            Instruction { name: Mnemonic::LDX, address_mode: AddressMode::ZeroPage },
        ),
        0xA8 => Some(
            Instruction { name: Mnemonic::TAY, address_mode: AddressMode::Implicit },
        ),
        0xA9 => Some(
            Instruction { name: Mnemonic::LDA, address_mode: AddressMode::Immediate },
        ),
        0xAA => Some(
            Instruction { name: Mnemonic::TAX, address_mode: AddressMode::Implicit },
        ),
        0xAC => Some(
            Instruction { name: Mnemonic::LDY, address_mode: AddressMode::Absolute },
        ),
        0xAD => Some(
            Instruction { name: Mnemonic::LDA, address_mode: AddressMode::Absolute },
        ),
        0xAE => Some(
            Instruction { name: Mnemonic::LDX, address_mode: AddressMode::Absolute },
        ),
        0xB0 => Some(
            Instruction { name: Mnemonic::BCS, address_mode: AddressMode::Relative },
        ),
        0xB1 => Some(
            Instruction { name: Mnemonic::LDA, address_mode: AddressMode::IndirectY },
        ),
        0xB4 => Some(
            Instruction { name: Mnemonic::LDY, address_mode: AddressMode::ZeroPageX },
        ),
        0xB5 => Some(
            Instruction { name: Mnemonic::LDA, address_mode: AddressMode::ZeroPageX },
        ),
        0xB6 => Some(
            Instruction { name: Mnemonic::LDX, address_mode: AddressMode::ZeroPageY },
        ),
        0xB8 => Some(
            Instruction { name: Mnemonic::CLV, address_mode: AddressMode::Implicit },
        ),
        0xB9 => Some(
            Instruction { name: Mnemonic::LDA, address_mode: AddressMode::AbsoluteY },
        ),
        0xBA => Some(
            Instruction { name: Mnemonic::TSX, address_mode: AddressMode::Implicit },
        ),
        0xBC => Some(
            Instruction { name: Mnemonic::LDY, address_mode: AddressMode::AbsoluteX },
        ),
        0xBD => Some(
            Instruction { name: Mnemonic::LDA, address_mode: AddressMode::AbsoluteX },
        ),
        0xBE => Some(
            Instruction { name: Mnemonic::LDX, address_mode: AddressMode::AbsoluteY },
        ),
        0xC0 => Some(
            Instruction { name: Mnemonic::CPY, address_mode: AddressMode::Immediate },
        ),
        0xC1 => Some(
            Instruction { name: Mnemonic::CMP, address_mode: AddressMode::IndirectX },
        ),
        0xC4 => Some(
            Instruction { name: Mnemonic::CPY, address_mode: AddressMode::ZeroPage },
        ),
        0xC5 => Some(
            Instruction { name: Mnemonic::CMP, address_mode: AddressMode::ZeroPage },
        ),
        0xC6 => Some(
            Instruction { name: Mnemonic::DEC, address_mode: AddressMode::ZeroPage },
        ),
        0xC8 => Some(
            Instruction { name: Mnemonic::INY, address_mode: AddressMode::Implicit },
        ),
        0xC9 => Some(
            Instruction { name: Mnemonic::CMP, address_mode: AddressMode::Immediate },
        ),
        0xCA => Some(
            Instruction { name: Mnemonic::DEX, address_mode: AddressMode::Implicit },
        ),
        0xCC => Some(
            Instruction { name: Mnemonic::CPY, address_mode: AddressMode::Absolute },
        ),
        0xCD => Some(
            Instruction { name: Mnemonic::CMP, address_mode: AddressMode::Absolute },
        ),
        0xCE => Some(
            Instruction { name: Mnemonic::DEC, address_mode: AddressMode::Absolute },
        ),
        0xD0 => Some(
            Instruction { name: Mnemonic::BNE, address_mode: AddressMode::Relative },
        ),
        0xD1 => Some(
            Instruction { name: Mnemonic::CMP, address_mode: AddressMode::IndirectY },
        ),
        0xD5 => Some(
            Instruction { name: Mnemonic::CMP, address_mode: AddressMode::ZeroPageX },
        ),
        0xD6 => Some(
            Instruction { name: Mnemonic::DEC, address_mode: AddressMode::ZeroPageX },
        ),
        0xD8 => Some(
            Instruction { name: Mnemonic::CLD, address_mode: AddressMode::Implicit },
        ),
        0xD9 => Some(
            Instruction { name: Mnemonic::CMP, address_mode: AddressMode::AbsoluteY },
        ),
        0xDD => Some(
            Instruction { name: Mnemonic::CMP, address_mode: AddressMode::AbsoluteX },
        ),
        0xDE => Some(
            Instruction { name: Mnemonic::DEC, address_mode: AddressMode::AbsoluteX },
        ),
        0xE0 => Some(
            Instruction { name: Mnemonic::CPX, address_mode: AddressMode::Immediate },
        ),
        0xE1 => Some(
            Instruction { name: Mnemonic::SBC, address_mode: AddressMode::IndirectX },
        ),
        0xE4 => Some(
            Instruction { name: Mnemonic::CPX, address_mode: AddressMode::ZeroPage },
        ),
        0xE5 => Some(
            Instruction { name: Mnemonic::SBC, address_mode: AddressMode::ZeroPage },
        ),
        0xE6 => Some(
            Instruction { name: Mnemonic::INC, address_mode: AddressMode::ZeroPage },
        ),
        0xE8 => Some(
            Instruction { name: Mnemonic::INX, address_mode: AddressMode::Implicit },
        ),
        0xE9 => Some(
            Instruction { name: Mnemonic::SBC, address_mode: AddressMode::Immediate },
        ),
        0xEA => Some(
            Instruction { name: Mnemonic::NOP, address_mode: AddressMode::Implicit },
        ),
        0xEC => Some(
            Instruction { name: Mnemonic::CPX, address_mode: AddressMode::Absolute },
        ),
        0xED => Some(
            Instruction { name: Mnemonic::SBC, address_mode: AddressMode::Absolute },
        ),
        0xEE => Some(
            Instruction { name: Mnemonic::INC, address_mode: AddressMode::Absolute },
        ),
        0xF0 => Some(
            Instruction { name: Mnemonic::BEQ, address_mode: AddressMode::Relative },
        ),
        0xF1 => Some(
            Instruction { name: Mnemonic::SBC, address_mode: AddressMode::IndirectY },
        ),
        0xF5 => Some(
            Instruction { name: Mnemonic::SBC, address_mode: AddressMode::ZeroPageX },
        ),
        0xF6 => Some(
            Instruction { name: Mnemonic::INC, address_mode: AddressMode::ZeroPageX },
        ),
        0xF8 => Some(
            Instruction { name: Mnemonic::SED, address_mode: AddressMode::Implicit },
        ),
        0xF9 => Some(
            Instruction { name: Mnemonic::SBC, address_mode: AddressMode::AbsoluteY },
        ),
        0xFD => Some(
            Instruction { name: Mnemonic::SBC, address_mode: AddressMode::AbsoluteX },
        ),
        0xFE => Some(
            Instruction { name: Mnemonic::INC, address_mode: AddressMode::AbsoluteX },
        ),
        _ => None,
    }
}

/// Every documented opcode's base cycle cost is at least two.
#[verifier::rlimit(60)]
#[verifier::spinoff_prover]
pub proof fn lemma_decoded_cycles(opcode: u8)
    ensures
        match spec_decode(opcode) {
            Some(i) => crate::instructions::base_cycles(i.name, i.address_mode) >= 2,
            None => true,
        },
{
}

/// Look an opcode byte up in the decode table.
pub fn get_instruction(opcode: u8) -> (r: Option<Instruction>)
    ensures
        r == spec_decode(opcode),
{
    match opcode {
        0x00 => Some(
            Instruction { name: Mnemonic::BRK, address_mode: AddressMode::Implicit },
        ),
        0x01 => Some(
            Instruction { name: Mnemonic::ORA, address_mode: AddressMode::IndirectX },
        ),
        0x05 => Some(
            Instruction { name: Mnemonic::ORA, address_mode: AddressMode::ZeroPage },
        ),
        0x06 => Some(
            Instruction { name: Mnemonic::ASL, address_mode: AddressMode::ZeroPage },
        ),
        0x08 => Some(
            Instruction { name: Mnemonic::PHP, address_mode: AddressMode::Implicit },
        ),
        0x09 => Some(
            Instruction { name: Mnemonic::ORA, address_mode: AddressMode::Immediate },
        ),
        0x0A => Some(
            Instruction { name: Mnemonic::ASL, address_mode: AddressMode::Accumulator },
        ),
        0x0D => Some(
            Instruction { name: Mnemonic::ORA, address_mode: AddressMode::Absolute },
        ),
        0x0E => Some(
            Instruction { name: Mnemonic::ASL, address_mode: AddressMode::Absolute },
        ),
        0x10 => Some(
            Instruction { name: Mnemonic::BPL, address_mode: AddressMode::Relative },
        ),
        0x11 => Some(
            Instruction { name: Mnemonic::ORA, address_mode: AddressMode::IndirectY },
        ),
        0x15 => Some(
            Instruction { name: Mnemonic::ORA, address_mode: AddressMode::ZeroPageX },
        ),
        0x16 => Some(
            Instruction { name: Mnemonic::ASL, address_mode: AddressMode::ZeroPageX },
        ),
        0x18 => Some(
            Instruction { name: Mnemonic::CLC, address_mode: AddressMode::Implicit },
        ),
        0x19 => Some(
            Instruction { name: Mnemonic::ORA, address_mode: AddressMode::AbsoluteY },
        ),
        0x1D => Some(
            Instruction { name: Mnemonic::ORA, address_mode: AddressMode::AbsoluteX },
        ),
        0x1E => Some(
            Instruction { name: Mnemonic::ASL, address_mode: AddressMode::AbsoluteX },
        ),
        0x20 => Some(
            Instruction { name: Mnemonic::JSR, address_mode: AddressMode::Absolute },
        ),
        0x21 => Some(
            Instruction { name: Mnemonic::AND, address_mode: AddressMode::IndirectX },
        ),
        0x24 => Some(
            Instruction { name: Mnemonic::BIT, address_mode: AddressMode::ZeroPage },
        ),
        0x25 => Some(
            Instruction { name: Mnemonic::AND, address_mode: AddressMode::ZeroPage },
        ),
        0x26 => Some(
            Instruction { name: Mnemonic::ROL, address_mode: AddressMode::ZeroPage },
        ),
        0x28 => Some(
            Instruction { name: Mnemonic::PLP, address_mode: AddressMode::Implicit },
        ),
        0x29 => Some(
            Instruction { name: Mnemonic::AND, address_mode: AddressMode::Immediate },
        ),
        0x2A => Some(
            Instruction { name: Mnemonic::ROL, address_mode: AddressMode::Accumulator },
        ),
        0x2C => Some(
            Instruction { name: Mnemonic::BIT, address_mode: AddressMode::Absolute },
        ),
        0x2D => Some(
            Instruction { name: Mnemonic::AND, address_mode: AddressMode::Absolute },
        ),
        0x2E => Some(
            Instruction { name: Mnemonic::ROL, address_mode: AddressMode::Absolute },
        ),
        0x30 => Some(
            Instruction { name: Mnemonic::BMI, address_mode: AddressMode::Relative },
        ),
        0x31 => Some(
            Instruction { name: Mnemonic::AND, address_mode: AddressMode::IndirectY },
        ),
        0x35 => Some(
            Instruction { name: Mnemonic::AND, address_mode: AddressMode::ZeroPageX },
        ),
        0x36 => Some(
            Instruction { name: Mnemonic::ROL, address_mode: AddressMode::ZeroPageX },
        ),
        0x38 => Some(
            Instruction { name: Mnemonic::SEC, address_mode: AddressMode::Implicit },
        ),
        0x39 => Some(
            Instruction { name: Mnemonic::AND, address_mode: AddressMode::AbsoluteY },
        ),
        0x3D => Some(
            Instruction { name: Mnemonic::AND, address_mode: AddressMode::AbsoluteX },
        ),
        0x3E => Some(
            Instruction { name: Mnemonic::ROL, address_mode: AddressMode::AbsoluteX },
        ),
        0x40 => Some(
            Instruction { name: Mnemonic::RTI, address_mode: AddressMode::Implicit },
        ),
        0x41 => Some(
            Instruction { name: Mnemonic::EOR, address_mode: AddressMode::IndirectX },
        ),
        0x45 => Some(
            Instruction { name: Mnemonic::EOR, address_mode: AddressMode::ZeroPage },
        ),
        0x46 => Some(
            Instruction { name: Mnemonic::LSR, address_mode: AddressMode::ZeroPage },
        ),
        0x48 => Some(
            Instruction { name: Mnemonic::PHA, address_mode: AddressMode::Implicit },
        ),
        0x49 => Some(
            Instruction { name: Mnemonic::EOR, address_mode: AddressMode::Immediate },
        ),
        0x4A => Some(
            Instruction { name: Mnemonic::LSR, address_mode: AddressMode::Accumulator },
        ),
        0x4C => Some(
            Instruction { name: Mnemonic::JMP, address_mode: AddressMode::Absolute },
        ),
        0x4D => Some(
            Instruction { name: Mnemonic::EOR, address_mode: AddressMode::Absolute },
        ),
        0x4E => Some(
            Instruction { name: Mnemonic::LSR, address_mode: AddressMode::Absolute },
        ),
        0x50 => Some(
            Instruction { name: Mnemonic::BVC, address_mode: AddressMode::Relative },
        ),
        0x51 => Some(
            Instruction { name: Mnemonic::EOR, address_mode: AddressMode::IndirectY },
        ),
        0x55 => Some(
            Instruction { name: Mnemonic::EOR, address_mode: AddressMode::ZeroPageX },
        ),
        0x56 => Some(
            Instruction { name: Mnemonic::LSR, address_mode: AddressMode::ZeroPageX },
        ),
        0x58 => Some(
            Instruction { name: Mnemonic::CLI, address_mode: AddressMode::Implicit },
        ),
        0x59 => Some(
            Instruction { name: Mnemonic::EOR, address_mode: AddressMode::AbsoluteY },
        ),
        0x5D => Some(
            Instruction { name: Mnemonic::EOR, address_mode: AddressMode::AbsoluteX },
        ),
        0x5E => Some(
            Instruction { name: Mnemonic::LSR, address_mode: AddressMode::AbsoluteX },
        ),
        0x60 => Some(
            Instruction { name: Mnemonic::RTS, address_mode: AddressMode::Implicit },
        ),
        0x61 => Some(
            Instruction { name: Mnemonic::ADC, address_mode: AddressMode::IndirectX },
        ),
        0x65 => Some(
            Instruction { name: Mnemonic::ADC, address_mode: AddressMode::ZeroPage },
        ),
        0x66 => Some(
            Instruction { name: Mnemonic::ROR, address_mode: AddressMode::ZeroPage },
        ),
        0x68 => Some(
            Instruction { name: Mnemonic::PLA, address_mode: AddressMode::Implicit },
        ),
        0x69 => Some(
            Instruction { name: Mnemonic::ADC, address_mode: AddressMode::Immediate },
        ),
        0x6A => Some(
            Instruction { name: Mnemonic::ROR, address_mode: AddressMode::Accumulator },
        ),
        0x6C => Some(
            Instruction { name: Mnemonic::JMP, address_mode: AddressMode::Indirect },
        ),
        0x6D => Some(
            Instruction { name: Mnemonic::ADC, address_mode: AddressMode::Absolute },
        ),
        0x6E => Some(
            Instruction { name: Mnemonic::ROR, address_mode: AddressMode::Absolute },
        ),
        0x70 => Some(
            Instruction { name: Mnemonic::BVS, address_mode: AddressMode::Relative },
        ),
        0x71 => Some(
            Instruction { name: Mnemonic::ADC, address_mode: AddressMode::IndirectY },
        ),
        0x75 => Some(
            Instruction { name: Mnemonic::ADC, address_mode: AddressMode::ZeroPageX },
        ),
        0x76 => Some(
            Instruction { name: Mnemonic::ROR, address_mode: AddressMode::ZeroPageX },
        ),
        0x78 => Some(
            Instruction { name: Mnemonic::SEI, address_mode: AddressMode::Implicit },
        ),
        0x79 => Some(
            Instruction { name: Mnemonic::ADC, address_mode: AddressMode::AbsoluteY },
        ),
        0x7D => Some(
            Instruction { name: Mnemonic::ADC, address_mode: AddressMode::AbsoluteX },
        ),
        0x7E => Some(
            Instruction { name: Mnemonic::ROR, address_mode: AddressMode::AbsoluteX },
        ),
        0x81 => Some(
            Instruction { name: Mnemonic::STA, address_mode: AddressMode::IndirectX },
        ),
        0x84 => Some(
            Instruction { name: Mnemonic::STY, address_mode: AddressMode::ZeroPage },
        ),
        0x85 => Some(
            Instruction { name: Mnemonic::STA, address_mode: AddressMode::ZeroPage },
        ),
        0x86 => Some(
            Instruction { name: Mnemonic::STX, address_mode: AddressMode::ZeroPage },
        ),
        0x88 => Some(
            Instruction { name: Mnemonic::DEY, address_mode: AddressMode::Implicit },
        ),
        0x8A => Some(
            Instruction { name: Mnemonic::TXA, address_mode: AddressMode::Implicit },
        ),
        0x8C => Some(
            Instruction { name: Mnemonic::STY, address_mode: AddressMode::Absolute },
        ),
        0x8D => Some(
            Instruction { name: Mnemonic::STA, address_mode: AddressMode::Absolute },
        ),
        0x8E => Some(
            Instruction { name: Mnemonic::STX, address_mode: AddressMode::Absolute },
        ),
        0x90 => Some(
            Instruction { name: Mnemonic::BCC, address_mode: AddressMode::Relative },
        ),
        0x91 => Some(
            Instruction { name: Mnemonic::STA, address_mode: AddressMode::IndirectY },
        ),
        0x94 => Some(
            Instruction { name: Mnemonic::STY, address_mode: AddressMode::ZeroPageX },
        ),
        0x95 => Some(
            Instruction { name: Mnemonic::STA, address_mode: AddressMode::ZeroPageX },
        ),
        0x96 => Some(
            Instruction { name: Mnemonic::STX, address_mode: AddressMode::ZeroPageY },
        ),
        0x98 => Some(
            Instruction { name: Mnemonic::TYA, address_mode: AddressMode::Implicit },
        ),
        0x99 => Some(
            Instruction { name: Mnemonic::STA, address_mode: AddressMode::AbsoluteY },
        ),
        0x9A => Some(
            Instruction { name: Mnemonic::TXS, address_mode: AddressMode::Implicit },
        ),
        0x9D => Some(
            Instruction { name: Mnemonic::STA, address_mode: AddressMode::AbsoluteX },
        ),
        0xA0 => Some(
            Instruction { name: Mnemonic::LDY, address_mode: AddressMode::Immediate },
        ),
        0xA1 => Some(
            Instruction { name: Mnemonic::LDA, address_mode: AddressMode::IndirectX },
        ),
        0xA2 => Some(
            Instruction { name: Mnemonic::LDX, address_mode: AddressMode::Immediate },
        ),
        0xA4 => Some(
            Instruction { name: Mnemonic::LDY, address_mode: AddressMode::ZeroPage },
        ),
        0xA5 => Some(
            Instruction { name: Mnemonic::LDA, address_mode: AddressMode::ZeroPage },
        ),
        0xA6 => Some(
            Instruction { name: Mnemonic::LDX, address_mode: AddressMode::ZeroPage },
        ),
        0xA8 => Some(
            Instruction { name: Mnemonic::TAY, address_mode: AddressMode::Implicit },
        ),
        0xA9 => Some(
            Instruction { name: Mnemonic::LDA, address_mode: AddressMode::Immediate },
        ),
        0xAA => Some(
            Instruction { name: Mnemonic::TAX, address_mode: AddressMode::Implicit },
        ),
        0xAC => Some(
            Instruction { name: Mnemonic::LDY, address_mode: AddressMode::Absolute },
        ),
        0xAD => Some(
            Instruction { name: Mnemonic::LDA, address_mode: AddressMode::Absolute },
        ),
        0xAE => Some(
            Instruction { name: Mnemonic::LDX, address_mode: AddressMode::Absolute },
        ),
        0xB0 => Some(
            Instruction { name: Mnemonic::BCS, address_mode: AddressMode::Relative },
        ),
        0xB1 => Some(
            Instruction { name: Mnemonic::LDA, address_mode: AddressMode::IndirectY },
        ),
        0xB4 => Some(
            Instruction { name: Mnemonic::LDY, address_mode: AddressMode::ZeroPageX },
        ),
        0xB5 => Some(
            Instruction { name: Mnemonic::LDA, address_mode: AddressMode::ZeroPageX },
        ),
        0xB6 => Some(
            Instruction { name: Mnemonic::LDX, address_mode: AddressMode::ZeroPageY },
        ),
        0xB8 => Some(
            Instruction { name: Mnemonic::CLV, address_mode: AddressMode::Implicit },
        ),
        0xB9 => Some(
            Instruction { name: Mnemonic::LDA, address_mode: AddressMode::AbsoluteY },
        ),
        0xBA => Some(
            Instruction { name: Mnemonic::TSX, address_mode: AddressMode::Implicit },
        ),
        0xBC => Some(
            Instruction { name: Mnemonic::LDY, address_mode: AddressMode::AbsoluteX },
        ),
        0xBD => Some(
            Instruction { name: Mnemonic::LDA, address_mode: AddressMode::AbsoluteX },
        ),
        0xBE => Some(
            Instruction { name: Mnemonic::LDX, address_mode: AddressMode::AbsoluteY },
        ),
        0xC0 => Some(
            Instruction { name: Mnemonic::CPY, address_mode: AddressMode::Immediate },
        ),
        0xC1 => Some(
            Instruction { name: Mnemonic::CMP, address_mode: AddressMode::IndirectX },
        ),
        0xC4 => Some(
            Instruction { name: Mnemonic::CPY, address_mode: AddressMode::ZeroPage },
        ),
        0xC5 => Some(
            Instruction { name: Mnemonic::CMP, address_mode: AddressMode::ZeroPage },
        ),
        0xC6 => Some(
            Instruction { name: Mnemonic::DEC, address_mode: AddressMode::ZeroPage },
        ),
        0xC8 => Some(
            Instruction { name: Mnemonic::INY, address_mode: AddressMode::Implicit },
        ),
        0xC9 => Some(
            Instruction { name: Mnemonic::CMP, address_mode: AddressMode::Immediate },
        ),
        0xCA => Some(
            Instruction { name: Mnemonic::DEX, address_mode: AddressMode::Implicit },
        ),
        0xCC => Some(
            Instruction { name: Mnemonic::CPY, address_mode: AddressMode::Absolute },
        ),
        0xCD => Some(
            Instruction { name: Mnemonic::CMP, address_mode: AddressMode::Absolute },
        ),
        0xCE => Some(
            Instruction { name: Mnemonic::DEC, address_mode: AddressMode::Absolute },
        ),
        0xD0 => Some(
            Instruction { name: Mnemonic::BNE, address_mode: AddressMode::Relative },
        ),
        0xD1 => Some(
            Instruction { name: Mnemonic::CMP, address_mode: AddressMode::IndirectY },
        ),
        0xD5 => Some(
            Instruction { name: Mnemonic::CMP, address_mode: AddressMode::ZeroPageX },
        ),
        0xD6 => Some(
            Instruction { name: Mnemonic::DEC, address_mode: AddressMode::ZeroPageX },
        ),
        0xD8 => Some(
            Instruction { name: Mnemonic::CLD, address_mode: AddressMode::Implicit },
        ),
        0xD9 => Some(
            Instruction { name: Mnemonic::CMP, address_mode: AddressMode::AbsoluteY },
        ),
        0xDD => Some(
            Instruction { name: Mnemonic::CMP, address_mode: AddressMode::AbsoluteX },
        ),
        0xDE => Some(
            Instruction { name: Mnemonic::DEC, address_mode: AddressMode::AbsoluteX },
        ),
        0xE0 => Some(
            Instruction { name: Mnemonic::CPX, address_mode: AddressMode::Immediate },
        ),
        0xE1 => Some(
            Instruction { name: Mnemonic::SBC, address_mode: AddressMode::IndirectX },
        ),
        0xE4 => Some(
            Instruction { name: Mnemonic::CPX, address_mode: AddressMode::ZeroPage },
        ),
        0xE5 => Some(
            Instruction { name: Mnemonic::SBC, address_mode: AddressMode::ZeroPage },
        ),
        0xE6 => Some(
            Instruction { name: Mnemonic::INC, address_mode: AddressMode::ZeroPage },
        ),
        0xE8 => Some(
            Instruction { name: Mnemonic::INX, address_mode: AddressMode::Implicit },
        ),
        0xE9 => Some(
            Instruction { name: Mnemonic::SBC, address_mode: AddressMode::Immediate },
        ),
        0xEA => Some(
            Instruction { name: Mnemonic::NOP, address_mode: AddressMode::Implicit },
        ),
        0xEC => Some(
            Instruction { name: Mnemonic::CPX, address_mode: AddressMode::Absolute },
        ),
        0xED => Some(
            Instruction { name: Mnemonic::SBC, address_mode: AddressMode::Absolute },
        ),
        0xEE => Some(
            Instruction { name: Mnemonic::INC, address_mode: AddressMode::Absolute },
        ),
        0xF0 => Some(
            Instruction { name: Mnemonic::BEQ, address_mode: AddressMode::Relative },
        ),
        0xF1 => Some(
            Instruction { name: Mnemonic::SBC, address_mode: AddressMode::IndirectY },
        ),
        0xF5 => Some(
            Instruction { name: Mnemonic::SBC, address_mode: AddressMode::ZeroPageX },
        ),
        0xF6 => Some(
            Instruction { name: Mnemonic::INC, address_mode: AddressMode::ZeroPageX },
        ),
        0xF8 => Some(
            Instruction { name: Mnemonic::SED, address_mode: AddressMode::Implicit },
        ),
        0xF9 => Some(
            Instruction { name: Mnemonic::SBC, address_mode: AddressMode::AbsoluteY },
        ),
        0xFD => Some(
            Instruction { name: Mnemonic::SBC, address_mode: AddressMode::AbsoluteX },
        ),
        0xFE => Some(
            Instruction { name: Mnemonic::INC, address_mode: AddressMode::AbsoluteX },
        ),
        _ => None,
    }
}

} // verus!
