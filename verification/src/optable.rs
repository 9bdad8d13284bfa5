//! The reference opcode table: the total mapping from each of the 256 raw
//! opcode byte values to its mnemonic, base cycle count, addressing mode and
//! the register sets the instruction reads and writes.
//!
//! This table is the specification the executable decoder is proved against;
//! it transcribes the documented 6502 opcode matrix, including the
//! undocumented opcodes. Cycle counts are the base counts of the reference:
//! the conditional extra cycle of a taken branch or a crossed page boundary
//! is never folded in, only marked as possible through the addressing mode's
//! extra-cycle eligibility.

use vstd::prelude::*;

use crate::opcode::{AddrMode, CPURegister, OpCode};

verus! {

/// Everything the opcode byte alone determines about an instruction.
pub ghost struct OpInfo {
    /// The mnemonic, carrying the raw byte.
    pub opcode: OpCode,
    /// The base cycle count, independent of any extra-cycle condition.
    pub cycles: u8,
    /// The addressing mode, with extra-cycle eligibility where it applies.
    pub mode: AddrMode,
    /// The registers the instruction consumes; `None` means none modeled.
    pub reads: Option<Seq<CPURegister>>,
    /// The registers the instruction produces; `None` means none modeled.
    pub writes: Option<Seq<CPURegister>>,
}

/// The opcode decode table, total over all 256 byte values.
pub open spec fn op_info(b: u8) -> OpInfo {
    match b {
        0x00 => OpInfo {
            opcode: OpCode::BRK(b),
            cycles: 7,
            mode: AddrMode::Implied,
            reads: None,
            writes: None,
        },
        0x01 => OpInfo {
            opcode: OpCode::ORA(b),
            cycles: 6,
            mode: AddrMode::IndexedIndirectX,
            reads: Some(seq![CPURegister::A, CPURegister::X]),
            writes: Some(seq![CPURegister::A]),
        },
        0x02 => OpInfo {
            opcode: OpCode::HLT(b),
            cycles: 1,
            mode: AddrMode::Implied,
            reads: None,
            writes: None,
        },
        0x03 => OpInfo {
            opcode: OpCode::SLO(b),
            cycles: 8,
            mode: AddrMode::IndexedIndirectX,
            reads: Some(seq![CPURegister::A, CPURegister::X]),
            writes: Some(seq![CPURegister::A]),
        },
        0x04 => OpInfo {
            opcode: OpCode::NOP(b),
            cycles: 3,
            mode: AddrMode::Zeropage,
            reads: None,
            writes: None,
        },
        0x05 => OpInfo {
            opcode: OpCode::ORA(b),
            cycles: 3,
            mode: AddrMode::Zeropage,
            reads: Some(seq![CPURegister::A]),
            writes: Some(seq![CPURegister::A]),
        },
        0x06 => OpInfo {
            opcode: OpCode::ASL(b),
            cycles: 5,
            mode: AddrMode::Zeropage,
            reads: None,
            writes: None,
        },
        0x07 => OpInfo {
            opcode: OpCode::SLO(b),
            cycles: 5,
            mode: AddrMode::Zeropage,
            reads: Some(seq![CPURegister::A]),
            writes: Some(seq![CPURegister::A]),
        },
        0x08 => OpInfo {
            opcode: OpCode::PHP(b),
            cycles: 3,
            mode: AddrMode::Implied,
            reads: None,
            writes: None,
        },
        0x09 => OpInfo {
            opcode: OpCode::ORA(b),
            cycles: 2,
            mode: AddrMode::Immediate,
            reads: Some(seq![CPURegister::A]),
            writes: Some(seq![CPURegister::A]),
        },
        0x0A => OpInfo {
            opcode: OpCode::ASL(b),
            cycles: 2,
            mode: AddrMode::Accumulator,
            reads: Some(seq![CPURegister::A]),
            writes: Some(seq![CPURegister::A]),
        },
        0x0B => OpInfo {
            opcode: OpCode::ANC(b),
            cycles: 2,
            mode: AddrMode::Immediate,
            reads: Some(seq![CPURegister::A]),
            writes: None,
        },
        0x0C => OpInfo {
            opcode: OpCode::NOP(b),
            cycles: 4,
            mode: AddrMode::Absolute,
            reads: None,
            writes: None,
        },
        0x0D => OpInfo {
            opcode: OpCode::ORA(b),
            cycles: 4,
            mode: AddrMode::Absolute,
            reads: Some(seq![CPURegister::A]),
            writes: Some(seq![CPURegister::A]),
        },
        0x0E => OpInfo {
            opcode: OpCode::ASL(b),
            cycles: 6,
            mode: AddrMode::Absolute,
            reads: None,
            writes: None,
        },
        0x0F => OpInfo {
            opcode: OpCode::SLO(b),
            cycles: 6,
            mode: AddrMode::Absolute,
            reads: Some(seq![CPURegister::A]),
            writes: Some(seq![CPURegister::A]),
        },
        0x10 => OpInfo {
            opcode: OpCode::BPL(b),
            cycles: 2,
            mode: AddrMode::Relative,
            reads: None,
            writes: None,
        },
        0x11 => OpInfo {
            opcode: OpCode::ORA(b),
            cycles: 5,
            mode: AddrMode::IndirectIndexedY(true),
            reads: Some(seq![CPURegister::A, CPURegister::Y]),
            writes: Some(seq![CPURegister::A]),
        },
        0x12 => OpInfo {
            opcode: OpCode::HLT(b),
            cycles: 1,
            mode: AddrMode::Implied,
            reads: None,
            writes: None,
        },
        0x13 => OpInfo {
            opcode: OpCode::SLO(b),
            cycles: 8,
            mode: AddrMode::IndirectIndexedY(false),
            reads: Some(seq![CPURegister::A, CPURegister::Y]),
            writes: Some(seq![CPURegister::A]),
        },
        0x14 => OpInfo {
            opcode: OpCode::NOP(b),
            cycles: 4,
            mode: AddrMode::ZeropageIndexedX,
            reads: Some(seq![CPURegister::X]),
            writes: None,
        },
        0x15 => OpInfo {
            opcode: OpCode::ORA(b),
            cycles: 4,
            mode: AddrMode::ZeropageIndexedX,
            reads: Some(seq![CPURegister::A, CPURegister::X]),
            writes: Some(seq![CPURegister::A]),
        },
        0x16 => OpInfo {
            opcode: OpCode::ASL(b),
            cycles: 6,
            mode: AddrMode::ZeropageIndexedX,
            reads: Some(seq![CPURegister::X]),
            writes: None,
        },
        0x17 => OpInfo {
            opcode: OpCode::SLO(b),
            cycles: 6,
            mode: AddrMode::ZeropageIndexedX,
            reads: Some(seq![CPURegister::A, CPURegister::X]),
            writes: Some(seq![CPURegister::A]),
        },
        0x18 => OpInfo {
            opcode: OpCode::CLC(b),
            cycles: 2,
            mode: AddrMode::Implied,
            reads: None,
            writes: None,
        },
        0x19 => OpInfo {
            opcode: OpCode::ORA(b),
            cycles: 4,
            mode: AddrMode::AbsoluteIndexedY(true),
            reads: Some(seq![CPURegister::A, CPURegister::Y]),
            writes: Some(seq![CPURegister::A]),
        },
        0x1A => OpInfo {
            opcode: OpCode::NOP(b),
            cycles: 2,
            mode: AddrMode::Implied,
            reads: None,
            writes: None,
        },
        0x1B => OpInfo {
            opcode: OpCode::SLO(b),
            cycles: 7,
            mode: AddrMode::AbsoluteIndexedY(false),
            reads: Some(seq![CPURegister::A, CPURegister::Y]),
            writes: Some(seq![CPURegister::A]),
        },
        0x1C => OpInfo {
            opcode: OpCode::NOP(b),
            cycles: 4,
            mode: AddrMode::AbsoluteIndexedX(true),
            reads: None,
            writes: None,
        },
        0x1D => OpInfo {
            opcode: OpCode::ORA(b),
            cycles: 4,
            mode: AddrMode::AbsoluteIndexedX(true),
            reads: Some(seq![CPURegister::A, CPURegister::X]),
            writes: Some(seq![CPURegister::A]),
        },
        0x1E => OpInfo {
            opcode: OpCode::ASL(b),
            cycles: 7,
            mode: AddrMode::AbsoluteIndexedX(false),
            reads: Some(seq![CPURegister::X]),
            writes: None,
        },
        0x1F => OpInfo {
            opcode: OpCode::SLO(b),
            cycles: 7,
            mode: AddrMode::AbsoluteIndexedX(false),
            reads: Some(seq![CPURegister::A, CPURegister::X]),
            writes: Some(seq![CPURegister::A]),
        },
        0x20 => OpInfo {
            opcode: OpCode::JSR(b),
            cycles: 6,
            mode: AddrMode::Absolute,
            reads: None,
            writes: None,
        },
        0x21 => OpInfo {
            opcode: OpCode::AND(b),
            cycles: 6,
            mode: AddrMode::IndexedIndirectX,
            reads: Some(seq![CPURegister::A, CPURegister::X]),
            writes: Some(seq![CPURegister::A]),
        },
        0x22 => OpInfo {
            opcode: OpCode::HLT(b),
            cycles: 1,
            mode: AddrMode::Implied,
            reads: None,
            writes: None,
        },
        0x23 => OpInfo {
            opcode: OpCode::RLA(b),
            cycles: 8,
            mode: AddrMode::IndexedIndirectX,
            reads: Some(seq![CPURegister::A, CPURegister::X]),
            writes: Some(seq![CPURegister::A]),
        },
        0x24 => OpInfo {
            opcode: OpCode::BIT(b),
            cycles: 3,
            mode: AddrMode::Zeropage,
            reads: None,
            writes: None,
        },
        0x25 => OpInfo {
            opcode: OpCode::AND(b),
            cycles: 3,
            mode: AddrMode::Zeropage,
            reads: Some(seq![CPURegister::A]),
            writes: Some(seq![CPURegister::A]),
        },
        0x26 => OpInfo {
            opcode: OpCode::ROL(b),
            cycles: 5,
            mode: AddrMode::Zeropage,
            reads: None,
            writes: None,
        },
        0x27 => OpInfo {
            opcode: OpCode::RLA(b),
            cycles: 5,
            mode: AddrMode::Zeropage,
            reads: Some(seq![CPURegister::A]),
            writes: Some(seq![CPURegister::A]),
        },
        0x28 => OpInfo {
            opcode: OpCode::PLP(b),
            cycles: 4,
            mode: AddrMode::Implied,
            reads: None,
            writes: None,
        },
        0x29 => OpInfo {
            opcode: OpCode::AND(b),
            cycles: 2,
            mode: AddrMode::Immediate,
            reads: Some(seq![CPURegister::A]),
            writes: Some(seq![CPURegister::A]),
        },
        0x2A => OpInfo {
            opcode: OpCode::ROL(b),
            cycles: 2,
            mode: AddrMode::Accumulator,
            reads: Some(seq![CPURegister::A]),
            writes: Some(seq![CPURegister::A]),
        },
        0x2B => OpInfo {
            opcode: OpCode::ANC(b),
            cycles: 2,
            mode: AddrMode::Immediate,
            reads: Some(seq![CPURegister::A]),
            writes: None,
        },
        0x2C => OpInfo {
            opcode: OpCode::BIT(b),
            cycles: 4,
            mode: AddrMode::Absolute,
            reads: None,
            writes: None,
        },
        0x2D => OpInfo {
            opcode: OpCode::AND(b),
            cycles: 4,
            mode: AddrMode::Absolute,
            reads: Some(seq![CPURegister::A]),
            writes: Some(seq![CPURegister::A]),
        },
        0x2E => OpInfo {
            opcode: OpCode::ROL(b),
            cycles: 6,
            mode: AddrMode::Absolute,
            reads: None,
            writes: None,
        },
        0x2F => OpInfo {
            opcode: OpCode::RLA(b),
            cycles: 6,
            mode: AddrMode::Absolute,
            reads: Some(seq![CPURegister::A]),
            writes: Some(seq![CPURegister::A]),
        },
        0x30 => OpInfo {
            opcode: OpCode::BMI(b),
            cycles: 2,
            mode: AddrMode::Relative,
            reads: None,
            writes: None,
        },
        0x31 => OpInfo {
            opcode: OpCode::AND(b),
            cycles: 5,
            mode: AddrMode::IndirectIndexedY(true),
            reads: Some(seq![CPURegister::A, CPURegister::Y]),
            writes: Some(seq![CPURegister::A]),
        },
        0x32 => OpInfo {
            opcode: OpCode::HLT(b),
            cycles: 1,
            mode: AddrMode::Implied,
            reads: None,
            writes: None,
        },
        0x33 => OpInfo {
            opcode: OpCode::RLA(b),
            cycles: 8,
            mode: AddrMode::IndirectIndexedY(false),
            reads: Some(seq![CPURegister::A, CPURegister::Y]),
            writes: Some(seq![CPURegister::A]),
        },
        0x34 => OpInfo {
            opcode: OpCode::NOP(b),
            cycles: 4,
            mode: AddrMode::ZeropageIndexedX,
            reads: Some(seq![CPURegister::X]),
            writes: None,
        },
        0x35 => OpInfo {
            opcode: OpCode::AND(b),
            cycles: 4,
            mode: AddrMode::ZeropageIndexedX,
            reads: Some(seq![CPURegister::A, CPURegister::X]),
            writes: Some(seq![CPURegister::A]),
        },
        0x36 => OpInfo {
            opcode: OpCode::ROL(b),
            cycles: 6,
            mode: AddrMode::ZeropageIndexedX,
            reads: Some(seq![CPURegister::X]),
            writes: None,
        },
        0x37 => OpInfo {
            opcode: OpCode::RLA(b),
            cycles: 6,
            mode: AddrMode::ZeropageIndexedX,
            reads: Some(seq![CPURegister::A, CPURegister::X]),
            writes: Some(seq![CPURegister::A]),
        },
        0x38 => OpInfo {
            opcode: OpCode::SEC(b),
            cycles: 2,
            mode: AddrMode::Implied,
            reads: None,
            writes: None,
        },
        0x39 => OpInfo {
            opcode: OpCode::AND(b),
            cycles: 4,
            mode: AddrMode::AbsoluteIndexedY(true),
            reads: Some(seq![CPURegister::A, CPURegister::Y]),
            writes: Some(seq![CPURegister::A]),
        },
        0x3A => OpInfo {
            opcode: OpCode::NOP(b),
            cycles: 2,
            mode: AddrMode::Implied,
            reads: None,
            writes: None,
        },
        0x3B => OpInfo {
            opcode: OpCode::RLA(b),
            cycles: 7,
            mode: AddrMode::AbsoluteIndexedY(false),
            reads: Some(seq![CPURegister::A, CPURegister::Y]),
            writes: Some(seq![CPURegister::A]),
        },
        0x3C => OpInfo {
            opcode: OpCode::NOP(b),
            cycles: 4,
            mode: AddrMode::AbsoluteIndexedX(true),
            reads: Some(seq![CPURegister::X]),
            writes: None,
        },
        0x3D => OpInfo {
            opcode: OpCode::AND(b),
            cycles: 4,
            mode: AddrMode::AbsoluteIndexedX(true),
            reads: Some(seq![CPURegister::A, CPURegister::X]),
            writes: Some(seq![CPURegister::A]),
        },
        0x3E => OpInfo {
            opcode: OpCode::ROL(b),
            cycles: 7,
            mode: AddrMode::AbsoluteIndexedX(false),
            reads: Some(seq![CPURegister::X]),
            writes: None,
        },
        0x3F => OpInfo {
            opcode: OpCode::RLA(b),
            cycles: 7,
            mode: AddrMode::AbsoluteIndexedX(false),
            reads: Some(seq![CPURegister::A, CPURegister::X]),
            writes: Some(seq![CPURegister::A]),
        },
        0x40 => OpInfo {
            opcode: OpCode::RTI(b),
            cycles: 6,
            mode: AddrMode::Implied,
            reads: None,
            writes: None,
        },
        0x41 => OpInfo {
            opcode: OpCode::EOR(b),
            cycles: 6,
            mode: AddrMode::IndexedIndirectX,
            reads: Some(seq![CPURegister::A, CPURegister::X]),
            writes: Some(seq![CPURegister::A]),
        },
        0x42 => OpInfo {
            opcode: OpCode::HLT(b),
            cycles: 1,
            mode: AddrMode::Implied,
            reads: None,
            writes: None,
        },
        0x43 => OpInfo {
            opcode: OpCode::SRE(b),
            cycles: 8,
            mode: AddrMode::IndexedIndirectX,
            reads: Some(seq![CPURegister::A, CPURegister::X]),
            writes: Some(seq![CPURegister::A]),
        },
        0x44 => OpInfo {
            opcode: OpCode::NOP(b),
            cycles: 3,
            mode: AddrMode::Zeropage,
            reads: None,
            writes: None,
        },
        0x45 => OpInfo {
            opcode: OpCode::EOR(b),
            cycles: 3,
            mode: AddrMode::Zeropage,
            reads: Some(seq![CPURegister::A]),
            writes: Some(seq![CPURegister::A]),
        },
        0x46 => OpInfo {
            opcode: OpCode::LSR(b),
            cycles: 5,
            mode: AddrMode::Zeropage,
            reads: None,
            writes: None,
        },
        0x47 => OpInfo {
            opcode: OpCode::SRE(b),
            cycles: 5,
            mode: AddrMode::Zeropage,
            reads: Some(seq![CPURegister::A]),
            writes: Some(seq![CPURegister::A]),
        },
        0x48 => OpInfo {
            opcode: OpCode::PHA(b),
            cycles: 3,
            mode: AddrMode::Implied,
            reads: Some(seq![CPURegister::A]),
            writes: None,
        },
        0x49 => OpInfo {
            opcode: OpCode::EOR(b),
            cycles: 2,
            mode: AddrMode::Immediate,
            reads: Some(seq![CPURegister::A]),
            writes: Some(seq![CPURegister::A]),
        },
        0x4A => OpInfo {
            opcode: OpCode::LSR(b),
            cycles: 2,
            mode: AddrMode::Accumulator,
            reads: Some(seq![CPURegister::A]),
            writes: Some(seq![CPURegister::A]),
        },
        0x4B => OpInfo {
            opcode: OpCode::ALR(b),
            cycles: 2,
            mode: AddrMode::Immediate,
            reads: None,
            writes: None,
        },
        0x4C => OpInfo {
            opcode: OpCode::JMP(b),
            cycles: 3,
            mode: AddrMode::Absolute,
            reads: None,
            writes: None,
        },
        0x4D => OpInfo {
            opcode: OpCode::EOR(b),
            cycles: 4,
            mode: AddrMode::Absolute,
            reads: Some(seq![CPURegister::A]),
            writes: Some(seq![CPURegister::A]),
        },
        0x4E => OpInfo {
            opcode: OpCode::LSR(b),
            cycles: 6,
            mode: AddrMode::Absolute,
            reads: None,
            writes: None,
        },
        0x4F => OpInfo {
            opcode: OpCode::SRE(b),
            cycles: 6,
            mode: AddrMode::Absolute,
            reads: Some(seq![CPURegister::A]),
            writes: Some(seq![CPURegister::A]),
        },
        0x50 => OpInfo {
            opcode: OpCode::BVC(b),
            cycles: 2,
            mode: AddrMode::Relative,
            reads: None,
            writes: None,
        },
        0x51 => OpInfo {
            opcode: OpCode::EOR(b),
            cycles: 5,
            mode: AddrMode::IndirectIndexedY(true),
            reads: Some(seq![CPURegister::A, CPURegister::Y]),
            writes: Some(seq![CPURegister::A]),
        },
        0x52 => OpInfo {
            opcode: OpCode::HLT(b),
            cycles: 1,
            mode: AddrMode::Implied,
            reads: None,
            writes: None,
        },
        0x53 => OpInfo {
            opcode: OpCode::SRE(b),
            cycles: 8,
            mode: AddrMode::IndirectIndexedY(false),
            reads: Some(seq![CPURegister::A, CPURegister::Y]),
            writes: Some(seq![CPURegister::A]),
        },
        0x54 => OpInfo {
            opcode: OpCode::NOP(b),
            cycles: 4,
            mode: AddrMode::ZeropageIndexedX,
            reads: Some(seq![CPURegister::X]),
            writes: None,
        },
        0x55 => OpInfo {
            opcode: OpCode::EOR(b),
            cycles: 4,
            mode: AddrMode::ZeropageIndexedX,
            reads: Some(seq![CPURegister::A, CPURegister::X]),
            writes: Some(seq![CPURegister::A]),
        },
        0x56 => OpInfo {
            opcode: OpCode::LSR(b),
            cycles: 6,
            mode: AddrMode::ZeropageIndexedX,
            reads: Some(seq![CPURegister::X]),
            writes: None,
        },
        0x57 => OpInfo {
            opcode: OpCode::SRE(b),
            cycles: 6,
            mode: AddrMode::ZeropageIndexedX,
            reads: Some(seq![CPURegister::A, CPURegister::X]),
            writes: Some(seq![CPURegister::A]),
        },
        0x58 => OpInfo {
            opcode: OpCode::CLI(b),
            cycles: 2,
            mode: AddrMode::Implied,
            reads: None,
            writes: None,
        },
        0x59 => OpInfo {
            opcode: OpCode::EOR(b),
            cycles: 4,
            mode: AddrMode::AbsoluteIndexedY(true),
            reads: Some(seq![CPURegister::A, CPURegister::Y]),
            writes: Some(seq![CPURegister::A]),
        },
        0x5A => OpInfo {
            opcode: OpCode::NOP(b),
            cycles: 2,
            mode: AddrMode::Implied,
            reads: None,
            writes: None,
        },
        0x5B => OpInfo {
            opcode: OpCode::SRE(b),
            cycles: 7,
            mode: AddrMode::AbsoluteIndexedY(false),
            reads: Some(seq![CPURegister::A, CPURegister::Y]),
            writes: Some(seq![CPURegister::A]),
        },
        0x5C => OpInfo {
            opcode: OpCode::NOP(b),
            cycles: 4,
            mode: AddrMode::AbsoluteIndexedX(true),
            reads: Some(seq![CPURegister::X]),
            writes: None,
        },
        0x5D => OpInfo {
            opcode: OpCode::EOR(b),
            cycles: 4,
            mode: AddrMode::AbsoluteIndexedX(true),
            reads: Some(seq![CPURegister::A, CPURegister::X]),
            writes: Some(seq![CPURegister::A]),
        },
        0x5E => OpInfo {
            opcode: OpCode::LSR(b),
            cycles: 7,
            mode: AddrMode::AbsoluteIndexedX(false),
            reads: Some(seq![CPURegister::X]),
            writes: None,
        },
        0x5F => OpInfo {
            opcode: OpCode::SRE(b),
            cycles: 7,
            mode: AddrMode::AbsoluteIndexedX(false),
            reads: Some(seq![CPURegister::A, CPURegister::X]),
            writes: Some(seq![CPURegister::A]),
        },
        0x60 => OpInfo {
            opcode: OpCode::RTS(b),
            cycles: 6,
            mode: AddrMode::Implied,
            reads: None,
            writes: None,
        },
        0x61 => OpInfo {
            opcode: OpCode::ADC(b),
            cycles: 6,
            mode: AddrMode::IndexedIndirectX,
            reads: Some(seq![CPURegister::A, CPURegister::X]),
            writes: Some(seq![CPURegister::A]),
        },
        0x62 => OpInfo {
            opcode: OpCode::HLT(b),
            cycles: 1,
            mode: AddrMode::Implied,
            reads: None,
            writes: None,
        },
        0x63 => OpInfo {
            opcode: OpCode::RRA(b),
            cycles: 8,
            mode: AddrMode::IndexedIndirectX,
            reads: Some(seq![CPURegister::A, CPURegister::X]),
            writes: Some(seq![CPURegister::A]),
        },
        0x64 => OpInfo {
            opcode: OpCode::NOP(b),
            cycles: 3,
            mode: AddrMode::Zeropage,
            reads: None,
            writes: None,
        },
        0x65 => OpInfo {
            opcode: OpCode::ADC(b),
            cycles: 3,
            mode: AddrMode::Zeropage,
            reads: Some(seq![CPURegister::A]),
            writes: Some(seq![CPURegister::A]),
        },
        0x66 => OpInfo {
            opcode: OpCode::ROR(b),
            cycles: 5,
            mode: AddrMode::Zeropage,
            reads: None,
            writes: None,
        },
        0x67 => OpInfo {
            opcode: OpCode::RRA(b),
            cycles: 5,
            mode: AddrMode::Zeropage,
            reads: Some(seq![CPURegister::A]),
            writes: Some(seq![CPURegister::A]),
        },
        0x68 => OpInfo {
            opcode: OpCode::PLA(b),
            cycles: 4,
            mode: AddrMode::Implied,
            reads: None,
            writes: None,
        },
        0x69 => OpInfo {
            opcode: OpCode::ADC(b),
            cycles: 2,
            mode: AddrMode::Immediate,
            reads: Some(seq![CPURegister::A]),
            writes: Some(seq![CPURegister::A]),
        },
        0x6A => OpInfo {
            opcode: OpCode::ROR(b),
            cycles: 2,
            mode: AddrMode::Accumulator,
            reads: Some(seq![CPURegister::A]),
            writes: Some(seq![CPURegister::A]),
        },
        0x6B => OpInfo {
            opcode: OpCode::ARR(b),
            cycles: 2,
            mode: AddrMode::Immediate,
            reads: None,
            writes: None,
        },
        0x6C => OpInfo {
            opcode: OpCode::JMP(b),
            cycles: 5,
            mode: AddrMode::Indirect,
            reads: None,
            writes: None,
        },
        0x6D => OpInfo {
            opcode: OpCode::ADC(b),
            cycles: 4,
            mode: AddrMode::Absolute,
            reads: Some(seq![CPURegister::A]),
            writes: Some(seq![CPURegister::A]),
        },
        0x6E => OpInfo {
            opcode: OpCode::ROR(b),
            cycles: 6,
            mode: AddrMode::Absolute,
            reads: None,
            writes: None,
        },
        0x6F => OpInfo {
            opcode: OpCode::RRA(b),
            cycles: 6,
            mode: AddrMode::Absolute,
            reads: Some(seq![CPURegister::A]),
            writes: Some(seq![CPURegister::A]),
        },
        0x70 => OpInfo {
            opcode: OpCode::BVS(b),
            cycles: 2,
            mode: AddrMode::Relative,
            reads: None,
            writes: None,
        },
        0x71 => OpInfo {
            opcode: OpCode::ADC(b),
            cycles: 5,
            mode: AddrMode::IndirectIndexedY(true),
            reads: Some(seq![CPURegister::A, CPURegister::Y]),
            writes: Some(seq![CPURegister::A]),
        },
        0x72 => OpInfo {
            opcode: OpCode::HLT(b),
            cycles: 1,
            mode: AddrMode::Implied,
            reads: None,
            writes: None,
        },
        0x73 => OpInfo {
            opcode: OpCode::RRA(b),
            cycles: 8,
            mode: AddrMode::IndirectIndexedY(false),
            reads: Some(seq![CPURegister::A, CPURegister::Y]),
            writes: Some(seq![CPURegister::A]),
        },
        0x74 => OpInfo {
            opcode: OpCode::NOP(b),
            cycles: 4,
            mode: AddrMode::ZeropageIndexedX,
            reads: Some(seq![CPURegister::X]),
            writes: None,
        },
        0x75 => OpInfo {
            opcode: OpCode::ADC(b),
            cycles: 4,
            mode: AddrMode::ZeropageIndexedX,
            reads: Some(seq![CPURegister::A, CPURegister::X]),
            writes: Some(seq![CPURegister::A]),
        },
        0x76 => OpInfo {
            opcode: OpCode::ROR(b),
            cycles: 6,
            mode: AddrMode::ZeropageIndexedX,
            reads: Some(seq![CPURegister::X]),
            writes: None,
        },
        0x77 => OpInfo {
            opcode: OpCode::RRA(b),
            cycles: 6,
            mode: AddrMode::ZeropageIndexedX,
            reads: Some(seq![CPURegister::A, CPURegister::X]),
            writes: Some(seq![CPURegister::A]),
        },
        0x78 => OpInfo {
            opcode: OpCode::SEI(b),
            cycles: 2,
            mode: AddrMode::Implied,
            reads: None,
            writes: None,
        },
        0x79 => OpInfo {
            opcode: OpCode::ADC(b),
            cycles: 4,
            mode: AddrMode::AbsoluteIndexedY(true),
            reads: Some(seq![CPURegister::A, CPURegister::Y]),
            writes: Some(seq![CPURegister::A]),
        },
        0x7A => OpInfo {
            opcode: OpCode::NOP(b),
            cycles: 2,
            mode: AddrMode::Implied,
            reads: None,
            writes: None,
        },
        0x7B => OpInfo {
            opcode: OpCode::RRA(b),
            cycles: 7,
            mode: AddrMode::AbsoluteIndexedY(false),
            reads: Some(seq![CPURegister::A, CPURegister::Y]),
            writes: Some(seq![CPURegister::A]),
        },
        0x7C => OpInfo {
            opcode: OpCode::NOP(b),
            cycles: 4,
            mode: AddrMode::AbsoluteIndexedX(true),
            reads: Some(seq![CPURegister::X]),
            writes: None,
        },
        0x7D => OpInfo {
            opcode: OpCode::ADC(b),
            cycles: 4,
            mode: AddrMode::AbsoluteIndexedX(true),
            reads: Some(seq![CPURegister::A, CPURegister::X]),
            writes: Some(seq![CPURegister::A]),
        },
        0x7E => OpInfo {
            opcode: OpCode::ROR(b),
            cycles: 7,
            mode: AddrMode::AbsoluteIndexedX(false),
            reads: Some(seq![CPURegister::X]),
            writes: None,
        },
        0x7F => OpInfo {
            opcode: OpCode::RRA(b),
            cycles: 7,
            mode: AddrMode::AbsoluteIndexedX(false),
            reads: Some(seq![CPURegister::A, CPURegister::X]),
            writes: Some(seq![CPURegister::A]),
        },
        0x80 => OpInfo {
            opcode: OpCode::NOP(b),
            cycles: 2,
            mode: AddrMode::Immediate,
            reads: None,
            writes: None,
        },
        0x81 => OpInfo {
            opcode: OpCode::STA(b),
            cycles: 6,
            mode: AddrMode::IndexedIndirectX,
            reads: Some(seq![CPURegister::A, CPURegister::X]),
            writes: None,
        },
        0x82 => OpInfo {
            opcode: OpCode::NOP(b),
            cycles: 2,
            mode: AddrMode::Immediate,
            reads: None,
            writes: None,
        },
        0x83 => OpInfo {
            opcode: OpCode::SAX(b),
            cycles: 6,
            mode: AddrMode::IndexedIndirectX,
            reads: Some(seq![CPURegister::A, CPURegister::X]),
            writes: None,
        },
        0x84 => OpInfo {
            opcode: OpCode::STY(b),
            cycles: 3,
            mode: AddrMode::Zeropage,
            reads: Some(seq![CPURegister::Y]),
            writes: None,
        },
        0x85 => OpInfo {
            opcode: OpCode::STA(b),
            cycles: 3,
            mode: AddrMode::Zeropage,
            reads: Some(seq![CPURegister::A]),
            writes: None,
        },
        0x86 => OpInfo {
            opcode: OpCode::STX(b),
            cycles: 3,
            mode: AddrMode::Zeropage,
            reads: Some(seq![CPURegister::X]),
            writes: None,
        },
        0x87 => OpInfo {
            opcode: OpCode::SAX(b),
            cycles: 3,
            mode: AddrMode::Zeropage,
            reads: Some(seq![CPURegister::A, CPURegister::X]),
            writes: None,
        },
        0x88 => OpInfo {
            opcode: OpCode::DEY(b),
            cycles: 2,
            mode: AddrMode::Implied,
            reads: Some(seq![CPURegister::Y]),
            writes: Some(seq![CPURegister::Y]),
        },
        0x89 => OpInfo {
            opcode: OpCode::NOP(b),
            cycles: 2,
            mode: AddrMode::Immediate,
            reads: None,
            writes: None,
        },
        0x8A => OpInfo {
            opcode: OpCode::TXA(b),
            cycles: 2,
            mode: AddrMode::Implied,
            reads: Some(seq![CPURegister::X]),
            writes: Some(seq![CPURegister::A]),
        },
        0x8B => OpInfo {
            opcode: OpCode::XAA(b),
            cycles: 2,
            mode: AddrMode::Immediate,
            reads: None,
            writes: None,
        },
        0x8C => OpInfo {
            opcode: OpCode::STY(b),
            cycles: 4,
            mode: AddrMode::Absolute,
            reads: Some(seq![CPURegister::Y]),
            writes: None,
        },
        0x8D => OpInfo {
            opcode: OpCode::STA(b),
            cycles: 4,
            mode: AddrMode::Absolute,
            reads: Some(seq![CPURegister::A]),
            writes: None,
        },
        0x8E => OpInfo {
            opcode: OpCode::STX(b),
            cycles: 4,
            mode: AddrMode::Absolute,
            reads: Some(seq![CPURegister::X]),
            writes: None,
        },
        0x8F => OpInfo {
            opcode: OpCode::SAX(b),
            cycles: 4,
            mode: AddrMode::Absolute,
            reads: Some(seq![CPURegister::A, CPURegister::X]),
            writes: None,
        },
        0x90 => OpInfo {
            opcode: OpCode::BCC(b),
            cycles: 2,
            mode: AddrMode::Relative,
            reads: None,
            writes: None,
        },
        0x91 => OpInfo {
            opcode: OpCode::STA(b),
            cycles: 6,
            mode: AddrMode::IndirectIndexedY(false),
            reads: Some(seq![CPURegister::A, CPURegister::Y]),
            writes: None,
        },
        0x92 => OpInfo {
            opcode: OpCode::HLT(b),
            cycles: 1,
            mode: AddrMode::Implied,
            reads: None,
            writes: None,
        },
        0x93 => OpInfo {
            opcode: OpCode::AHX(b),
            cycles: 6,
            mode: AddrMode::IndirectIndexedY(false),
            reads: Some(seq![CPURegister::Y]),
            writes: None,
        },
        0x94 => OpInfo {
            opcode: OpCode::STY(b),
            cycles: 4,
            mode: AddrMode::ZeropageIndexedX,
            reads: Some(seq![CPURegister::X, CPURegister::Y]),
            writes: None,
        },
        0x95 => OpInfo {
            opcode: OpCode::STA(b),
            cycles: 4,
            mode: AddrMode::ZeropageIndexedX,
            reads: Some(seq![CPURegister::A, CPURegister::X]),
            writes: None,
        },
        0x96 => OpInfo {
            opcode: OpCode::STX(b),
            cycles: 4,
            mode: AddrMode::ZeropageIndexedY,
            reads: Some(seq![CPURegister::X, CPURegister::Y]),
            writes: None,
        },
        0x97 => OpInfo {
            opcode: OpCode::SAX(b),
            cycles: 4,
            mode: AddrMode::ZeropageIndexedY,
            reads: Some(seq![CPURegister::A, CPURegister::X, CPURegister::Y]),
            writes: None,
        },
        0x98 => OpInfo {
            opcode: OpCode::TYA(b),
            cycles: 2,
            mode: AddrMode::Implied,
            reads: Some(seq![CPURegister::Y]),
            writes: Some(seq![CPURegister::A]),
        },
        0x99 => OpInfo {
            opcode: OpCode::STA(b),
            cycles: 5,
            mode: AddrMode::AbsoluteIndexedY(false),
            reads: Some(seq![CPURegister::A, CPURegister::Y]),
            writes: None,
        },
        0x9A => OpInfo {
            opcode: OpCode::TXS(b),
            cycles: 2,
            mode: AddrMode::Implied,
            reads: Some(seq![CPURegister::X]),
            writes: None,
        },
        0x9B => OpInfo {
            opcode: OpCode::TAS(b),
            cycles: 5,
            mode: AddrMode::AbsoluteIndexedY(false),
            reads: Some(seq![CPURegister::A, CPURegister::X, CPURegister::Y]),
            writes: None,
        },
        0x9C => OpInfo {
            opcode: OpCode::SHY(b),
            cycles: 5,
            mode: AddrMode::AbsoluteIndexedX(false),
            reads: Some(seq![CPURegister::A, CPURegister::X]),
            writes: None,
        },
        0x9D => OpInfo {
            opcode: OpCode::STA(b),
            cycles: 5,
            mode: AddrMode::AbsoluteIndexedX(false),
            reads: Some(seq![CPURegister::A, CPURegister::X]),
            writes: None,
        },
        0x9E => OpInfo {
            opcode: OpCode::SHX(b),
            cycles: 5,
            mode: AddrMode::AbsoluteIndexedY(false),
            reads: Some(seq![CPURegister::X, CPURegister::Y]),
            writes: None,
        },
        0x9F => OpInfo {
            opcode: OpCode::AHX(b),
            cycles: 5,
            mode: AddrMode::AbsoluteIndexedY(false),
            reads: Some(seq![CPURegister::Y]),
            writes: None,
        },
        0xA0 => OpInfo {
            opcode: OpCode::LDY(b),
            cycles: 2,
            mode: AddrMode::Immediate,
            reads: None,
            writes: Some(seq![CPURegister::Y]),
        },
        0xA1 => OpInfo {
            opcode: OpCode::LDA(b),
            cycles: 6,
            mode: AddrMode::IndexedIndirectX,
            reads: Some(seq![CPURegister::X]),
            writes: Some(seq![CPURegister::A]),
        },
        0xA2 => OpInfo {
            opcode: OpCode::LDX(b),
            cycles: 2,
            mode: AddrMode::Immediate,
            reads: None,
            writes: Some(seq![CPURegister::X]),
        },
        0xA3 => OpInfo {
            opcode: OpCode::LAX(b),
            cycles: 6,
            mode: AddrMode::IndexedIndirectX,
            reads: Some(seq![CPURegister::X]),
            writes: Some(seq![CPURegister::A, CPURegister::X]),
        },
        0xA4 => OpInfo {
            opcode: OpCode::LDY(b),
            cycles: 3,
            mode: AddrMode::Zeropage,
            reads: None,
            writes: Some(seq![CPURegister::Y]),
        },
        0xA5 => OpInfo {
            opcode: OpCode::LDA(b),
            cycles: 3,
            mode: AddrMode::Zeropage,
            reads: None,
            writes: Some(seq![CPURegister::A]),
        },
        0xA6 => OpInfo {
            opcode: OpCode::LDX(b),
            cycles: 3,
            mode: AddrMode::Zeropage,
            reads: None,
            writes: Some(seq![CPURegister::X]),
        },
        0xA7 => OpInfo {
            opcode: OpCode::LAX(b),
            cycles: 3,
            mode: AddrMode::Zeropage,
            reads: None,
            writes: Some(seq![CPURegister::A, CPURegister::X]),
        },
        0xA8 => OpInfo {
            opcode: OpCode::TAY(b),
            cycles: 2,
            mode: AddrMode::Implied,
            reads: Some(seq![CPURegister::A]),
            writes: Some(seq![CPURegister::Y]),
        },
        0xA9 => OpInfo {
            opcode: OpCode::LDA(b),
            cycles: 2,
            mode: AddrMode::Immediate,
            reads: None,
            writes: Some(seq![CPURegister::A]),
        },
        0xAA => OpInfo {
            opcode: OpCode::TAX(b),
            cycles: 2,
            mode: AddrMode::Implied,
            reads: Some(seq![CPURegister::A]),
            writes: Some(seq![CPURegister::X]),
        },
        0xAB => OpInfo {
            opcode: OpCode::LAX(b),
            cycles: 2,
            mode: AddrMode::Immediate,
            reads: None,
            writes: Some(seq![CPURegister::A, CPURegister::X]),
        },
        0xAC => OpInfo {
            opcode: OpCode::LDY(b),
            cycles: 4,
            mode: AddrMode::Absolute,
            reads: None,
            writes: Some(seq![CPURegister::Y]),
        },
        0xAD => OpInfo {
            opcode: OpCode::LDA(b),
            cycles: 4,
            mode: AddrMode::Absolute,
            reads: None,
            writes: Some(seq![CPURegister::A]),
        },
        0xAE => OpInfo {
            opcode: OpCode::LDX(b),
            cycles: 4,
            mode: AddrMode::Absolute,
            reads: None,
            writes: Some(seq![CPURegister::X]),
        },
        0xAF => OpInfo {
            opcode: OpCode::LAX(b),
            cycles: 4,
            mode: AddrMode::Absolute,
            reads: None,
            writes: Some(seq![CPURegister::A, CPURegister::X]),
        },
        0xB0 => OpInfo {
            opcode: OpCode::BCS(b),
            cycles: 2,
            mode: AddrMode::Relative,
            reads: None,
            writes: None,
        },
        0xB1 => OpInfo {
            opcode: OpCode::LDA(b),
            cycles: 5,
            mode: AddrMode::IndirectIndexedY(true),
            reads: Some(seq![CPURegister::Y]),
            writes: Some(seq![CPURegister::A]),
        },
        0xB2 => OpInfo {
            opcode: OpCode::HLT(b),
            cycles: 1,
            mode: AddrMode::Implied,
            reads: None,
            writes: None,
        },
        0xB3 => OpInfo {
            opcode: OpCode::LAX(b),
            cycles: 5,
            mode: AddrMode::IndirectIndexedY(true),
            reads: Some(seq![CPURegister::Y]),
            writes: Some(seq![CPURegister::A, CPURegister::X]),
        },
        0xB4 => OpInfo {
            opcode: OpCode::LDY(b),
            cycles: 4,
            mode: AddrMode::ZeropageIndexedX,
            reads: Some(seq![CPURegister::X]),
            writes: Some(seq![CPURegister::Y]),
        },
        0xB5 => OpInfo {
            opcode: OpCode::LDA(b),
            cycles: 4,
            mode: AddrMode::ZeropageIndexedX,
            reads: Some(seq![CPURegister::X]),
            writes: Some(seq![CPURegister::A]),
        },
        0xB6 => OpInfo {
            opcode: OpCode::LDX(b),
            cycles: 4,
            mode: AddrMode::ZeropageIndexedY,
            reads: Some(seq![CPURegister::Y]),
            writes: Some(seq![CPURegister::X]),
        },
        0xB7 => OpInfo {
            opcode: OpCode::LAX(b),
            cycles: 4,
            mode: AddrMode::ZeropageIndexedY,
            reads: Some(seq![CPURegister::Y]),
            writes: Some(seq![CPURegister::A, CPURegister::X]),
        },
        0xB8 => OpInfo {
            opcode: OpCode::CLV(b),
            cycles: 2,
            mode: AddrMode::Implied,
            reads: None,
            writes: None,
        },
        0xB9 => OpInfo {
            opcode: OpCode::LDA(b),
            cycles: 4,
            mode: AddrMode::AbsoluteIndexedY(true),
            reads: Some(seq![CPURegister::Y]),
            writes: Some(seq![CPURegister::A]),
        },
        0xBA => OpInfo {
            opcode: OpCode::TSX(b),
            cycles: 2,
            mode: AddrMode::Implied,
            reads: None,
            writes: Some(seq![CPURegister::X]),
        },
        0xBB => OpInfo {
            opcode: OpCode::LAS(b),
            cycles: 4,
            mode: AddrMode::AbsoluteIndexedY(true),
            reads: None,
            writes: None,
        },
        0xBC => OpInfo {
            opcode: OpCode::LDY(b),
            cycles: 4,
            mode: AddrMode::AbsoluteIndexedX(true),
            reads: Some(seq![CPURegister::X]),
            writes: Some(seq![CPURegister::Y]),
        },
        0xBD => OpInfo {
            opcode: OpCode::LDA(b),
            cycles: 4,
            mode: AddrMode::AbsoluteIndexedX(true),
            reads: Some(seq![CPURegister::X]),
            writes: Some(seq![CPURegister::A]),
        },
        0xBE => OpInfo {
            opcode: OpCode::LDX(b),
            cycles: 4,
            mode: AddrMode::AbsoluteIndexedY(true),
            reads: Some(seq![CPURegister::Y]),
            writes: Some(seq![CPURegister::X]),
        },
        0xBF => OpInfo {
            opcode: OpCode::LAX(b),
            cycles: 4,
            mode: AddrMode::AbsoluteIndexedY(true),
            reads: Some(seq![CPURegister::Y]),
            writes: Some(seq![CPURegister::A, CPURegister::X]),
        },
        0xC0 => OpInfo {
            opcode: OpCode::CPY(b),
            cycles: 2,
            mode: AddrMode::Immediate,
            reads: Some(seq![CPURegister::Y]),
            writes: None,
        },
        0xC1 => OpInfo {
            opcode: OpCode::CMP(b),
            cycles: 6,
            mode: AddrMode::IndexedIndirectX,
            reads: Some(seq![CPURegister::A, CPURegister::X]),
            writes: None,
        },
        0xC2 => OpInfo {
            opcode: OpCode::NOP(b),
            cycles: 2,
            mode: AddrMode::Immediate,
            reads: None,
            writes: None,
        },
        0xC3 => OpInfo {
            opcode: OpCode::DCP(b),
            cycles: 8,
            mode: AddrMode::IndexedIndirectX,
            reads: Some(seq![CPURegister::A, CPURegister::X]),
            writes: None,
        },
        0xC4 => OpInfo {
            opcode: OpCode::CPY(b),
            cycles: 3,
            mode: AddrMode::Zeropage,
            reads: Some(seq![CPURegister::Y]),
            writes: None,
        },
        0xC5 => OpInfo {
            opcode: OpCode::CMP(b),
            cycles: 3,
            mode: AddrMode::Zeropage,
            reads: Some(seq![CPURegister::A]),
            writes: None,
        },
        0xC6 => OpInfo {
            opcode: OpCode::DEC(b),
            cycles: 5,
            mode: AddrMode::Zeropage,
            reads: None,
            writes: None,
        },
        0xC7 => OpInfo {
            opcode: OpCode::DCP(b),
            cycles: 5,
            mode: AddrMode::Zeropage,
            reads: Some(seq![CPURegister::A]),
            writes: None,
        },
        0xC8 => OpInfo {
            opcode: OpCode::INY(b),
            cycles: 2,
            mode: AddrMode::Implied,
            reads: Some(seq![CPURegister::Y]),
            writes: Some(seq![CPURegister::Y]),
        },
        0xC9 => OpInfo {
            opcode: OpCode::CMP(b),
            cycles: 2,
            mode: AddrMode::Immediate,
            reads: Some(seq![CPURegister::A]),
            writes: None,
        },
        0xCA => OpInfo {
            opcode: OpCode::DEX(b),
            cycles: 2,
            mode: AddrMode::Implied,
            reads: Some(seq![CPURegister::X]),
            writes: Some(seq![CPURegister::X]),
        },
        0xCB => OpInfo {
            opcode: OpCode::AXS(b),
            cycles: 2,
            mode: AddrMode::Immediate,
            reads: None,
            writes: None,
        },
        0xCC => OpInfo {
            opcode: OpCode::CPY(b),
            cycles: 4,
            mode: AddrMode::Absolute,
            reads: Some(seq![CPURegister::Y]),
            writes: None,
        },
        0xCD => OpInfo {
            opcode: OpCode::CMP(b),
            cycles: 4,
            mode: AddrMode::Absolute,
            reads: Some(seq![CPURegister::A]),
            writes: None,
        },
        0xCE => OpInfo {
            opcode: OpCode::DEC(b),
            cycles: 6,
            mode: AddrMode::Absolute,
            reads: None,
            writes: None,
        },
        0xCF => OpInfo {
            opcode: OpCode::DCP(b),
            cycles: 6,
            mode: AddrMode::Absolute,
            reads: Some(seq![CPURegister::A]),
            writes: None,
        },
        0xD0 => OpInfo {
            opcode: OpCode::BNE(b),
            cycles: 2,
            mode: AddrMode::Relative,
            reads: None,
            writes: None,
        },
        0xD1 => OpInfo {
            opcode: OpCode::CMP(b),
            cycles: 5,
            mode: AddrMode::IndirectIndexedY(true),
            reads: Some(seq![CPURegister::A, CPURegister::Y]),
            writes: None,
        },
        0xD2 => OpInfo {
            opcode: OpCode::HLT(b),
            cycles: 1,
            mode: AddrMode::Implied,
            reads: None,
            writes: None,
        },
        0xD3 => OpInfo {
            opcode: OpCode::DCP(b),
            cycles: 8,
            mode: AddrMode::IndirectIndexedY(false),
            reads: Some(seq![CPURegister::A, CPURegister::Y]),
            writes: None,
        },
        0xD4 => OpInfo {
            opcode: OpCode::NOP(b),
            cycles: 4,
            mode: AddrMode::ZeropageIndexedX,
            reads: Some(seq![CPURegister::X]),
            writes: None,
        },
        0xD5 => OpInfo {
            opcode: OpCode::CMP(b),
            cycles: 4,
            mode: AddrMode::ZeropageIndexedX,
            reads: Some(seq![CPURegister::A, CPURegister::X]),
            writes: None,
        },
        0xD6 => OpInfo {
            opcode: OpCode::DEC(b),
            cycles: 6,
            mode: AddrMode::ZeropageIndexedX,
            reads: Some(seq![CPURegister::X]),
            writes: None,
        },
        0xD7 => OpInfo {
            opcode: OpCode::DCP(b),
            cycles: 6,
            mode: AddrMode::ZeropageIndexedX,
            reads: Some(seq![CPURegister::A, CPURegister::X]),
            writes: None,
        },
        0xD8 => OpInfo {
            opcode: OpCode::CLD(b),
            cycles: 2,
            mode: AddrMode::Implied,
            reads: None,
            writes: None,
        },
        0xD9 => OpInfo {
            opcode: OpCode::CMP(b),
            cycles: 4,
            mode: AddrMode::AbsoluteIndexedY(true),
            reads: Some(seq![CPURegister::A, CPURegister::Y]),
            writes: None,
        },
        0xDA => OpInfo {
            opcode: OpCode::NOP(b),
            cycles: 2,
            mode: AddrMode::Implied,
            reads: None,
            writes: None,
        },
        0xDB => OpInfo {
            opcode: OpCode::DCP(b),
            cycles: 7,
            mode: AddrMode::AbsoluteIndexedY(false),
            reads: Some(seq![CPURegister::A, CPURegister::Y]),
            writes: None,
        },
        0xDC => OpInfo {
            opcode: OpCode::NOP(b),
            cycles: 4,
            mode: AddrMode::AbsoluteIndexedX(true),
            reads: Some(seq![CPURegister::X]),
            writes: None,
        },
        0xDD => OpInfo {
            opcode: OpCode::CMP(b),
            cycles: 4,
            mode: AddrMode::AbsoluteIndexedX(true),
            reads: Some(seq![CPURegister::A, CPURegister::X]),
            writes: None,
        },
        0xDE => OpInfo {
            opcode: OpCode::DEC(b),
            cycles: 7,
            mode: AddrMode::AbsoluteIndexedX(false),
            reads: Some(seq![CPURegister::X]),
            writes: None,
        },
        0xDF => OpInfo {
            opcode: OpCode::DCP(b),
            cycles: 7,
            mode: AddrMode::AbsoluteIndexedX(false),
            reads: Some(seq![CPURegister::A, CPURegister::X]),
            writes: None,
        },
        0xE0 => OpInfo {
            opcode: OpCode::CPX(b),
            cycles: 2,
            mode: AddrMode::Immediate,
            reads: Some(seq![CPURegister::X]),
            writes: None,
        },
        0xE1 => OpInfo {
            opcode: OpCode::SBC(b),
            cycles: 6,
            mode: AddrMode::IndexedIndirectX,
            reads: Some(seq![CPURegister::A, CPURegister::X]),
            writes: Some(seq![CPURegister::A]),
        },
        0xE2 => OpInfo {
            opcode: OpCode::NOP(b),
            cycles: 2,
            mode: AddrMode::Immediate,
            reads: None,
            writes: None,
        },
        0xE3 => OpInfo {
            opcode: OpCode::ISC(b),
            cycles: 8,
            mode: AddrMode::IndexedIndirectX,
            reads: Some(seq![CPURegister::A, CPURegister::X]),
            writes: Some(seq![CPURegister::A]),
        },
        0xE4 => OpInfo {
            opcode: OpCode::CPX(b),
            cycles: 3,
            mode: AddrMode::Zeropage,
            reads: Some(seq![CPURegister::X]),
            writes: None,
        },
        0xE5 => OpInfo {
            opcode: OpCode::SBC(b),
            cycles: 3,
            mode: AddrMode::Zeropage,
            reads: Some(seq![CPURegister::A]),
            writes: Some(seq![CPURegister::A]),
        },
        0xE6 => OpInfo {
            opcode: OpCode::INC(b),
            cycles: 5,
            mode: AddrMode::Zeropage,
            reads: None,
            writes: None,
        },
        0xE7 => OpInfo {
            opcode: OpCode::ISC(b),
            cycles: 5,
            mode: AddrMode::Zeropage,
            reads: Some(seq![CPURegister::A]),
            writes: Some(seq![CPURegister::A]),
        },
        0xE8 => OpInfo {
            opcode: OpCode::INX(b),
            cycles: 2,
            mode: AddrMode::Implied,
            reads: Some(seq![CPURegister::X]),
            writes: Some(seq![CPURegister::X]),
        },
        0xE9 => OpInfo {
            opcode: OpCode::SBC(b),
            cycles: 2,
            mode: AddrMode::Immediate,
            reads: Some(seq![CPURegister::A]),
            writes: Some(seq![CPURegister::A]),
        },
        0xEA => OpInfo {
            opcode: OpCode::NOP(b),
            cycles: 2,
            mode: AddrMode::Implied,
            reads: None,
            writes: None,
        },
        0xEB => OpInfo {
            opcode: OpCode::SBC(b),
            cycles: 2,
            mode: AddrMode::Immediate,
            reads: Some(seq![CPURegister::A]),
            writes: Some(seq![CPURegister::A]),
        },
        0xEC => OpInfo {
            opcode: OpCode::CPX(b),
            cycles: 4,
            mode: AddrMode::Absolute,
            reads: Some(seq![CPURegister::X]),
            writes: None,
        },
        0xED => OpInfo {
            opcode: OpCode::SBC(b),
            cycles: 4,
            mode: AddrMode::Absolute,
            reads: Some(seq![CPURegister::A]),
            writes: Some(seq![CPURegister::A]),
        },
        0xEE => OpInfo {
            opcode: OpCode::INC(b),
            cycles: 6,
            mode: AddrMode::Absolute,
            reads: None,
            writes: None,
        },
        0xEF => OpInfo {
            opcode: OpCode::ISC(b),
            cycles: 6,
            mode: AddrMode::Absolute,
            reads: Some(seq![CPURegister::A]),
            writes: Some(seq![CPURegister::A]),
        },
        0xF0 => OpInfo {
            opcode: OpCode::BEQ(b),
            cycles: 2,
            mode: AddrMode::Relative,
            reads: None,
            writes: None,
        },
        0xF1 => OpInfo {
            opcode: OpCode::SBC(b),
            cycles: 5,
            mode: AddrMode::IndirectIndexedY(true),
            reads: Some(seq![CPURegister::A, CPURegister::Y]),
            writes: Some(seq![CPURegister::A]),
        },
        0xF2 => OpInfo {
            opcode: OpCode::HLT(b),
            cycles: 1,
            mode: AddrMode::Implied,
            reads: None,
            writes: None,
        },
        0xF3 => OpInfo {
            opcode: OpCode::ISC(b),
            cycles: 8,
            mode: AddrMode::IndirectIndexedY(false),
            reads: Some(seq![CPURegister::A, CPURegister::Y]),
            writes: Some(seq![CPURegister::A]),
        },
        0xF4 => OpInfo {
            opcode: OpCode::NOP(b),
            cycles: 4,
            mode: AddrMode::ZeropageIndexedX,
            reads: Some(seq![CPURegister::X]),
            writes: None,
        },
        0xF5 => OpInfo {
            opcode: OpCode::SBC(b),
            cycles: 4,
            mode: AddrMode::ZeropageIndexedX,
            reads: Some(seq![CPURegister::A, CPURegister::X]),
            writes: Some(seq![CPURegister::A]),
        },
        0xF6 => OpInfo {
            opcode: OpCode::INC(b),
            cycles: 6,
            mode: AddrMode::ZeropageIndexedX,
            reads: Some(seq![CPURegister::X]),
            writes: None,
        },
        0xF7 => OpInfo {
            opcode: OpCode::ISC(b),
            cycles: 6,
            mode: AddrMode::ZeropageIndexedX,
            reads: Some(seq![CPURegister::A, CPURegister::X]),
            writes: Some(seq![CPURegister::A]),
        },
        0xF8 => OpInfo {
            opcode: OpCode::SED(b),
            cycles: 2,
            mode: AddrMode::Implied,
            reads: None,
            writes: None,
        },
        0xF9 => OpInfo {
            opcode: OpCode::SBC(b),
            cycles: 4,
            mode: AddrMode::AbsoluteIndexedY(true),
            reads: Some(seq![CPURegister::A, CPURegister::Y]),
            writes: Some(seq![CPURegister::A]),
        },
        0xFA => OpInfo {
            opcode: OpCode::NOP(b),
            cycles: 2,
            mode: AddrMode::Implied,
            reads: None,
            writes: None,
        },
        0xFB => OpInfo {
            opcode: OpCode::ISC(b),
            cycles: 7,
            mode: AddrMode::AbsoluteIndexedY(false),
            reads: Some(seq![CPURegister::A, CPURegister::Y]),
            writes: Some(seq![CPURegister::A]),
        },
        0xFC => OpInfo {
            opcode: OpCode::NOP(b),
            cycles: 4,
            mode: AddrMode::AbsoluteIndexedX(true),
            reads: Some(seq![CPURegister::X]),
            writes: None,
        },
        0xFD => OpInfo {
            opcode: OpCode::SBC(b),
            cycles: 4,
            mode: AddrMode::AbsoluteIndexedX(true),
            reads: Some(seq![CPURegister::A, CPURegister::X]),
            writes: Some(seq![CPURegister::A]),
        },
        0xFE => OpInfo {
            opcode: OpCode::INC(b),
            cycles: 7,
            mode: AddrMode::AbsoluteIndexedX(false),
            reads: Some(seq![CPURegister::X]),
            writes: None,
        },
        0xFF => OpInfo {
            opcode: OpCode::ISC(b),
            cycles: 7,
            mode: AddrMode::AbsoluteIndexedX(false),
            reads: Some(seq![CPURegister::A, CPURegister::X]),
            writes: Some(seq![CPURegister::A]),
        },
    }
}

/// The decode table is self-consistent: the mnemonic selected for a byte
/// always carries that byte, so a decoded record's `opcode` reports exactly
/// the byte it was decoded from, and every base cycle count lies in the
/// documented 0 to 8 range.
pub proof fn lemma_op_info_well_formed(b: u8)
    ensures
        op_info(b).opcode.spec_to_hex() == b,
        op_info(b).cycles <= 8,
{
}

} // verus!
