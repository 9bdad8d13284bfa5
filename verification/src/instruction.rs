//! Decoded 6502 instructions: the instruction record, the opcode decode
//! table dispatch, and the two string renderings.

use vstd::prelude::*;

pub use crate::opcode::{AddrMode, CPURegister, CPUStatusFlag, FlagVec, OpCode, RegVec};

use crate::opcode::{
    fetch_affected_flags, flags_of, is_illegal, operand_bytes, opt_view, spec_extra_cycle, sv1,
    sv2, sv3,
};
use crate::hexfmt::{hex2, hex4, hex_byte_str, hex_word_str};
use crate::optable::op_info;
use crate::reader::{fetch_operand, spec_operand};
use vstd::wrapping::u16_specs;

verus! {

/// A decoded 6502 instruction, fully constructed in one step from a buffer
/// slice and never mutated afterwards.
pub struct Instruction {
    /// instruction opcode
    pub opcode: OpCode,
    /// cycle count for the instruction
    pub cycles: u8,
    /// instruction addressing mode
    pub addr_mode: AddrMode,
    /// address of the instruction in the target memory space
    pub address: u16,
    /// optional instruction operand
    pub operand: Option<u16>,
    /// instruction may take an extra cycle, depending on the addressing mode
    pub extra_cycle: bool,
    /// instruction is illegal/undocumented
    pub illegal: bool,
    /// registers read by this instruction (optional)
    pub registers_read: RegVec,
    /// registers written by this instruction (optional)
    pub registers_written: RegVec,
    /// CPU status flags affected by this instruction (optional)
    pub affected_flags: FlagVec,
}

/// The operand value, or zero when the instruction carries none.
pub open spec fn operand_or_zero(op: Option<u16>) -> u16 {
    match op {
        Some(v) => v,
        None => 0,
    }
}

/// The six-character operand field of the fixed-width hex rendering: blank
/// for modes without an operand, the low byte for single-byte modes, and the
/// low then high byte for two-byte modes.
pub open spec fn hex_field(mode: AddrMode, operand: Option<u16>) -> Seq<char> {
    let v = operand_or_zero(operand);
    let lo = (v % 0x100) as u8;
    let hi = (v / 0x100) as u8;
    match mode {
        AddrMode::Implied | AddrMode::Accumulator => seq![' ', ' ', ' ', ' ', ' ', ' '],
        AddrMode::Absolute
        | AddrMode::AbsoluteIndexedX(_)
        | AddrMode::AbsoluteIndexedY(_)
        | AddrMode::Indirect => seq![' '] + hex2(lo) + seq![' '] + hex2(hi),
        _ => seq![' '] + hex2(lo) + seq![' ', ' ', ' '],
    }
}

/// The low operand byte sign-extended to 16 bits.
pub open spec fn sign_extend_low(v: u16) -> u16 {
    let b = v % 0x100;
    if b < 0x80 {
        b as u16
    } else {
        (b + 0xFF00) as u16
    }
}

/// The absolute target a relative branch at `address` would jump to: the
/// address just past the two-byte branch instruction plus the sign-extended
/// offset, in wrapping 16-bit arithmetic.
pub open spec fn branch_target(address: u16, v: u16) -> u16 {
    u16_specs::wrapping_add(u16_specs::wrapping_add(address, 2), sign_extend_low(v))
}

/// The operand part of the assembler-mnemonic rendering, one syntax per
/// addressing mode; for relative mode, the computed absolute branch target.
pub open spec fn spec_operand_str(mode: AddrMode, address: u16, v: u16) -> Seq<char> {
    match mode {
        AddrMode::Implied => Seq::empty(),
        AddrMode::Accumulator => seq!['A'],
        AddrMode::Immediate => seq!['#', '$'] + hex2((v % 0x100) as u8),
        AddrMode::Absolute => seq!['$'] + hex4(v),
        AddrMode::AbsoluteIndexedX(_) => seq!['$'] + hex4(v) + seq![',', 'X'],
        AddrMode::AbsoluteIndexedY(_) => seq!['$'] + hex4(v) + seq![',', 'Y'],
        AddrMode::Zeropage => seq!['$'] + hex2((v % 0x100) as u8),
        AddrMode::ZeropageIndexedX => seq!['$'] + hex2((v % 0x100) as u8) + seq![',', 'X'],
        AddrMode::ZeropageIndexedY => seq!['$'] + hex2((v % 0x100) as u8) + seq![',', 'Y'],
        AddrMode::Relative => seq!['$'] + hex4(branch_target(address, v)),
        AddrMode::Indirect => seq!['(', '$'] + hex4(v) + seq![')'],
        AddrMode::IndexedIndirectX => seq!['(', '$'] + hex2((v % 0x100) as u8) + seq![',', 'X', ')'],
        AddrMode::IndirectIndexedY(_) => seq!['(', '$'] + hex2((v % 0x100) as u8) + seq![')', ',', 'Y'],
    }
}

impl Instruction {
    /// The record's structural invariant: the operand is present exactly for
    /// the addressing modes that fetch one, and single-byte operands are
    /// zero-extended 8-bit values.
    pub open spec fn wf(self) -> bool {
        &&& (self.operand is Some <==> operand_bytes(self.addr_mode) > 0)
        &&& (operand_bytes(self.addr_mode) == 1 ==> (self.operand matches Some(v) && v <= 0xFF))
    }

    /// A fresh record with no operand, effects or annotations filled in yet.
    fn new(opcode: OpCode, address: u16, cycles: u8, addr_mode: AddrMode) -> (i: Instruction)
        ensures
            i.opcode == opcode,
            i.cycles == cycles,
            i.addr_mode == addr_mode,
            i.address == address,
            !i.extra_cycle,
            !i.illegal,
            i.operand is None,
            i.registers_read is None,
            i.registers_written is None,
            i.affected_flags is None,
    {
        Instruction {
            opcode,
            cycles,
            addr_mode,
            address,
            extra_cycle: false,
            illegal: false,
            operand: None,
            registers_read: None,
            registers_written: None,
            affected_flags: None,
        }
    }

    /// The fixed-width hex rendering: two digits for the opcode byte and the
    /// six-character operand field.
    pub open spec fn spec_hex_str(self) -> Seq<char> {
        hex2(self.opcode.spec_to_hex()) + hex_field(self.addr_mode, self.operand)
    }

    /// The assembler-mnemonic rendering: the mnemonic, a space, and the
    /// mode-specific operand syntax.
    pub open spec fn spec_str(self) -> Seq<char> {
        self.opcode.spec_name() + seq![' ']
            + spec_operand_str(self.addr_mode, self.address, operand_or_zero(self.operand))
    }

    /// The full display rendering: address, hex dump and mnemonic.
    pub open spec fn spec_display_str(self) -> Seq<char> {
        seq!['$'] + hex4(self.address) + seq![':', ' '] + self.spec_hex_str() + seq![' ']
            + self.spec_str()
    }

    /// Convert the instruction to a fixed-length string of hex values
    /// (opcode plus operand, if applicable).
    ///
    /// The result is always exactly eight characters wide, whatever the
    /// addressing mode, so listings stay column-aligned.
    pub fn as_hex_str(&self) -> (s: String)
        ensures
            s@ == self.spec_hex_str(),
            s@.len() == 8,
    {
        let (oper_hi, oper_lo) = if let Some(v) = self.operand {
            ((v / 0x100) as u8, (v % 0x100) as u8)
        } else {
            (0u8, 0u8)
        };

        let mut s = hex_byte_str(self.opcode.to_hex());
        match self.addr_mode {
            AddrMode::Implied | AddrMode::Accumulator => {
                s.append("      ");
                proof {
                    reveal_strlit("      ");
                    assert(s@ =~= self.spec_hex_str());
                }
            },
            AddrMode::Absolute
            | AddrMode::AbsoluteIndexedX(_)
            | AddrMode::AbsoluteIndexedY(_)
            | AddrMode::Indirect => {
                s.append(" ");
                s.append(hex_byte_str(oper_lo).as_str());
                s.append(" ");
                s.append(hex_byte_str(oper_hi).as_str());
                proof {
                    reveal_strlit(" ");
                    assert(s@ =~= self.spec_hex_str());
                }
            },
            _ => {
                s.append(" ");
                s.append(hex_byte_str(oper_lo).as_str());
                s.append("   ");
                proof {
                    reveal_strlit(" ");
                    reveal_strlit("   ");
                    assert(s@ =~= self.spec_hex_str());
                }
            },
        }
        s
    }

    /// Convert the instruction to its assembler mnemonic, with the operand
    /// written in the syntax of the instruction's addressing mode.
    pub fn as_str(&self) -> (s: String)
        requires
            self.wf(),
        ensures
            s@ == self.spec_str(),
    {
        let operand = if let Some(v) = self.operand {
            v
        } else {
            0
        };

        let mut s = String::from_str(self.opcode.name());
        s.append(" ");
        proof {
            reveal_strlit(" ");
        }
        match self.addr_mode {
            AddrMode::Implied => {
                proof {
                    assert(s@ =~= self.spec_str());
                }
            },
            AddrMode::Accumulator => {
                s.append("A");
                proof {
                    reveal_strlit("A");
                    assert(s@ =~= self.spec_str());
                }
            },
            AddrMode::Immediate => {
                s.append("#$");
                s.append(hex_byte_str((operand % 0x100) as u8).as_str());
                proof {
                    reveal_strlit("#$");
                    assert(s@ =~= self.spec_str());
                }
            },
            AddrMode::Absolute => {
                s.append("$");
                s.append(hex_word_str(operand).as_str());
                proof {
                    reveal_strlit("$");
                    assert(s@ =~= self.spec_str());
                }
            },
            AddrMode::AbsoluteIndexedX(_) => {
                s.append("$");
                s.append(hex_word_str(operand).as_str());
                s.append(",X");
                proof {
                    reveal_strlit("$");
                    reveal_strlit(",X");
                    assert(s@ =~= self.spec_str());
                }
            },
            AddrMode::AbsoluteIndexedY(_) => {
                s.append("$");
                s.append(hex_word_str(operand).as_str());
                s.append(",Y");
                proof {
                    reveal_strlit("$");
                    reveal_strlit(",Y");
                    assert(s@ =~= self.spec_str());
                }
            },
            AddrMode::Zeropage => {
                s.append("$");
                s.append(hex_byte_str((operand % 0x100) as u8).as_str());
                proof {
                    reveal_strlit("$");
                    assert(s@ =~= self.spec_str());
                }
            },
            AddrMode::ZeropageIndexedX => {
                s.append("$");
                s.append(hex_byte_str((operand % 0x100) as u8).as_str());
                s.append(",X");
                proof {
                    reveal_strlit("$");
                    reveal_strlit(",X");
                    assert(s@ =~= self.spec_str());
                }
            },
            AddrMode::ZeropageIndexedY => {
                s.append("$");
                s.append(hex_byte_str((operand % 0x100) as u8).as_str());
                s.append(",Y");
                proof {
                    reveal_strlit("$");
                    reveal_strlit(",Y");
                    assert(s@ =~= self.spec_str());
                }
            },
            AddrMode::Relative => {
                let off = (operand % 0x100) as u8;
                let sext: u16 = if off < 0x80 {
                    off as u16
                } else {
                    off as u16 + 0xFF00
                };
                let target = self.address.wrapping_add(2).wrapping_add(sext);
                s.append("$");
                s.append(hex_word_str(target).as_str());
                proof {
                    reveal_strlit("$");
                    assert(target == branch_target(self.address, operand));
                    assert(s@ =~= self.spec_str());
                }
            },
            AddrMode::Indirect => {
                s.append("($");
                s.append(hex_word_str(operand).as_str());
                s.append(")");
                proof {
                    reveal_strlit("($");
                    reveal_strlit(")");
                    assert(s@ =~= self.spec_str());
                }
            },
            AddrMode::IndexedIndirectX => {
                s.append("($");
                s.append(hex_byte_str((operand % 0x100) as u8).as_str());
                s.append(",X)");
                proof {
                    reveal_strlit("($");
                    reveal_strlit(",X)");
                    assert(s@ =~= self.spec_str());
                }
            },
            AddrMode::IndirectIndexedY(_) => {
                s.append("($");
                s.append(hex_byte_str((operand % 0x100) as u8).as_str());
                s.append("),Y");
                proof {
                    reveal_strlit("($");
                    reveal_strlit("),Y");
                    assert(s@ =~= self.spec_str());
                }
            },
        }
        s
    }

    /// The full display rendering `$ADDR: HEXBYTES MNEMONIC OPERAND`.
    pub fn display_str(&self) -> (s: String)
        requires
            self.wf(),
        ensures
            s@ == self.spec_display_str(),
    {
        let mut s = String::from_str("$");
        s.append(hex_word_str(self.address).as_str());
        s.append(": ");
        s.append(self.as_hex_str().as_str());
        s.append(" ");
        s.append(self.as_str().as_str());
        proof {
            reveal_strlit("$");
            reveal_strlit(": ");
            reveal_strlit(" ");
            assert(s@ =~= self.spec_display_str());
        }
        s
    }
}

/// Assemble one instruction record: fetch the operand, resolve the affected
/// flags and mark membership in the illegal-opcode set.
fn fetch(
    opcode: OpCode,
    num_cycles: u8,
    addr_mode: AddrMode,
    address: u16,
    index: &mut usize,
    buffer: &[u8],
    reg_read: RegVec,
    reg_written: RegVec,
) -> (instruction: Instruction)
    requires
        *old(index) + 1 + operand_bytes(addr_mode) <= usize::MAX,
    ensures
        instruction.opcode == opcode,
        instruction.cycles == num_cycles,
        instruction.addr_mode == addr_mode,
        instruction.address == address,
        instruction.operand == spec_operand(addr_mode, *old(index) + 1, buffer@),
        instruction.extra_cycle == spec_extra_cycle(addr_mode),
        instruction.illegal == is_illegal(opcode.spec_to_hex()),
        instruction.registers_read == reg_read,
        instruction.registers_written == reg_written,
        opt_view(instruction.affected_flags) == flags_of(opcode),
        *final(index) == *old(index) + 1 + operand_bytes(addr_mode),
        instruction.wf(),
{
    let (operand, extra_cycle) = fetch_operand(&addr_mode, index, buffer);
    let affected_flags = fetch_affected_flags(&opcode);
    let op_hex = opcode.to_hex();

    let mut instruction = Instruction::new(opcode, address, num_cycles, addr_mode);
    instruction.operand = operand;
    instruction.extra_cycle = extra_cycle;
    instruction.registers_read = reg_read;
    instruction.registers_written = reg_written;
    instruction.affected_flags = affected_flags;
    instruction.illegal = crate::opcode::illegal_opcode(op_hex);

    instruction
}

/// Decode dispatch for opcode bytes `0x00` through `0x3F`.
#[verifier::rlimit(100)]
fn decode_00_3f(address: u16, index: &mut usize, memory: &[u8], op: u8) -> (instruction: Instruction)
    requires
        0x00 <= op <= 0x3F,
        *old(index) + 1 + operand_bytes(op_info(op).mode) <= usize::MAX,
    ensures
        ({
            let info = op_info(op);
            &&& instruction.opcode == info.opcode
            &&& instruction.cycles == info.cycles
            &&& instruction.addr_mode == info.mode
            &&& instruction.address == address
            &&& instruction.operand == spec_operand(info.mode, *old(index) + 1, memory@)
            &&& instruction.extra_cycle == spec_extra_cycle(info.mode)
            &&& instruction.illegal == is_illegal(op)
            &&& opt_view(instruction.registers_read) == info.reads
            &&& opt_view(instruction.registers_written) == info.writes
            &&& opt_view(instruction.affected_flags) == flags_of(info.opcode)
            &&& *final(index) == *old(index) + 1 + operand_bytes(info.mode)
            &&& instruction.wf()
        }),
{
    match op {
        0x00 => fetch(OpCode::BRK(op), 7, AddrMode::Implied, address, index, memory, None, None),
        0x01 => fetch(OpCode::ORA(op), 6, AddrMode::IndexedIndirectX, address, index, memory, sv2(CPURegister::A, CPURegister::X), sv1(CPURegister::A)),
        0x02 => fetch(OpCode::HLT(op), 1, AddrMode::Implied, address, index, memory, None, None),
        0x03 => fetch(OpCode::SLO(op), 8, AddrMode::IndexedIndirectX, address, index, memory, sv2(CPURegister::A, CPURegister::X), sv1(CPURegister::A)),
        0x04 => fetch(OpCode::NOP(op), 3, AddrMode::Zeropage, address, index, memory, None, None),
        0x05 => fetch(OpCode::ORA(op), 3, AddrMode::Zeropage, address, index, memory, sv1(CPURegister::A), sv1(CPURegister::A)),
        0x06 => fetch(OpCode::ASL(op), 5, AddrMode::Zeropage, address, index, memory, None, None),
        0x07 => fetch(OpCode::SLO(op), 5, AddrMode::Zeropage, address, index, memory, sv1(CPURegister::A), sv1(CPURegister::A)),
        0x08 => fetch(OpCode::PHP(op), 3, AddrMode::Implied, address, index, memory, None, None),
        0x09 => fetch(OpCode::ORA(op), 2, AddrMode::Immediate, address, index, memory, sv1(CPURegister::A), sv1(CPURegister::A)),
        0x0A => fetch(OpCode::ASL(op), 2, AddrMode::Accumulator, address, index, memory, sv1(CPURegister::A), sv1(CPURegister::A)),
        0x0B => fetch(OpCode::ANC(op), 2, AddrMode::Immediate, address, index, memory, sv1(CPURegister::A), None),
        0x0C => fetch(OpCode::NOP(op), 4, AddrMode::Absolute, address, index, memory, None, None),
        0x0D => fetch(OpCode::ORA(op), 4, AddrMode::Absolute, address, index, memory, sv1(CPURegister::A), sv1(CPURegister::A)),
        0x0E => fetch(OpCode::ASL(op), 6, AddrMode::Absolute, address, index, memory, None, None),
        0x0F => fetch(OpCode::SLO(op), 6, AddrMode::Absolute, address, index, memory, sv1(CPURegister::A), sv1(CPURegister::A)),
        0x10 => fetch(OpCode::BPL(op), 2, AddrMode::Relative, address, index, memory, None, None),
        0x11 => fetch(OpCode::ORA(op), 5, AddrMode::IndirectIndexedY(true), address, index, memory, sv2(CPURegister::A, CPURegister::Y), sv1(CPURegister::A)),
        0x12 => fetch(OpCode::HLT(op), 1, AddrMode::Implied, address, index, memory, None, None),
        0x13 => fetch(OpCode::SLO(op), 8, AddrMode::IndirectIndexedY(false), address, index, memory, sv2(CPURegister::A, CPURegister::Y), sv1(CPURegister::A)),
        0x14 => fetch(OpCode::NOP(op), 4, AddrMode::ZeropageIndexedX, address, index, memory, sv1(CPURegister::X), None),
        0x15 => fetch(OpCode::ORA(op), 4, AddrMode::ZeropageIndexedX, address, index, memory, sv2(CPURegister::A, CPURegister::X), sv1(CPURegister::A)),
        0x16 => fetch(OpCode::ASL(op), 6, AddrMode::ZeropageIndexedX, address, index, memory, sv1(CPURegister::X), None),
        0x17 => fetch(OpCode::SLO(op), 6, AddrMode::ZeropageIndexedX, address, index, memory, sv2(CPURegister::A, CPURegister::X), sv1(CPURegister::A)),
        0x18 => fetch(OpCode::CLC(op), 2, AddrMode::Implied, address, index, memory, None, None),
        0x19 => fetch(OpCode::ORA(op), 4, AddrMode::AbsoluteIndexedY(true), address, index, memory, sv2(CPURegister::A, CPURegister::Y), sv1(CPURegister::A)),
        0x1A => fetch(OpCode::NOP(op), 2, AddrMode::Implied, address, index, memory, None, None),
        0x1B => fetch(OpCode::SLO(op), 7, AddrMode::AbsoluteIndexedY(false), address, index, memory, sv2(CPURegister::A, CPURegister::Y), sv1(CPURegister::A)),
        0x1C => fetch(OpCode::NOP(op), 4, AddrMode::AbsoluteIndexedX(true), address, index, memory, None, None),
        0x1D => fetch(OpCode::ORA(op), 4, AddrMode::AbsoluteIndexedX(true), address, index, memory, sv2(CPURegister::A, CPURegister::X), sv1(CPURegister::A)),
        0x1E => fetch(OpCode::ASL(op), 7, AddrMode::AbsoluteIndexedX(false), address, index, memory, sv1(CPURegister::X), None),
        0x1F => fetch(OpCode::SLO(op), 7, AddrMode::AbsoluteIndexedX(false), address, index, memory, sv2(CPURegister::A, CPURegister::X), sv1(CPURegister::A)),
        0x20 => fetch(OpCode::JSR(op), 6, AddrMode::Absolute, address, index, memory, None, None),
        0x21 => fetch(OpCode::AND(op), 6, AddrMode::IndexedIndirectX, address, index, memory, sv2(CPURegister::A, CPURegister::X), sv1(CPURegister::A)),
        0x22 => fetch(OpCode::HLT(op), 1, AddrMode::Implied, address, index, memory, None, None),
        0x23 => fetch(OpCode::RLA(op), 8, AddrMode::IndexedIndirectX, address, index, memory, sv2(CPURegister::A, CPURegister::X), sv1(CPURegister::A)),
        0x24 => fetch(OpCode::BIT(op), 3, AddrMode::Zeropage, address, index, memory, None, None),
        0x25 => fetch(OpCode::AND(op), 3, AddrMode::Zeropage, address, index, memory, sv1(CPURegister::A), sv1(CPURegister::A)),
        0x26 => fetch(OpCode::ROL(op), 5, AddrMode::Zeropage, address, index, memory, None, None),
        0x27 => fetch(OpCode::RLA(op), 5, AddrMode::Zeropage, address, index, memory, sv1(CPURegister::A), sv1(CPURegister::A)),
        0x28 => fetch(OpCode::PLP(op), 4, AddrMode::Implied, address, index, memory, None, None),
        0x29 => fetch(OpCode::AND(op), 2, AddrMode::Immediate, address, index, memory, sv1(CPURegister::A), sv1(CPURegister::A)),
        0x2A => fetch(OpCode::ROL(op), 2, AddrMode::Accumulator, address, index, memory, sv1(CPURegister::A), sv1(CPURegister::A)),
        0x2B => fetch(OpCode::ANC(op), 2, AddrMode::Immediate, address, index, memory, sv1(CPURegister::A), None),
        0x2C => fetch(OpCode::BIT(op), 4, AddrMode::Absolute, address, index, memory, None, None),
        0x2D => fetch(OpCode::AND(op), 4, AddrMode::Absolute, address, index, memory, sv1(CPURegister::A), sv1(CPURegister::A)),
        0x2E => fetch(OpCode::ROL(op), 6, AddrMode::Absolute, address, index, memory, None, None),
        0x2F => fetch(OpCode::RLA(op), 6, AddrMode::Absolute, address, index, memory, sv1(CPURegister::A), sv1(CPURegister::A)),
        0x30 => fetch(OpCode::BMI(op), 2, AddrMode::Relative, address, index, memory, None, None),
        0x31 => fetch(OpCode::AND(op), 5, AddrMode::IndirectIndexedY(true), address, index, memory, sv2(CPURegister::A, CPURegister::Y), sv1(CPURegister::A)),
        0x32 => fetch(OpCode::HLT(op), 1, AddrMode::Implied, address, index, memory, None, None),
        0x33 => fetch(OpCode::RLA(op), 8, AddrMode::IndirectIndexedY(false), address, index, memory, sv2(CPURegister::A, CPURegister::Y), sv1(CPURegister::A)),
        0x34 => fetch(OpCode::NOP(op), 4, AddrMode::ZeropageIndexedX, address, index, memory, sv1(CPURegister::X), None),
        0x35 => fetch(OpCode::AND(op), 4, AddrMode::ZeropageIndexedX, address, index, memory, sv2(CPURegister::A, CPURegister::X), sv1(CPURegister::A)),
        0x36 => fetch(OpCode::ROL(op), 6, AddrMode::ZeropageIndexedX, address, index, memory, sv1(CPURegister::X), None),
        0x37 => fetch(OpCode::RLA(op), 6, AddrMode::ZeropageIndexedX, address, index, memory, sv2(CPURegister::A, CPURegister::X), sv1(CPURegister::A)),
        0x38 => fetch(OpCode::SEC(op), 2, AddrMode::Implied, address, index, memory, None, None),
        0x39 => fetch(OpCode::AND(op), 4, AddrMode::AbsoluteIndexedY(true), address, index, memory, sv2(CPURegister::A, CPURegister::Y), sv1(CPURegister::A)),
        0x3A => fetch(OpCode::NOP(op), 2, AddrMode::Implied, address, index, memory, None, None),
        0x3B => fetch(OpCode::RLA(op), 7, AddrMode::AbsoluteIndexedY(false), address, index, memory, sv2(CPURegister::A, CPURegister::Y), sv1(CPURegister::A)),
        0x3C => fetch(OpCode::NOP(op), 4, AddrMode::AbsoluteIndexedX(true), address, index, memory, sv1(CPURegister::X), None),
        0x3D => fetch(OpCode::AND(op), 4, AddrMode::AbsoluteIndexedX(true), address, index, memory, sv2(CPURegister::A, CPURegister::X), sv1(CPURegister::A)),
        0x3E => fetch(OpCode::ROL(op), 7, AddrMode::AbsoluteIndexedX(false), address, index, memory, sv1(CPURegister::X), None),
        0x3F => fetch(OpCode::RLA(op), 7, AddrMode::AbsoluteIndexedX(false), address, index, memory, sv2(CPURegister::A, CPURegister::X), sv1(CPURegister::A)),
        // defensive default; every byte in range is matched above
        _ => fetch(OpCode::NOP(op), 0, AddrMode::Implied, address, index, memory, None, None),
    }
}

/// Decode dispatch for opcode bytes `0x40` through `0x7F`.
#[verifier::rlimit(100)]
fn decode_40_7f(address: u16, index: &mut usize, memory: &[u8], op: u8) -> (instruction: Instruction)
    requires
        0x40 <= op <= 0x7F,
        *old(index) + 1 + operand_bytes(op_info(op).mode) <= usize::MAX,
    ensures
        ({
            let info = op_info(op);
            &&& instruction.opcode == info.opcode
            &&& instruction.cycles == info.cycles
            &&& instruction.addr_mode == info.mode
            &&& instruction.address == address
            &&& instruction.operand == spec_operand(info.mode, *old(index) + 1, memory@)
            &&& instruction.extra_cycle == spec_extra_cycle(info.mode)
            &&& instruction.illegal == is_illegal(op)
            &&& opt_view(instruction.registers_read) == info.reads
            &&& opt_view(instruction.registers_written) == info.writes
            &&& opt_view(instruction.affected_flags) == flags_of(info.opcode)
            &&& *final(index) == *old(index) + 1 + operand_bytes(info.mode)
            &&& instruction.wf()
        }),
{
    match op {
        0x40 => fetch(OpCode::RTI(op), 6, AddrMode::Implied, address, index, memory, None, None),
        0x41 => fetch(OpCode::EOR(op), 6, AddrMode::IndexedIndirectX, address, index, memory, sv2(CPURegister::A, CPURegister::X), sv1(CPURegister::A)),
        0x42 => fetch(OpCode::HLT(op), 1, AddrMode::Implied, address, index, memory, None, None),
        0x43 => fetch(OpCode::SRE(op), 8, AddrMode::IndexedIndirectX, address, index, memory, sv2(CPURegister::A, CPURegister::X), sv1(CPURegister::A)),
        0x44 => fetch(OpCode::NOP(op), 3, AddrMode::Zeropage, address, index, memory, None, None),
        0x45 => fetch(OpCode::EOR(op), 3, AddrMode::Zeropage, address, index, memory, sv1(CPURegister::A), sv1(CPURegister::A)),
        0x46 => fetch(OpCode::LSR(op), 5, AddrMode::Zeropage, address, index, memory, None, None),
        0x47 => fetch(OpCode::SRE(op), 5, AddrMode::Zeropage, address, index, memory, sv1(CPURegister::A), sv1(CPURegister::A)),
        0x48 => fetch(OpCode::PHA(op), 3, AddrMode::Implied, address, index, memory, sv1(CPURegister::A), None),
        0x49 => fetch(OpCode::EOR(op), 2, AddrMode::Immediate, address, index, memory, sv1(CPURegister::A), sv1(CPURegister::A)),
        0x4A => fetch(OpCode::LSR(op), 2, AddrMode::Accumulator, address, index, memory, sv1(CPURegister::A), sv1(CPURegister::A)),
        0x4B => fetch(OpCode::ALR(op), 2, AddrMode::Immediate, address, index, memory, None, None),
        0x4C => fetch(OpCode::JMP(op), 3, AddrMode::Absolute, address, index, memory, None, None),
        0x4D => fetch(OpCode::EOR(op), 4, AddrMode::Absolute, address, index, memory, sv1(CPURegister::A), sv1(CPURegister::A)),
        0x4E => fetch(OpCode::LSR(op), 6, AddrMode::Absolute, address, index, memory, None, None),
        0x4F => fetch(OpCode::SRE(op), 6, AddrMode::Absolute, address, index, memory, sv1(CPURegister::A), sv1(CPURegister::A)),
        0x50 => fetch(OpCode::BVC(op), 2, AddrMode::Relative, address, index, memory, None, None),
        0x51 => fetch(OpCode::EOR(op), 5, AddrMode::IndirectIndexedY(true), address, index, memory, sv2(CPURegister::A, CPURegister::Y), sv1(CPURegister::A)),
        0x52 => fetch(OpCode::HLT(op), 1, AddrMode::Implied, address, index, memory, None, None),
        0x53 => fetch(OpCode::SRE(op), 8, AddrMode::IndirectIndexedY(false), address, index, memory, sv2(CPURegister::A, CPURegister::Y), sv1(CPURegister::A)),
        0x54 => fetch(OpCode::NOP(op), 4, AddrMode::ZeropageIndexedX, address, index, memory, sv1(CPURegister::X), None),
        0x55 => fetch(OpCode::EOR(op), 4, AddrMode::ZeropageIndexedX, address, index, memory, sv2(CPURegister::A, CPURegister::X), sv1(CPURegister::A)),
        0x56 => fetch(OpCode::LSR(op), 6, AddrMode::ZeropageIndexedX, address, index, memory, sv1(CPURegister::X), None),
        0x57 => fetch(OpCode::SRE(op), 6, AddrMode::ZeropageIndexedX, address, index, memory, sv2(CPURegister::A, CPURegister::X), sv1(CPURegister::A)),
        0x58 => fetch(OpCode::CLI(op), 2, AddrMode::Implied, address, index, memory, None, None),
        0x59 => fetch(OpCode::EOR(op), 4, AddrMode::AbsoluteIndexedY(true), address, index, memory, sv2(CPURegister::A, CPURegister::Y), sv1(CPURegister::A)),
        0x5A => fetch(OpCode::NOP(op), 2, AddrMode::Implied, address, index, memory, None, None),
        0x5B => fetch(OpCode::SRE(op), 7, AddrMode::AbsoluteIndexedY(false), address, index, memory, sv2(CPURegister::A, CPURegister::Y), sv1(CPURegister::A)),
        0x5C => fetch(OpCode::NOP(op), 4, AddrMode::AbsoluteIndexedX(true), address, index, memory, sv1(CPURegister::X), None),
        0x5D => fetch(OpCode::EOR(op), 4, AddrMode::AbsoluteIndexedX(true), address, index, memory, sv2(CPURegister::A, CPURegister::X), sv1(CPURegister::A)),
        0x5E => fetch(OpCode::LSR(op), 7, AddrMode::AbsoluteIndexedX(false), address, index, memory, sv1(CPURegister::X), None),
        0x5F => fetch(OpCode::SRE(op), 7, AddrMode::AbsoluteIndexedX(false), address, index, memory, sv2(CPURegister::A, CPURegister::X), sv1(CPURegister::A)),
        0x60 => fetch(OpCode::RTS(op), 6, AddrMode::Implied, address, index, memory, None, None),
        0x61 => fetch(OpCode::ADC(op), 6, AddrMode::IndexedIndirectX, address, index, memory, sv2(CPURegister::A, CPURegister::X), sv1(CPURegister::A)),
        0x62 => fetch(OpCode::HLT(op), 1, AddrMode::Implied, address, index, memory, None, None),
        0x63 => fetch(OpCode::RRA(op), 8, AddrMode::IndexedIndirectX, address, index, memory, sv2(CPURegister::A, CPURegister::X), sv1(CPURegister::A)),
        0x64 => fetch(OpCode::NOP(op), 3, AddrMode::Zeropage, address, index, memory, None, None),
        0x65 => fetch(OpCode::ADC(op), 3, AddrMode::Zeropage, address, index, memory, sv1(CPURegister::A), sv1(CPURegister::A)),
        0x66 => fetch(OpCode::ROR(op), 5, AddrMode::Zeropage, address, index, memory, None, None),
        0x67 => fetch(OpCode::RRA(op), 5, AddrMode::Zeropage, address, index, memory, sv1(CPURegister::A), sv1(CPURegister::A)),
        0x68 => fetch(OpCode::PLA(op), 4, AddrMode::Implied, address, index, memory, None, None),
        0x69 => fetch(OpCode::ADC(op), 2, AddrMode::Immediate, address, index, memory, sv1(CPURegister::A), sv1(CPURegister::A)),
        0x6A => fetch(OpCode::ROR(op), 2, AddrMode::Accumulator, address, index, memory, sv1(CPURegister::A), sv1(CPURegister::A)),
        0x6B => fetch(OpCode::ARR(op), 2, AddrMode::Immediate, address, index, memory, None, None),
        0x6C => fetch(OpCode::JMP(op), 5, AddrMode::Indirect, address, index, memory, None, None),
        0x6D => fetch(OpCode::ADC(op), 4, AddrMode::Absolute, address, index, memory, sv1(CPURegister::A), sv1(CPURegister::A)),
        0x6E => fetch(OpCode::ROR(op), 6, AddrMode::Absolute, address, index, memory, None, None),
        0x6F => fetch(OpCode::RRA(op), 6, AddrMode::Absolute, address, index, memory, sv1(CPURegister::A), sv1(CPURegister::A)),
        0x70 => fetch(OpCode::BVS(op), 2, AddrMode::Relative, address, index, memory, None, None),
        0x71 => fetch(OpCode::ADC(op), 5, AddrMode::IndirectIndexedY(true), address, index, memory, sv2(CPURegister::A, CPURegister::Y), sv1(CPURegister::A)),
        0x72 => fetch(OpCode::HLT(op), 1, AddrMode::Implied, address, index, memory, None, None),
        0x73 => fetch(OpCode::RRA(op), 8, AddrMode::IndirectIndexedY(false), address, index, memory, sv2(CPURegister::A, CPURegister::Y), sv1(CPURegister::A)),
        0x74 => fetch(OpCode::NOP(op), 4, AddrMode::ZeropageIndexedX, address, index, memory, sv1(CPURegister::X), None),
        0x75 => fetch(OpCode::ADC(op), 4, AddrMode::ZeropageIndexedX, address, index, memory, sv2(CPURegister::A, CPURegister::X), sv1(CPURegister::A)),
        0x76 => fetch(OpCode::ROR(op), 6, AddrMode::ZeropageIndexedX, address, index, memory, sv1(CPURegister::X), None),
        0x77 => fetch(OpCode::RRA(op), 6, AddrMode::ZeropageIndexedX, address, index, memory, sv2(CPURegister::A, CPURegister::X), sv1(CPURegister::A)),
        0x78 => fetch(OpCode::SEI(op), 2, AddrMode::Implied, address, index, memory, None, None),
        0x79 => fetch(OpCode::ADC(op), 4, AddrMode::AbsoluteIndexedY(true), address, index, memory, sv2(CPURegister::A, CPURegister::Y), sv1(CPURegister::A)),
        0x7A => fetch(OpCode::NOP(op), 2, AddrMode::Implied, address, index, memory, None, None),
        0x7B => fetch(OpCode::RRA(op), 7, AddrMode::AbsoluteIndexedY(false), address, index, memory, sv2(CPURegister::A, CPURegister::Y), sv1(CPURegister::A)),
        0x7C => fetch(OpCode::NOP(op), 4, AddrMode::AbsoluteIndexedX(true), address, index, memory, sv1(CPURegister::X), None),
        0x7D => fetch(OpCode::ADC(op), 4, AddrMode::AbsoluteIndexedX(true), address, index, memory, sv2(CPURegister::A, CPURegister::X), sv1(CPURegister::A)),
        0x7E => fetch(OpCode::ROR(op), 7, AddrMode::AbsoluteIndexedX(false), address, index, memory, sv1(CPURegister::X), None),
        0x7F => fetch(OpCode::RRA(op), 7, AddrMode::AbsoluteIndexedX(false), address, index, memory, sv2(CPURegister::A, CPURegister::X), sv1(CPURegister::A)),
        // defensive default; every byte in range is matched above
        _ => fetch(OpCode::NOP(op), 0, AddrMode::Implied, address, index, memory, None, None),
    }
}

/// Decode dispatch for opcode bytes `0x80` through `0xBF`.
#[verifier::rlimit(100)]
fn decode_80_bf(address: u16, index: &mut usize, memory: &[u8], op: u8) -> (instruction: Instruction)
    requires
        0x80 <= op <= 0xBF,
        *old(index) + 1 + operand_bytes(op_info(op).mode) <= usize::MAX,
    ensures
        ({
            let info = op_info(op);
            &&& instruction.opcode == info.opcode
            &&& instruction.cycles == info.cycles
            &&& instruction.addr_mode == info.mode
            &&& instruction.address == address
            &&& instruction.operand == spec_operand(info.mode, *old(index) + 1, memory@)
            &&& instruction.extra_cycle == spec_extra_cycle(info.mode)
            &&& instruction.illegal == is_illegal(op)
            &&& opt_view(instruction.registers_read) == info.reads
            &&& opt_view(instruction.registers_written) == info.writes
            &&& opt_view(instruction.affected_flags) == flags_of(info.opcode)
            &&& *final(index) == *old(index) + 1 + operand_bytes(info.mode)
            &&& instruction.wf()
        }),
{
    match op {
        0x80 => fetch(OpCode::NOP(op), 2, AddrMode::Immediate, address, index, memory, None, None),
        0x81 => fetch(OpCode::STA(op), 6, AddrMode::IndexedIndirectX, address, index, memory, sv2(CPURegister::A, CPURegister::X), None),
        0x82 => fetch(OpCode::NOP(op), 2, AddrMode::Immediate, address, index, memory, None, None),
        0x83 => fetch(OpCode::SAX(op), 6, AddrMode::IndexedIndirectX, address, index, memory, sv2(CPURegister::A, CPURegister::X), None),
        0x84 => fetch(OpCode::STY(op), 3, AddrMode::Zeropage, address, index, memory, sv1(CPURegister::Y), None),
        0x85 => fetch(OpCode::STA(op), 3, AddrMode::Zeropage, address, index, memory, sv1(CPURegister::A), None),
        0x86 => fetch(OpCode::STX(op), 3, AddrMode::Zeropage, address, index, memory, sv1(CPURegister::X), None),
        0x87 => fetch(OpCode::SAX(op), 3, AddrMode::Zeropage, address, index, memory, sv2(CPURegister::A, CPURegister::X), None),
        0x88 => fetch(OpCode::DEY(op), 2, AddrMode::Implied, address, index, memory, sv1(CPURegister::Y), sv1(CPURegister::Y)),
        0x89 => fetch(OpCode::NOP(op), 2, AddrMode::Immediate, address, index, memory, None, None),
        0x8A => fetch(OpCode::TXA(op), 2, AddrMode::Implied, address, index, memory, sv1(CPURegister::X), sv1(CPURegister::A)),
        0x8B => fetch(OpCode::XAA(op), 2, AddrMode::Immediate, address, index, memory, None, None),
        0x8C => fetch(OpCode::STY(op), 4, AddrMode::Absolute, address, index, memory, sv1(CPURegister::Y), None),
        0x8D => fetch(OpCode::STA(op), 4, AddrMode::Absolute, address, index, memory, sv1(CPURegister::A), None),
        0x8E => fetch(OpCode::STX(op), 4, AddrMode::Absolute, address, index, memory, sv1(CPURegister::X), None),
        0x8F => fetch(OpCode::SAX(op), 4, AddrMode::Absolute, address, index, memory, sv2(CPURegister::A, CPURegister::X), None),
        0x90 => fetch(OpCode::BCC(op), 2, AddrMode::Relative, address, index, memory, None, None),
        0x91 => fetch(OpCode::STA(op), 6, AddrMode::IndirectIndexedY(false), address, index, memory, sv2(CPURegister::A, CPURegister::Y), None),
        0x92 => fetch(OpCode::HLT(op), 1, AddrMode::Implied, address, index, memory, None, None),
        0x93 => fetch(OpCode::AHX(op), 6, AddrMode::IndirectIndexedY(false), address, index, memory, sv1(CPURegister::Y), None),
        0x94 => fetch(OpCode::STY(op), 4, AddrMode::ZeropageIndexedX, address, index, memory, sv2(CPURegister::X, CPURegister::Y), None),
        0x95 => fetch(OpCode::STA(op), 4, AddrMode::ZeropageIndexedX, address, index, memory, sv2(CPURegister::A, CPURegister::X), None),
        0x96 => fetch(OpCode::STX(op), 4, AddrMode::ZeropageIndexedY, address, index, memory, sv2(CPURegister::X, CPURegister::Y), None),
        0x97 => fetch(OpCode::SAX(op), 4, AddrMode::ZeropageIndexedY, address, index, memory, sv3(CPURegister::A, CPURegister::X, CPURegister::Y), None),
        0x98 => fetch(OpCode::TYA(op), 2, AddrMode::Implied, address, index, memory, sv1(CPURegister::Y), sv1(CPURegister::A)),
        0x99 => fetch(OpCode::STA(op), 5, AddrMode::AbsoluteIndexedY(false), address, index, memory, sv2(CPURegister::A, CPURegister::Y), None),
        0x9A => fetch(OpCode::TXS(op), 2, AddrMode::Implied, address, index, memory, sv1(CPURegister::X), None),
        0x9B => fetch(OpCode::TAS(op), 5, AddrMode::AbsoluteIndexedY(false), address, index, memory, sv3(CPURegister::A, CPURegister::X, CPURegister::Y), None),
        0x9C => fetch(OpCode::SHY(op), 5, AddrMode::AbsoluteIndexedX(false), address, index, memory, sv2(CPURegister::A, CPURegister::X), None),
        0x9D => fetch(OpCode::STA(op), 5, AddrMode::AbsoluteIndexedX(false), address, index, memory, sv2(CPURegister::A, CPURegister::X), None),
        0x9E => fetch(OpCode::SHX(op), 5, AddrMode::AbsoluteIndexedY(false), address, index, memory, sv2(CPURegister::X, CPURegister::Y), None),
        0x9F => fetch(OpCode::AHX(op), 5, AddrMode::AbsoluteIndexedY(false), address, index, memory, sv1(CPURegister::Y), None),
        0xA0 => fetch(OpCode::LDY(op), 2, AddrMode::Immediate, address, index, memory, None, sv1(CPURegister::Y)),
        0xA1 => fetch(OpCode::LDA(op), 6, AddrMode::IndexedIndirectX, address, index, memory, sv1(CPURegister::X), sv1(CPURegister::A)),
        0xA2 => fetch(OpCode::LDX(op), 2, AddrMode::Immediate, address, index, memory, None, sv1(CPURegister::X)),
        0xA3 => fetch(OpCode::LAX(op), 6, AddrMode::IndexedIndirectX, address, index, memory, sv1(CPURegister::X), sv2(CPURegister::A, CPURegister::X)),
        0xA4 => fetch(OpCode::LDY(op), 3, AddrMode::Zeropage, address, index, memory, None, sv1(CPURegister::Y)),
        0xA5 => fetch(OpCode::LDA(op), 3, AddrMode::Zeropage, address, index, memory, None, sv1(CPURegister::A)),
        0xA6 => fetch(OpCode::LDX(op), 3, AddrMode::Zeropage, address, index, memory, None, sv1(CPURegister::X)),
        0xA7 => fetch(OpCode::LAX(op), 3, AddrMode::Zeropage, address, index, memory, None, sv2(CPURegister::A, CPURegister::X)),
        0xA8 => fetch(OpCode::TAY(op), 2, AddrMode::Implied, address, index, memory, sv1(CPURegister::A), sv1(CPURegister::Y)),
        0xA9 => fetch(OpCode::LDA(op), 2, AddrMode::Immediate, address, index, memory, None, sv1(CPURegister::A)),
        0xAA => fetch(OpCode::TAX(op), 2, AddrMode::Implied, address, index, memory, sv1(CPURegister::A), sv1(CPURegister::X)),
        0xAB => fetch(OpCode::LAX(op), 2, AddrMode::Immediate, address, index, memory, None, sv2(CPURegister::A, CPURegister::X)),
        0xAC => fetch(OpCode::LDY(op), 4, AddrMode::Absolute, address, index, memory, None, sv1(CPURegister::Y)),
        0xAD => fetch(OpCode::LDA(op), 4, AddrMode::Absolute, address, index, memory, None, sv1(CPURegister::A)),
        0xAE => fetch(OpCode::LDX(op), 4, AddrMode::Absolute, address, index, memory, None, sv1(CPURegister::X)),
        0xAF => fetch(OpCode::LAX(op), 4, AddrMode::Absolute, address, index, memory, None, sv2(CPURegister::A, CPURegister::X)),
        0xB0 => fetch(OpCode::BCS(op), 2, AddrMode::Relative, address, index, memory, None, None),
        0xB1 => fetch(OpCode::LDA(op), 5, AddrMode::IndirectIndexedY(true), address, index, memory, sv1(CPURegister::Y), sv1(CPURegister::A)),
        0xB2 => fetch(OpCode::HLT(op), 1, AddrMode::Implied, address, index, memory, None, None),
        0xB3 => fetch(OpCode::LAX(op), 5, AddrMode::IndirectIndexedY(true), address, index, memory, sv1(CPURegister::Y), sv2(CPURegister::A, CPURegister::X)),
        0xB4 => fetch(OpCode::LDY(op), 4, AddrMode::ZeropageIndexedX, address, index, memory, sv1(CPURegister::X), sv1(CPURegister::Y)),
        0xB5 => fetch(OpCode::LDA(op), 4, AddrMode::ZeropageIndexedX, address, index, memory, sv1(CPURegister::X), sv1(CPURegister::A)),
        0xB6 => fetch(OpCode::LDX(op), 4, AddrMode::ZeropageIndexedY, address, index, memory, sv1(CPURegister::Y), sv1(CPURegister::X)),
        0xB7 => fetch(OpCode::LAX(op), 4, AddrMode::ZeropageIndexedY, address, index, memory, sv1(CPURegister::Y), sv2(CPURegister::A, CPURegister::X)),
        0xB8 => fetch(OpCode::CLV(op), 2, AddrMode::Implied, address, index, memory, None, None),
        0xB9 => fetch(OpCode::LDA(op), 4, AddrMode::AbsoluteIndexedY(true), address, index, memory, sv1(CPURegister::Y), sv1(CPURegister::A)),
        0xBA => fetch(OpCode::TSX(op), 2, AddrMode::Implied, address, index, memory, None, sv1(CPURegister::X)),
        0xBB => fetch(OpCode::LAS(op), 4, AddrMode::AbsoluteIndexedY(true), address, index, memory, None, None),
        0xBC => fetch(OpCode::LDY(op), 4, AddrMode::AbsoluteIndexedX(true), address, index, memory, sv1(CPURegister::X), sv1(CPURegister::Y)),
        0xBD => fetch(OpCode::LDA(op), 4, AddrMode::AbsoluteIndexedX(true), address, index, memory, sv1(CPURegister::X), sv1(CPURegister::A)),
        0xBE => fetch(OpCode::LDX(op), 4, AddrMode::AbsoluteIndexedY(true), address, index, memory, sv1(CPURegister::Y), sv1(CPURegister::X)),
        0xBF => fetch(OpCode::LAX(op), 4, AddrMode::AbsoluteIndexedY(true), address, index, memory, sv1(CPURegister::Y), sv2(CPURegister::A, CPURegister::X)),
        // defensive default; every byte in range is matched above
        _ => fetch(OpCode::NOP(op), 0, AddrMode::Implied, address, index, memory, None, None),
    }
}

/// Decode dispatch for opcode bytes `0xC0` through `0xFF`.
#[verifier::rlimit(100)]
fn decode_c0_ff(address: u16, index: &mut usize, memory: &[u8], op: u8) -> (instruction: Instruction)
    requires
        0xC0 <= op <= 0xFF,
        *old(index) + 1 + operand_bytes(op_info(op).mode) <= usize::MAX,
    ensures
        ({
            let info = op_info(op);
            &&& instruction.opcode == info.opcode
            &&& instruction.cycles == info.cycles
            &&& instruction.addr_mode == info.mode
            &&& instruction.address == address
            &&& instruction.operand == spec_operand(info.mode, *old(index) + 1, memory@)
            &&& instruction.extra_cycle == spec_extra_cycle(info.mode)
            &&& instruction.illegal == is_illegal(op)
            &&& opt_view(instruction.registers_read) == info.reads
            &&& opt_view(instruction.registers_written) == info.writes
            &&& opt_view(instruction.affected_flags) == flags_of(info.opcode)
            &&& *final(index) == *old(index) + 1 + operand_bytes(info.mode)
            &&& instruction.wf()
        }),
{
    match op {
        0xC0 => fetch(OpCode::CPY(op), 2, AddrMode::Immediate, address, index, memory, sv1(CPURegister::Y), None),
        0xC1 => fetch(OpCode::CMP(op), 6, AddrMode::IndexedIndirectX, address, index, memory, sv2(CPURegister::A, CPURegister::X), None),
        0xC2 => fetch(OpCode::NOP(op), 2, AddrMode::Immediate, address, index, memory, None, None),
        0xC3 => fetch(OpCode::DCP(op), 8, AddrMode::IndexedIndirectX, address, index, memory, sv2(CPURegister::A, CPURegister::X), None),
        0xC4 => fetch(OpCode::CPY(op), 3, AddrMode::Zeropage, address, index, memory, sv1(CPURegister::Y), None),
        0xC5 => fetch(OpCode::CMP(op), 3, AddrMode::Zeropage, address, index, memory, sv1(CPURegister::A), None),
        0xC6 => fetch(OpCode::DEC(op), 5, AddrMode::Zeropage, address, index, memory, None, None),
        0xC7 => fetch(OpCode::DCP(op), 5, AddrMode::Zeropage, address, index, memory, sv1(CPURegister::A), None),
        0xC8 => fetch(OpCode::INY(op), 2, AddrMode::Implied, address, index, memory, sv1(CPURegister::Y), sv1(CPURegister::Y)),
        0xC9 => fetch(OpCode::CMP(op), 2, AddrMode::Immediate, address, index, memory, sv1(CPURegister::A), None),
        0xCA => fetch(OpCode::DEX(op), 2, AddrMode::Implied, address, index, memory, sv1(CPURegister::X), sv1(CPURegister::X)),
        0xCB => fetch(OpCode::AXS(op), 2, AddrMode::Immediate, address, index, memory, None, None),
        0xCC => fetch(OpCode::CPY(op), 4, AddrMode::Absolute, address, index, memory, sv1(CPURegister::Y), None),
        0xCD => fetch(OpCode::CMP(op), 4, AddrMode::Absolute, address, index, memory, sv1(CPURegister::A), None),
        0xCE => fetch(OpCode::DEC(op), 6, AddrMode::Absolute, address, index, memory, None, None),
        0xCF => fetch(OpCode::DCP(op), 6, AddrMode::Absolute, address, index, memory, sv1(CPURegister::A), None),
        0xD0 => fetch(OpCode::BNE(op), 2, AddrMode::Relative, address, index, memory, None, None),
        0xD1 => fetch(OpCode::CMP(op), 5, AddrMode::IndirectIndexedY(true), address, index, memory, sv2(CPURegister::A, CPURegister::Y), None),
        0xD2 => fetch(OpCode::HLT(op), 1, AddrMode::Implied, address, index, memory, None, None),
        0xD3 => fetch(OpCode::DCP(op), 8, AddrMode::IndirectIndexedY(false), address, index, memory, sv2(CPURegister::A, CPURegister::Y), None),
        0xD4 => fetch(OpCode::NOP(op), 4, AddrMode::ZeropageIndexedX, address, index, memory, sv1(CPURegister::X), None),
        0xD5 => fetch(OpCode::CMP(op), 4, AddrMode::ZeropageIndexedX, address, index, memory, sv2(CPURegister::A, CPURegister::X), None),
        0xD6 => fetch(OpCode::DEC(op), 6, AddrMode::ZeropageIndexedX, address, index, memory, sv1(CPURegister::X), None),
        0xD7 => fetch(OpCode::DCP(op), 6, AddrMode::ZeropageIndexedX, address, index, memory, sv2(CPURegister::A, CPURegister::X), None),
        0xD8 => fetch(OpCode::CLD(op), 2, AddrMode::Implied, address, index, memory, None, None),
        0xD9 => fetch(OpCode::CMP(op), 4, AddrMode::AbsoluteIndexedY(true), address, index, memory, sv2(CPURegister::A, CPURegister::Y), None),
        0xDA => fetch(OpCode::NOP(op), 2, AddrMode::Implied, address, index, memory, None, None),
        0xDB => fetch(OpCode::DCP(op), 7, AddrMode::AbsoluteIndexedY(false), address, index, memory, sv2(CPURegister::A, CPURegister::Y), None),
        0xDC => fetch(OpCode::NOP(op), 4, AddrMode::AbsoluteIndexedX(true), address, index, memory, sv1(CPURegister::X), None),
        0xDD => fetch(OpCode::CMP(op), 4, AddrMode::AbsoluteIndexedX(true), address, index, memory, sv2(CPURegister::A, CPURegister::X), None),
        0xDE => fetch(OpCode::DEC(op), 7, AddrMode::AbsoluteIndexedX(false), address, index, memory, sv1(CPURegister::X), None),
        0xDF => fetch(OpCode::DCP(op), 7, AddrMode::AbsoluteIndexedX(false), address, index, memory, sv2(CPURegister::A, CPURegister::X), None),
        0xE0 => fetch(OpCode::CPX(op), 2, AddrMode::Immediate, address, index, memory, sv1(CPURegister::X), None),
        0xE1 => fetch(OpCode::SBC(op), 6, AddrMode::IndexedIndirectX, address, index, memory, sv2(CPURegister::A, CPURegister::X), sv1(CPURegister::A)),
        0xE2 => fetch(OpCode::NOP(op), 2, AddrMode::Immediate, address, index, memory, None, None),
        0xE3 => fetch(OpCode::ISC(op), 8, AddrMode::IndexedIndirectX, address, index, memory, sv2(CPURegister::A, CPURegister::X), sv1(CPURegister::A)),
        0xE4 => fetch(OpCode::CPX(op), 3, AddrMode::Zeropage, address, index, memory, sv1(CPURegister::X), None),
        0xE5 => fetch(OpCode::SBC(op), 3, AddrMode::Zeropage, address, index, memory, sv1(CPURegister::A), sv1(CPURegister::A)),
        0xE6 => fetch(OpCode::INC(op), 5, AddrMode::Zeropage, address, index, memory, None, None),
        0xE7 => fetch(OpCode::ISC(op), 5, AddrMode::Zeropage, address, index, memory, sv1(CPURegister::A), sv1(CPURegister::A)),
        0xE8 => fetch(OpCode::INX(op), 2, AddrMode::Implied, address, index, memory, sv1(CPURegister::X), sv1(CPURegister::X)),
        0xE9 => fetch(OpCode::SBC(op), 2, AddrMode::Immediate, address, index, memory, sv1(CPURegister::A), sv1(CPURegister::A)),
        0xEA => fetch(OpCode::NOP(op), 2, AddrMode::Implied, address, index, memory, None, None),
        0xEB => fetch(OpCode::SBC(op), 2, AddrMode::Immediate, address, index, memory, sv1(CPURegister::A), sv1(CPURegister::A)),
        0xEC => fetch(OpCode::CPX(op), 4, AddrMode::Absolute, address, index, memory, sv1(CPURegister::X), None),
        0xED => fetch(OpCode::SBC(op), 4, AddrMode::Absolute, address, index, memory, sv1(CPURegister::A), sv1(CPURegister::A)),
        0xEE => fetch(OpCode::INC(op), 6, AddrMode::Absolute, address, index, memory, None, None),
        0xEF => fetch(OpCode::ISC(op), 6, AddrMode::Absolute, address, index, memory, sv1(CPURegister::A), sv1(CPURegister::A)),
        0xF0 => fetch(OpCode::BEQ(op), 2, AddrMode::Relative, address, index, memory, None, None),
        0xF1 => fetch(OpCode::SBC(op), 5, AddrMode::IndirectIndexedY(true), address, index, memory, sv2(CPURegister::A, CPURegister::Y), sv1(CPURegister::A)),
        0xF2 => fetch(OpCode::HLT(op), 1, AddrMode::Implied, address, index, memory, None, None),
        0xF3 => fetch(OpCode::ISC(op), 8, AddrMode::IndirectIndexedY(false), address, index, memory, sv2(CPURegister::A, CPURegister::Y), sv1(CPURegister::A)),
        0xF4 => fetch(OpCode::NOP(op), 4, AddrMode::ZeropageIndexedX, address, index, memory, sv1(CPURegister::X), None),
        0xF5 => fetch(OpCode::SBC(op), 4, AddrMode::ZeropageIndexedX, address, index, memory, sv2(CPURegister::A, CPURegister::X), sv1(CPURegister::A)),
        0xF6 => fetch(OpCode::INC(op), 6, AddrMode::ZeropageIndexedX, address, index, memory, sv1(CPURegister::X), None),
        0xF7 => fetch(OpCode::ISC(op), 6, AddrMode::ZeropageIndexedX, address, index, memory, sv2(CPURegister::A, CPURegister::X), sv1(CPURegister::A)),
        0xF8 => fetch(OpCode::SED(op), 2, AddrMode::Implied, address, index, memory, None, None),
        0xF9 => fetch(OpCode::SBC(op), 4, AddrMode::AbsoluteIndexedY(true), address, index, memory, sv2(CPURegister::A, CPURegister::Y), sv1(CPURegister::A)),
        0xFA => fetch(OpCode::NOP(op), 2, AddrMode::Implied, address, index, memory, None, None),
        0xFB => fetch(OpCode::ISC(op), 7, AddrMode::AbsoluteIndexedY(false), address, index, memory, sv2(CPURegister::A, CPURegister::Y), sv1(CPURegister::A)),
        0xFC => fetch(OpCode::NOP(op), 4, AddrMode::AbsoluteIndexedX(true), address, index, memory, sv1(CPURegister::X), None),
        0xFD => fetch(OpCode::SBC(op), 4, AddrMode::AbsoluteIndexedX(true), address, index, memory, sv2(CPURegister::A, CPURegister::X), sv1(CPURegister::A)),
        0xFE => fetch(OpCode::INC(op), 7, AddrMode::AbsoluteIndexedX(false), address, index, memory, sv1(CPURegister::X), None),
        0xFF => fetch(OpCode::ISC(op), 7, AddrMode::AbsoluteIndexedX(false), address, index, memory, sv2(CPURegister::A, CPURegister::X), sv1(CPURegister::A)),
        // defensive default; every byte in range is matched above
        _ => fetch(OpCode::NOP(op), 0, AddrMode::Implied, address, index, memory, None, None),
    }
}

/// Decode the instruction at `*index` in `memory`, placing it at `address`.
///
/// Reads the opcode byte at `*index`, which must be in range, fetches the
/// operand its addressing mode calls for (missing trailing bytes read as
/// zero) and leaves `*index` just past the instruction. Every field of the
/// returned record is determined by the reference table entry for that byte.
pub fn decode(address: u16, index: &mut usize, memory: &[u8]) -> (instruction: Instruction)
    requires
        *old(index) < memory@.len(),
        *old(index) + 1 + operand_bytes(op_info(memory@[*old(index) as int]).mode)
            <= usize::MAX,
    ensures
        ({
            let info = op_info(memory@[*old(index) as int]);
            &&& instruction.opcode == info.opcode
            &&& instruction.cycles == info.cycles
            &&& instruction.addr_mode == info.mode
            &&& instruction.address == address
            &&& instruction.operand == spec_operand(info.mode, *old(index) + 1, memory@)
            &&& instruction.extra_cycle == spec_extra_cycle(info.mode)
            &&& instruction.illegal == is_illegal(memory@[*old(index) as int])
            &&& opt_view(instruction.registers_read) == info.reads
            &&& opt_view(instruction.registers_written) == info.writes
            &&& opt_view(instruction.affected_flags) == flags_of(info.opcode)
            &&& *final(index) == *old(index) + 1 + operand_bytes(info.mode)
            &&& instruction.wf()
        }),
{
    let op = memory[*index];

    if op < 0x40 {
        decode_00_3f(address, index, memory, op)
    } else if op < 0x80 {
        decode_40_7f(address, index, memory, op)
    } else if op < 0xC0 {
        decode_80_bf(address, index, memory, op)
    } else {
        decode_c0_ff(address, index, memory, op)
    }
}

} // verus!
