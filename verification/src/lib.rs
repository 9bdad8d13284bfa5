//! A 6502 machine-code disassembler.
//!
//! Given a memory image, a cursor into it and a target address, the library
//! decodes one instruction at a time into a structured record carrying the
//! opcode, addressing mode, operand, cycle cost and the registers and status
//! flags the instruction touches, and renders the record as fixed-width hex
//! and as an assembler-style mnemonic string.

pub mod hexfmt;
pub mod instruction;
pub mod opcode;
pub mod optable;
pub mod reader;
