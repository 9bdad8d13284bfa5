//! Component-level tests for the byte/word reader, the operand fetcher and
//! the hex rendering helpers.

use disasm6502::hexfmt::{hex_byte_str, hex_word_str};
use disasm6502::opcode::{fetch_affected_flags, illegal_opcode, AddrMode, CPUStatusFlag, OpCode};
use disasm6502::reader::{fetch_operand, read_byte, read_word_le};

#[test]
fn read_byte_widens_and_defaults_to_zero() {
    let buffer: Vec<u8> = vec![0xDE, 0xAD];
    assert_eq!(read_byte(0, &buffer), 0x00DE);
    assert_eq!(read_byte(1, &buffer), 0x00AD);
    assert_eq!(read_byte(2, &buffer), 0x0000);
    assert_eq!(read_byte(1000, &buffer), 0x0000);
}

#[test]
fn read_word_is_little_endian_and_advances_once() {
    let buffer: Vec<u8> = vec![0xCD, 0xAB];
    let mut index: usize = 0;
    assert_eq!(read_word_le(&mut index, &buffer), 0xABCD);
    assert_eq!(index, 1);
}

#[test]
fn read_word_fills_missing_bytes_with_zero() {
    let buffer: Vec<u8> = vec![0x7F];
    let mut index: usize = 0;
    assert_eq!(read_word_le(&mut index, &buffer), 0x007F);

    let mut index: usize = 5;
    assert_eq!(read_word_le(&mut index, &buffer), 0x0000);
    assert_eq!(index, 6);
}

#[test]
fn fetch_operand_advance_per_mode() {
    // (mode, expected operand, expected extra cycle, expected advance)
    let cases: Vec<(AddrMode, Option<u16>, bool, usize)> = vec![
        (AddrMode::Implied, None, false, 1),
        (AddrMode::Accumulator, None, false, 1),
        (AddrMode::Immediate, Some(0x0034), false, 2),
        (AddrMode::Zeropage, Some(0x0034), false, 2),
        (AddrMode::ZeropageIndexedX, Some(0x0034), false, 2),
        (AddrMode::ZeropageIndexedY, Some(0x0034), false, 2),
        (AddrMode::Relative, Some(0x0034), true, 2),
        (AddrMode::IndexedIndirectX, Some(0x0034), false, 2),
        (AddrMode::IndirectIndexedY(true), Some(0x0034), true, 2),
        (AddrMode::IndirectIndexedY(false), Some(0x0034), false, 2),
        (AddrMode::Absolute, Some(0x1234), false, 3),
        (AddrMode::Indirect, Some(0x1234), false, 3),
        (AddrMode::AbsoluteIndexedX(true), Some(0x1234), true, 3),
        (AddrMode::AbsoluteIndexedX(false), Some(0x1234), false, 3),
        (AddrMode::AbsoluteIndexedY(true), Some(0x1234), true, 3),
        (AddrMode::AbsoluteIndexedY(false), Some(0x1234), false, 3),
    ];
    let buffer: Vec<u8> = vec![0xEA, 0x34, 0x12];
    for (mode, operand, extra, advance) in cases {
        let mut index: usize = 0;
        let (got_operand, got_extra) = fetch_operand(&mode, &mut index, &buffer);
        assert_eq!(got_operand, operand, "operand for {:?}", mode);
        assert_eq!(got_extra, extra, "extra cycle for {:?}", mode);
        assert_eq!(index, advance, "advance for {:?}", mode);
    }
}

#[test]
fn hex_rendering_helpers() {
    assert_eq!(hex_byte_str(0x00), "00");
    assert_eq!(hex_byte_str(0x0B), "0B");
    assert_eq!(hex_byte_str(0xFF), "FF");
    assert_eq!(hex_word_str(0x0000), "0000");
    assert_eq!(hex_word_str(0x0201), "0201");
    assert_eq!(hex_word_str(0xBEEF), "BEEF");
}

#[test]
fn illegal_opcode_membership_samples() {
    assert!(illegal_opcode(0x02));
    assert!(illegal_opcode(0x80));
    assert!(illegal_opcode(0xFF));
    assert!(!illegal_opcode(0x00));
    assert!(!illegal_opcode(0xA9));
    assert!(!illegal_opcode(0xEA));
}

#[test]
fn affected_flags_table_samples() {
    assert_eq!(
        fetch_affected_flags(&OpCode::LDA(0xA9)),
        Some(vec![CPUStatusFlag::N, CPUStatusFlag::Z])
    );
    assert_eq!(
        fetch_affected_flags(&OpCode::CMP(0xC9)),
        Some(vec![CPUStatusFlag::N, CPUStatusFlag::Z, CPUStatusFlag::C])
    );
    assert_eq!(
        fetch_affected_flags(&OpCode::BIT(0x24)),
        Some(vec![CPUStatusFlag::N, CPUStatusFlag::V, CPUStatusFlag::Z])
    );
    assert_eq!(fetch_affected_flags(&OpCode::BRK(0x00)), Some(vec![CPUStatusFlag::B]));
    assert_eq!(fetch_affected_flags(&OpCode::JMP(0x4C)), None);
    assert_eq!(fetch_affected_flags(&OpCode::STA(0x85)), None);
}
