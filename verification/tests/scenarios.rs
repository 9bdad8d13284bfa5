//! End-to-end decoding scenarios: single instructions decoded from small
//! buffers, with their exact field values and string renderings.

use disasm6502::instruction::{decode, CPURegister, CPUStatusFlag};

#[test]
fn ora_zero_page() {
    let memory: Vec<u8> = vec![0x05, 0x0B];
    let mut pc: usize = 0;
    let instr = decode(0x0800, &mut pc, &memory);
    assert_eq!(pc, 2);
    assert_eq!(instr.opcode.name(), "ORA");
    assert_eq!(instr.opcode.to_hex(), 0x05);
    assert_eq!(instr.cycles, 3);
    assert_eq!(instr.operand, Some(0x000B));
    assert_eq!(instr.address, 0x0800);
    assert!(!instr.extra_cycle);
    assert!(!instr.illegal);
    assert_eq!(instr.as_hex_str(), "05 0B   ");
    assert_eq!(instr.as_str(), "ORA $0B");
}

#[test]
fn jmp_indirect() {
    let memory: Vec<u8> = vec![0x6C, 0x01, 0x02];
    let mut pc: usize = 0;
    let instr = decode(0x0800, &mut pc, &memory);
    assert_eq!(pc, 3);
    assert_eq!(instr.operand, Some(0x0201));
    assert_eq!(instr.cycles, 5);
    assert_eq!(instr.as_str(), "JMP ($0201)");
    assert_eq!(instr.as_hex_str(), "6C 01 02");
}

#[test]
fn bcc_relative_forward_target() {
    let memory: Vec<u8> = vec![0x90, 0x02];
    let mut pc: usize = 0;
    let instr = decode(0x0800, &mut pc, &memory);
    assert_eq!(pc, 2);
    assert_eq!(instr.operand, Some(0x0002));
    assert!(instr.extra_cycle);
    assert_eq!(instr.as_str(), "BCC $0804");
}

#[test]
fn bne_relative_negative_offset() {
    let memory: Vec<u8> = vec![0xD0, 0xFE];
    let mut pc: usize = 0;
    let instr = decode(0x0800, &mut pc, &memory);
    assert_eq!(instr.as_str(), "BNE $0800");
}

#[test]
fn beq_relative_wraps_around_address_space() {
    let memory: Vec<u8> = vec![0xF0, 0x05];
    let mut pc: usize = 0;
    let instr = decode(0xFFFE, &mut pc, &memory);
    assert_eq!(instr.as_str(), "BEQ $0005");
}

#[test]
fn truncated_absolute_operand_reads_as_zero() {
    // LDA absolute wants two operand bytes; a single-byte buffer still
    // decodes, with the missing bytes read as zero.
    let memory: Vec<u8> = vec![0xAD];
    let mut pc: usize = 0;
    let instr = decode(0x0800, &mut pc, &memory);
    assert_eq!(pc, 3);
    assert_eq!(instr.operand, Some(0x0000));
    assert_eq!(instr.as_hex_str(), "AD 00 00");
    assert_eq!(instr.as_str(), "LDA $0000");
}

#[test]
fn truncated_word_keeps_present_low_byte() {
    let memory: Vec<u8> = vec![0xAD, 0x77];
    let mut pc: usize = 0;
    let instr = decode(0x0800, &mut pc, &memory);
    assert_eq!(instr.operand, Some(0x0077));
    assert_eq!(instr.as_str(), "LDA $0077");
}

#[test]
fn immediate_mode_rendering() {
    let memory: Vec<u8> = vec![0xA9, 0x42];
    let mut pc: usize = 0;
    let instr = decode(0x0800, &mut pc, &memory);
    assert_eq!(instr.as_str(), "LDA #$42");
    assert_eq!(instr.as_hex_str(), "A9 42   ");
}

#[test]
fn accumulator_mode_rendering() {
    let memory: Vec<u8> = vec![0x0A];
    let mut pc: usize = 0;
    let instr = decode(0x0800, &mut pc, &memory);
    assert_eq!(pc, 1);
    assert_eq!(instr.operand, None);
    assert_eq!(instr.as_str(), "ASL A");
    assert_eq!(instr.as_hex_str(), "0A      ");
}

#[test]
fn implied_mode_rendering() {
    let memory: Vec<u8> = vec![0xEA];
    let mut pc: usize = 0;
    let instr = decode(0x0800, &mut pc, &memory);
    assert_eq!(instr.operand, None);
    assert_eq!(instr.as_str(), "NOP ");
    assert_eq!(instr.as_hex_str(), "EA      ");
}

#[test]
fn indexed_mode_renderings() {
    let cases: Vec<(Vec<u8>, &str)> = vec![
        (vec![0xB5, 0x10], "LDA $10,X"),
        (vec![0xB6, 0x10], "LDX $10,Y"),
        (vec![0xBD, 0x34, 0x12], "LDA $1234,X"),
        (vec![0xB9, 0x34, 0x12], "LDA $1234,Y"),
        (vec![0xA1, 0x20], "LDA ($20,X)"),
        (vec![0xB1, 0x20], "LDA ($20),Y"),
    ];
    for (memory, expected) in cases {
        let mut pc: usize = 0;
        let instr = decode(0x0800, &mut pc, &memory);
        assert_eq!(instr.as_str(), expected);
    }
}

#[test]
fn display_rendering() {
    let memory: Vec<u8> = vec![0x05, 0x0B];
    let mut pc: usize = 0;
    let instr = decode(0x0800, &mut pc, &memory);
    assert_eq!(instr.display_str(), "$0800: 05 0B    ORA $0B");
}

#[test]
fn register_sets_vary_with_addressing_mode() {
    // LDA immediate reads no register and writes A.
    let memory: Vec<u8> = vec![0xA9, 0x01];
    let mut pc: usize = 0;
    let instr = decode(0x0000, &mut pc, &memory);
    assert_eq!(instr.registers_read, None);
    assert_eq!(instr.registers_written, Some(vec![CPURegister::A]));

    // LDA zero-page indexed by X reads X and writes A.
    let memory: Vec<u8> = vec![0xB5, 0x01];
    let mut pc: usize = 0;
    let instr = decode(0x0000, &mut pc, &memory);
    assert_eq!(instr.registers_read, Some(vec![CPURegister::X]));
    assert_eq!(instr.registers_written, Some(vec![CPURegister::A]));

    // SAX zero-page indexed by Y reads all three registers, writes none.
    let memory: Vec<u8> = vec![0x97, 0x01];
    let mut pc: usize = 0;
    let instr = decode(0x0000, &mut pc, &memory);
    assert_eq!(
        instr.registers_read,
        Some(vec![CPURegister::A, CPURegister::X, CPURegister::Y])
    );
    assert_eq!(instr.registers_written, None);
}

#[test]
fn affected_flags_follow_the_mnemonic() {
    let memory: Vec<u8> = vec![0x18, 0x69, 0x01, 0x40, 0xEA];

    let mut pc: usize = 0;
    let clc = decode(0x0000, &mut pc, &memory);
    assert_eq!(clc.affected_flags, Some(vec![CPUStatusFlag::C]));

    let adc = decode(0x0001, &mut pc, &memory);
    assert_eq!(
        adc.affected_flags,
        Some(vec![
            CPUStatusFlag::N,
            CPUStatusFlag::V,
            CPUStatusFlag::Z,
            CPUStatusFlag::C
        ])
    );

    let rti = decode(0x0003, &mut pc, &memory);
    assert_eq!(
        rti.affected_flags,
        Some(vec![
            CPUStatusFlag::N,
            CPUStatusFlag::V,
            CPUStatusFlag::B,
            CPUStatusFlag::D,
            CPUStatusFlag::I,
            CPUStatusFlag::Z,
            CPUStatusFlag::C
        ])
    );

    let nop = decode(0x0004, &mut pc, &memory);
    assert_eq!(nop.affected_flags, None);
}

#[test]
fn address_is_taken_from_the_caller_not_the_cursor() {
    let memory: Vec<u8> = vec![0xEA, 0xA9, 0x07];
    let mut pc: usize = 1;
    let instr = decode(0xC000, &mut pc, &memory);
    assert_eq!(instr.address, 0xC000);
    assert_eq!(instr.opcode.name(), "LDA");
    assert_eq!(instr.operand, Some(0x0007));
    assert_eq!(pc, 3);
}

#[test]
fn register_and_flag_names() {
    assert_eq!(CPURegister::A.name(), "A");
    assert_eq!(CPURegister::X.name(), "X");
    assert_eq!(CPURegister::Y.name(), "Y");
    assert_eq!(CPUStatusFlag::N.name(), "N");
    assert_eq!(CPUStatusFlag::V.name(), "V");
    assert_eq!(CPUStatusFlag::B.name(), "B");
    assert_eq!(CPUStatusFlag::D.name(), "D");
    assert_eq!(CPUStatusFlag::I.name(), "I");
    assert_eq!(CPUStatusFlag::Z.name(), "Z");
    assert_eq!(CPUStatusFlag::C.name(), "C");
}
