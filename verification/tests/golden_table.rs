//! Golden-table tests: every one of the 256 opcode byte values decodes to
//! the documented mnemonic, cycle count, instruction length, extra-cycle
//! eligibility and illegal-opcode marking.

use disasm6502::instruction::{decode, AddrMode};

#[test]
fn golden_mnemonic_cycles_and_length_for_all_bytes() {
    let names: [&str; 256] = [
        "BRK", "ORA", "HLT", "SLO", "NOP", "ORA", "ASL", "SLO",
        "PHP", "ORA", "ASL", "ANC", "NOP", "ORA", "ASL", "SLO",
        "BPL", "ORA", "HLT", "SLO", "NOP", "ORA", "ASL", "SLO",
        "CLC", "ORA", "NOP", "SLO", "NOP", "ORA", "ASL", "SLO",
        "JSR", "AND", "HLT", "RLA", "BIT", "AND", "ROL", "RLA",
        "PLP", "AND", "ROL", "ANC", "BIT", "AND", "ROL", "RLA",
        "BMI", "AND", "HLT", "RLA", "NOP", "AND", "ROL", "RLA",
        "SEC", "AND", "NOP", "RLA", "NOP", "AND", "ROL", "RLA",
        "RTI", "EOR", "HLT", "SRE", "NOP", "EOR", "LSR", "SRE",
        "PHA", "EOR", "LSR", "ALR", "JMP", "EOR", "LSR", "SRE",
        "BVC", "EOR", "HLT", "SRE", "NOP", "EOR", "LSR", "SRE",
        "CLI", "EOR", "NOP", "SRE", "NOP", "EOR", "LSR", "SRE",
        "RTS", "ADC", "HLT", "RRA", "NOP", "ADC", "ROR", "RRA",
        "PLA", "ADC", "ROR", "ARR", "JMP", "ADC", "ROR", "RRA",
        "BVS", "ADC", "HLT", "RRA", "NOP", "ADC", "ROR", "RRA",
        "SEI", "ADC", "NOP", "RRA", "NOP", "ADC", "ROR", "RRA",
        "NOP", "STA", "NOP", "SAX", "STY", "STA", "STX", "SAX",
        "DEY", "NOP", "TXA", "XAA", "STY", "STA", "STX", "SAX",
        "BCC", "STA", "HLT", "AHX", "STY", "STA", "STX", "SAX",
        "TYA", "STA", "TXS", "TAS", "SHY", "STA", "SHX", "AHX",
        "LDY", "LDA", "LDX", "LAX", "LDY", "LDA", "LDX", "LAX",
        "TAY", "LDA", "TAX", "LAX", "LDY", "LDA", "LDX", "LAX",
        "BCS", "LDA", "HLT", "LAX", "LDY", "LDA", "LDX", "LAX",
        "CLV", "LDA", "TSX", "LAS", "LDY", "LDA", "LDX", "LAX",
        "CPY", "CMP", "NOP", "DCP", "CPY", "CMP", "DEC", "DCP",
        "INY", "CMP", "DEX", "AXS", "CPY", "CMP", "DEC", "DCP",
        "BNE", "CMP", "HLT", "DCP", "NOP", "CMP", "DEC", "DCP",
        "CLD", "CMP", "NOP", "DCP", "NOP", "CMP", "DEC", "DCP",
        "CPX", "SBC", "NOP", "ISC", "CPX", "SBC", "INC", "ISC",
        "INX", "SBC", "NOP", "SBC", "CPX", "SBC", "INC", "ISC",
        "BEQ", "SBC", "HLT", "ISC", "NOP", "SBC", "INC", "ISC",
        "SED", "SBC", "NOP", "ISC", "NOP", "SBC", "INC", "ISC",
    ];
    let cycles: [u8; 256] = [
        7, 6, 1, 8, 3, 3, 5, 5, 3, 2, 2, 2, 4, 4, 6, 6,
        2, 5, 1, 8, 4, 4, 6, 6, 2, 4, 2, 7, 4, 4, 7, 7,
        6, 6, 1, 8, 3, 3, 5, 5, 4, 2, 2, 2, 4, 4, 6, 6,
        2, 5, 1, 8, 4, 4, 6, 6, 2, 4, 2, 7, 4, 4, 7, 7,
        6, 6, 1, 8, 3, 3, 5, 5, 3, 2, 2, 2, 3, 4, 6, 6,
        2, 5, 1, 8, 4, 4, 6, 6, 2, 4, 2, 7, 4, 4, 7, 7,
        6, 6, 1, 8, 3, 3, 5, 5, 4, 2, 2, 2, 5, 4, 6, 6,
        2, 5, 1, 8, 4, 4, 6, 6, 2, 4, 2, 7, 4, 4, 7, 7,
        2, 6, 2, 6, 3, 3, 3, 3, 2, 2, 2, 2, 4, 4, 4, 4,
        2, 6, 1, 6, 4, 4, 4, 4, 2, 5, 2, 5, 5, 5, 5, 5,
        2, 6, 2, 6, 3, 3, 3, 3, 2, 2, 2, 2, 4, 4, 4, 4,
        2, 5, 1, 5, 4, 4, 4, 4, 2, 4, 2, 4, 4, 4, 4, 4,
        2, 6, 2, 8, 3, 3, 5, 5, 2, 2, 2, 2, 4, 4, 6, 6,
        2, 5, 1, 8, 4, 4, 6, 6, 2, 4, 2, 7, 4, 4, 7, 7,
        2, 6, 2, 8, 3, 3, 5, 5, 2, 2, 2, 2, 4, 4, 6, 6,
        2, 5, 1, 8, 4, 4, 6, 6, 2, 4, 2, 7, 4, 4, 7, 7,
    ];
    let sizes: [usize; 256] = [
        1, 2, 1, 2, 2, 2, 2, 2, 1, 2, 1, 2, 3, 3, 3, 3,
        2, 2, 1, 2, 2, 2, 2, 2, 1, 3, 1, 3, 3, 3, 3, 3,
        3, 2, 1, 2, 2, 2, 2, 2, 1, 2, 1, 2, 3, 3, 3, 3,
        2, 2, 1, 2, 2, 2, 2, 2, 1, 3, 1, 3, 3, 3, 3, 3,
        1, 2, 1, 2, 2, 2, 2, 2, 1, 2, 1, 2, 3, 3, 3, 3,
        2, 2, 1, 2, 2, 2, 2, 2, 1, 3, 1, 3, 3, 3, 3, 3,
        1, 2, 1, 2, 2, 2, 2, 2, 1, 2, 1, 2, 3, 3, 3, 3,
        2, 2, 1, 2, 2, 2, 2, 2, 1, 3, 1, 3, 3, 3, 3, 3,
        2, 2, 2, 2, 2, 2, 2, 2, 1, 2, 1, 2, 3, 3, 3, 3,
        2, 2, 1, 2, 2, 2, 2, 2, 1, 3, 1, 3, 3, 3, 3, 3,
        2, 2, 2, 2, 2, 2, 2, 2, 1, 2, 1, 2, 3, 3, 3, 3,
        2, 2, 1, 2, 2, 2, 2, 2, 1, 3, 1, 3, 3, 3, 3, 3,
        2, 2, 2, 2, 2, 2, 2, 2, 1, 2, 1, 2, 3, 3, 3, 3,
        2, 2, 1, 2, 2, 2, 2, 2, 1, 3, 1, 3, 3, 3, 3, 3,
        2, 2, 2, 2, 2, 2, 2, 2, 1, 2, 1, 2, 3, 3, 3, 3,
        2, 2, 1, 2, 2, 2, 2, 2, 1, 3, 1, 3, 3, 3, 3, 3,
    ];

    for b in 0..256usize {
        let memory: Vec<u8> = vec![b as u8, 0x34, 0x12];
        let mut pc: usize = 0;
        let instr = decode(0x0800, &mut pc, &memory);
        assert_eq!(instr.opcode.name(), names[b], "mnemonic of {:#04X}", b);
        assert_eq!(instr.opcode.to_hex(), b as u8);
        assert_eq!(instr.cycles, cycles[b], "cycles of {:#04X}", b);
        assert_eq!(pc, sizes[b], "length of {:#04X}", b);
        assert_eq!(instr.operand.is_some(), sizes[b] > 1);
        if sizes[b] == 2 {
            assert_eq!(instr.operand, Some(0x0034));
        }
        if sizes[b] == 3 {
            assert_eq!(instr.operand, Some(0x1234));
        }
        assert_eq!(instr.address, 0x0800);
    }
}

#[test]
fn illegal_iff_in_canonical_set() {
    let illegal: [u8; 105] = [
        0x02, 0x03, 0x04, 0x07, 0x0B, 0x0C, 0x0F, 0x12, 0x13, 0x14,
        0x17, 0x1A, 0x1B, 0x1C, 0x1F, 0x22, 0x23, 0x27, 0x2B, 0x2F,
        0x32, 0x33, 0x34, 0x37, 0x3A, 0x3B, 0x3C, 0x3F, 0x42, 0x43,
        0x44, 0x47, 0x4B, 0x4F, 0x52, 0x53, 0x54, 0x57, 0x5A, 0x5B,
        0x5C, 0x5F, 0x62, 0x63, 0x64, 0x67, 0x6B, 0x6F, 0x72, 0x73,
        0x74, 0x77, 0x7A, 0x7B, 0x7C, 0x7F, 0x80, 0x82, 0x83, 0x87,
        0x89, 0x8B, 0x8F, 0x92, 0x93, 0x97, 0x9B, 0x9C, 0x9E, 0x9F,
        0xA3, 0xA7, 0xAB, 0xAF, 0xB2, 0xB3, 0xB7, 0xBB, 0xBF, 0xC2,
        0xC3, 0xC7, 0xCB, 0xCF, 0xD2, 0xD3, 0xD4, 0xD7, 0xDA, 0xDB,
        0xDC, 0xDF, 0xE2, 0xE3, 0xE7, 0xEB, 0xEF, 0xF2, 0xF3, 0xF4,
        0xF7, 0xFA, 0xFB, 0xFC, 0xFF,
        
        
        
        
        
        
        
        
        
        
        
        
        
        
        
    ];

    let mut count: usize = 0;
    for b in 0..256usize {
        let memory: Vec<u8> = vec![b as u8, 0x00, 0x00];
        let mut pc: usize = 0;
        let instr = decode(0x0000, &mut pc, &memory);
        let expected = illegal.contains(&(b as u8));
        assert_eq!(instr.illegal, expected, "illegal marking of {:#04X}", b);
        if instr.illegal {
            count += 1;
        }
    }
    assert_eq!(count, 105);
}

#[test]
fn extra_cycle_eligibility_for_all_bytes() {
    let extra: [bool; 256] = [
        false, false, false, false, false, false, false, false,
        false, false, false, false, false, false, false, false,
        true, true, false, false, false, false, false, false,
        false, true, false, false, true, true, false, false,
        false, false, false, false, false, false, false, false,
        false, false, false, false, false, false, false, false,
        true, true, false, false, false, false, false, false,
        false, true, false, false, true, true, false, false,
        false, false, false, false, false, false, false, false,
        false, false, false, false, false, false, false, false,
        true, true, false, false, false, false, false, false,
        false, true, false, false, true, true, false, false,
        false, false, false, false, false, false, false, false,
        false, false, false, false, false, false, false, false,
        true, true, false, false, false, false, false, false,
        false, true, false, false, true, true, false, false,
        false, false, false, false, false, false, false, false,
        false, false, false, false, false, false, false, false,
        true, false, false, false, false, false, false, false,
        false, false, false, false, false, false, false, false,
        false, false, false, false, false, false, false, false,
        false, false, false, false, false, false, false, false,
        true, true, false, true, false, false, false, false,
        false, true, false, true, true, true, true, true,
        false, false, false, false, false, false, false, false,
        false, false, false, false, false, false, false, false,
        true, true, false, false, false, false, false, false,
        false, true, false, false, true, true, false, false,
        false, false, false, false, false, false, false, false,
        false, false, false, false, false, false, false, false,
        true, true, false, false, false, false, false, false,
        false, true, false, false, true, true, false, false,
    ];
    for b in 0..256usize {
        let memory: Vec<u8> = vec![b as u8, 0x34, 0x12];
        let mut pc: usize = 0;
        let instr = decode(0x0800, &mut pc, &memory);
        assert_eq!(instr.extra_cycle, extra[b], "extra cycle of {:#04X}", b);
    }
}

#[test]
fn hex_rendering_is_eight_chars_for_all_bytes() {
    for b in 0..256usize {
        let memory: Vec<u8> = vec![b as u8, 0x34, 0x12];
        let mut pc: usize = 0;
        let instr = decode(0x0800, &mut pc, &memory);
        let hex = instr.as_hex_str();
        assert_eq!(hex.len(), 8, "hex width of {:#04X}", b);
        assert_eq!(hex.chars().count(), 8);
    }
}

#[test]
fn cursor_advance_is_one_plus_operand_bytes_at_any_offset() {
    for b in 0..256usize {
        let memory: Vec<u8> = vec![0xEA, 0xEA, b as u8, 0x34, 0x12, 0x00];
        let mut pc: usize = 2;
        let before = pc;
        let instr = decode(0x0800, &mut pc, &memory);
        let operand_bytes: usize = match instr.addr_mode {
            AddrMode::Implied | AddrMode::Accumulator => 0,
            AddrMode::Absolute
            | AddrMode::AbsoluteIndexedX(_)
            | AddrMode::AbsoluteIndexedY(_)
            | AddrMode::Indirect => 2,
            _ => 1,
        };
        assert_eq!(pc, before + 1 + operand_bytes, "advance of {:#04X}", b);
    }
}
