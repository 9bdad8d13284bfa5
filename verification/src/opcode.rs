//! The 6502 domain vocabulary: addressing modes, registers, status flags and
//! opcodes, with the per-mnemonic flag-effect table and the set of
//! undocumented opcode bytes.

use vstd::prelude::*;

verus! {

/// 6502 addressing modes.
///
/// The boolean carried by the indexed variants records whether crossing a
/// page boundary during execution would cost an extra cycle.
#[derive(Debug, Clone, Copy, PartialEq, Eq, Structural)]
pub enum AddrMode {
    Implied,
    Accumulator,
    Immediate,
    Absolute,
    AbsoluteIndexedX(bool),
    AbsoluteIndexedY(bool),
    Zeropage,
    ZeropageIndexedX,
    ZeropageIndexedY,
    Relative,
    Indirect,
    IndexedIndirectX,
    IndirectIndexedY(bool),
}

/// 6502 CPU registers.
#[derive(Debug, Clone, Copy, PartialEq, Eq, Structural)]
pub enum CPURegister {
    A,
    X,
    Y,
}

/// 6502 CPU status flags.
#[derive(Debug, Clone, Copy, PartialEq, Eq, Structural)]
pub enum CPUStatusFlag {
    N,
    V,
    B,
    D,
    I,
    Z,
    C,
}

/// 6502 opcodes, each carrying its raw encoded byte.
#[derive(Debug, Clone, Copy, PartialEq, Eq, Structural)]
pub enum OpCode {
    // Load/store
    LDA(u8), LDX(u8), LDY(u8), STA(u8), STX(u8), STY(u8),
    // Register transfers
    TAX(u8), TAY(u8), TXA(u8), TYA(u8),
    // Stack operations
    TSX(u8), TXS(u8), PHA(u8), PHP(u8), PLA(u8), PLP(u8),
    // Logical
    AND(u8), EOR(u8), ORA(u8), BIT(u8),
    // Arithmetic
    ADC(u8), SBC(u8), CMP(u8), CPX(u8), CPY(u8),
    // Increments and decrements
    INC(u8), INX(u8), INY(u8), DEC(u8), DEX(u8), DEY(u8),
    // Shifts
    ASL(u8), LSR(u8), ROL(u8), ROR(u8),
    // Jumps and calls
    JMP(u8), JSR(u8), RTS(u8),
    // Branches
    BCC(u8), BCS(u8), BEQ(u8), BMI(u8), BNE(u8), BPL(u8),
    BVC(u8), BVS(u8),
    // Status flag changes
    CLC(u8), CLD(u8), CLI(u8), CLV(u8), SEC(u8), SED(u8),
    SEI(u8),
    // System functions
    BRK(u8), NOP(u8), RTI(u8),
    // Illegal/undocumented
    HLT(u8), SLO(u8), ANC(u8), RLA(u8), SRE(u8), RRA(u8),
    ALR(u8), SAX(u8), XAA(u8), AHX(u8), TAS(u8), SHY(u8),
    SHX(u8), ARR(u8), LAX(u8), LAS(u8), DCP(u8), AXS(u8),
    ISC(u8),
}

/// A possibly-absent set of CPU registers.
pub type RegVec = Option<Vec<CPURegister>>;

/// A possibly-absent set of CPU status flags.
pub type FlagVec = Option<Vec<CPUStatusFlag>>;

/// The contents of a possibly-absent vector, as a possibly-absent sequence.
pub open spec fn opt_view<T>(v: Option<Vec<T>>) -> Option<Seq<T>> {
    match v {
        Some(x) => Some(x@),
        None => None,
    }
}

/// A present one-element vector.
pub fn sv1<T>(a: T) -> (v: Option<Vec<T>>)
    ensures
        opt_view(v) == Some(seq![a]),
{
    let mut x: Vec<T> = Vec::new();
    x.push(a);
    proof {
        assert(x@ =~= seq![a]);
    }
    Some(x)
}

/// A present two-element vector.
pub fn sv2<T>(a: T, b: T) -> (v: Option<Vec<T>>)
    ensures
        opt_view(v) == Some(seq![a, b]),
{
    let mut x: Vec<T> = Vec::new();
    x.push(a);
    x.push(b);
    proof {
        assert(x@ =~= seq![a, b]);
    }
    Some(x)
}

/// A present three-element vector.
pub fn sv3<T>(a: T, b: T, c: T) -> (v: Option<Vec<T>>)
    ensures
        opt_view(v) == Some(seq![a, b, c]),
{
    let mut x: Vec<T> = Vec::new();
    x.push(a);
    x.push(b);
    x.push(c);
    proof {
        assert(x@ =~= seq![a, b, c]);
    }
    Some(x)
}

/// A present four-element vector.
pub fn sv4<T>(a: T, b: T, c: T, d: T) -> (v: Option<Vec<T>>)
    ensures
        opt_view(v) == Some(seq![a, b, c, d]),
{
    let mut x: Vec<T> = Vec::new();
    x.push(a);
    x.push(b);
    x.push(c);
    x.push(d);
    proof {
        assert(x@ =~= seq![a, b, c, d]);
    }
    Some(x)
}

/// A present seven-element vector.
pub fn sv7<T>(a: T, b: T, c: T, d: T, e: T, f: T, g: T) -> (v: Option<Vec<T>>)
    ensures
        opt_view(v) == Some(seq![a, b, c, d, e, f, g]),
{
    let mut x: Vec<T> = Vec::new();
    x.push(a);
    x.push(b);
    x.push(c);
    x.push(d);
    x.push(e);
    x.push(f);
    x.push(g);
    proof {
        assert(x@ =~= seq![a, b, c, d, e, f, g]);
    }
    Some(x)
}

impl OpCode {
    /// The raw encoded byte carried by an opcode.
    pub open spec fn spec_to_hex(self) -> u8 {
        match self {
            OpCode::LDA(v) => v, OpCode::LDX(v) => v, OpCode::LDY(v) => v, OpCode::STA(v) => v,
            OpCode::STX(v) => v, OpCode::STY(v) => v, OpCode::TAX(v) => v, OpCode::TAY(v) => v,
            OpCode::TXA(v) => v, OpCode::TYA(v) => v, OpCode::TSX(v) => v, OpCode::TXS(v) => v,
            OpCode::PHA(v) => v, OpCode::PHP(v) => v, OpCode::PLA(v) => v, OpCode::PLP(v) => v,
            OpCode::AND(v) => v, OpCode::EOR(v) => v, OpCode::ORA(v) => v, OpCode::BIT(v) => v,
            OpCode::ADC(v) => v, OpCode::SBC(v) => v, OpCode::CMP(v) => v, OpCode::CPX(v) => v,
            OpCode::CPY(v) => v, OpCode::INC(v) => v, OpCode::INX(v) => v, OpCode::INY(v) => v,
            OpCode::DEC(v) => v, OpCode::DEX(v) => v, OpCode::DEY(v) => v, OpCode::ASL(v) => v,
            OpCode::LSR(v) => v, OpCode::ROL(v) => v, OpCode::ROR(v) => v, OpCode::JMP(v) => v,
            OpCode::JSR(v) => v, OpCode::RTS(v) => v, OpCode::BCC(v) => v, OpCode::BCS(v) => v,
            OpCode::BEQ(v) => v, OpCode::BMI(v) => v, OpCode::BNE(v) => v, OpCode::BPL(v) => v,
            OpCode::BVC(v) => v, OpCode::BVS(v) => v, OpCode::CLC(v) => v, OpCode::CLD(v) => v,
            OpCode::CLI(v) => v, OpCode::CLV(v) => v, OpCode::SEC(v) => v, OpCode::SED(v) => v,
            OpCode::SEI(v) => v, OpCode::BRK(v) => v, OpCode::NOP(v) => v, OpCode::RTI(v) => v,
            OpCode::HLT(v) => v, OpCode::SLO(v) => v, OpCode::ANC(v) => v, OpCode::RLA(v) => v,
            OpCode::SRE(v) => v, OpCode::RRA(v) => v, OpCode::ALR(v) => v, OpCode::SAX(v) => v,
            OpCode::XAA(v) => v, OpCode::AHX(v) => v, OpCode::TAS(v) => v, OpCode::SHY(v) => v,
            OpCode::SHX(v) => v, OpCode::ARR(v) => v, OpCode::LAX(v) => v, OpCode::LAS(v) => v,
            OpCode::DCP(v) => v, OpCode::AXS(v) => v, OpCode::ISC(v) => v,
        }
    }

    /// Fetch the opcode's raw encoded byte value.
    pub fn to_hex(&self) -> (v: u8)
        ensures
            v == self.spec_to_hex(),
    {
        match *self {
            OpCode::LDA(v) => v, OpCode::LDX(v) => v, OpCode::LDY(v) => v, OpCode::STA(v) => v,
            OpCode::STX(v) => v, OpCode::STY(v) => v, OpCode::TAX(v) => v, OpCode::TAY(v) => v,
            OpCode::TXA(v) => v, OpCode::TYA(v) => v, OpCode::TSX(v) => v, OpCode::TXS(v) => v,
            OpCode::PHA(v) => v, OpCode::PHP(v) => v, OpCode::PLA(v) => v, OpCode::PLP(v) => v,
            OpCode::AND(v) => v, OpCode::EOR(v) => v, OpCode::ORA(v) => v, OpCode::BIT(v) => v,
            OpCode::ADC(v) => v, OpCode::SBC(v) => v, OpCode::CMP(v) => v, OpCode::CPX(v) => v,
            OpCode::CPY(v) => v, OpCode::INC(v) => v, OpCode::INX(v) => v, OpCode::INY(v) => v,
            OpCode::DEC(v) => v, OpCode::DEX(v) => v, OpCode::DEY(v) => v, OpCode::ASL(v) => v,
            OpCode::LSR(v) => v, OpCode::ROL(v) => v, OpCode::ROR(v) => v, OpCode::JMP(v) => v,
            OpCode::JSR(v) => v, OpCode::RTS(v) => v, OpCode::BCC(v) => v, OpCode::BCS(v) => v,
            OpCode::BEQ(v) => v, OpCode::BMI(v) => v, OpCode::BNE(v) => v, OpCode::BPL(v) => v,
            OpCode::BVC(v) => v, OpCode::BVS(v) => v, OpCode::CLC(v) => v, OpCode::CLD(v) => v,
            OpCode::CLI(v) => v, OpCode::CLV(v) => v, OpCode::SEC(v) => v, OpCode::SED(v) => v,
            OpCode::SEI(v) => v, OpCode::BRK(v) => v, OpCode::NOP(v) => v, OpCode::RTI(v) => v,
            OpCode::HLT(v) => v, OpCode::SLO(v) => v, OpCode::ANC(v) => v, OpCode::RLA(v) => v,
            OpCode::SRE(v) => v, OpCode::RRA(v) => v, OpCode::ALR(v) => v, OpCode::SAX(v) => v,
            OpCode::XAA(v) => v, OpCode::AHX(v) => v, OpCode::TAS(v) => v, OpCode::SHY(v) => v,
            OpCode::SHX(v) => v, OpCode::ARR(v) => v, OpCode::LAX(v) => v, OpCode::LAS(v) => v,
            OpCode::DCP(v) => v, OpCode::AXS(v) => v, OpCode::ISC(v) => v,
        }
    }

    /// The three-letter mnemonic of an opcode, as a character sequence.
    pub open spec fn spec_name(self) -> Seq<char> {
        match self {
            OpCode::LDA(_) => "LDA"@, OpCode::LDX(_) => "LDX"@, OpCode::LDY(_) => "LDY"@,
            OpCode::STA(_) => "STA"@, OpCode::STX(_) => "STX"@, OpCode::STY(_) => "STY"@,
            OpCode::TAX(_) => "TAX"@, OpCode::TAY(_) => "TAY"@, OpCode::TXA(_) => "TXA"@,
            OpCode::TYA(_) => "TYA"@, OpCode::TSX(_) => "TSX"@, OpCode::TXS(_) => "TXS"@,
            OpCode::PHA(_) => "PHA"@, OpCode::PHP(_) => "PHP"@, OpCode::PLA(_) => "PLA"@,
            OpCode::PLP(_) => "PLP"@, OpCode::AND(_) => "AND"@, OpCode::EOR(_) => "EOR"@,
            OpCode::ORA(_) => "ORA"@, OpCode::BIT(_) => "BIT"@, OpCode::ADC(_) => "ADC"@,
            OpCode::SBC(_) => "SBC"@, OpCode::CMP(_) => "CMP"@, OpCode::CPX(_) => "CPX"@,
            OpCode::CPY(_) => "CPY"@, OpCode::INC(_) => "INC"@, OpCode::INX(_) => "INX"@,
            OpCode::INY(_) => "INY"@, OpCode::DEC(_) => "DEC"@, OpCode::DEX(_) => "DEX"@,
            OpCode::DEY(_) => "DEY"@, OpCode::ASL(_) => "ASL"@, OpCode::LSR(_) => "LSR"@,
            OpCode::ROL(_) => "ROL"@, OpCode::ROR(_) => "ROR"@, OpCode::JMP(_) => "JMP"@,
            OpCode::JSR(_) => "JSR"@, OpCode::RTS(_) => "RTS"@, OpCode::BCC(_) => "BCC"@,
            OpCode::BCS(_) => "BCS"@, OpCode::BEQ(_) => "BEQ"@, OpCode::BMI(_) => "BMI"@,
            OpCode::BNE(_) => "BNE"@, OpCode::BPL(_) => "BPL"@, OpCode::BVC(_) => "BVC"@,
            OpCode::BVS(_) => "BVS"@, OpCode::CLC(_) => "CLC"@, OpCode::CLD(_) => "CLD"@,
            OpCode::CLI(_) => "CLI"@, OpCode::CLV(_) => "CLV"@, OpCode::SEC(_) => "SEC"@,
            OpCode::SED(_) => "SED"@, OpCode::SEI(_) => "SEI"@, OpCode::BRK(_) => "BRK"@,
            OpCode::NOP(_) => "NOP"@, OpCode::RTI(_) => "RTI"@, OpCode::HLT(_) => "HLT"@,
            OpCode::SLO(_) => "SLO"@, OpCode::ANC(_) => "ANC"@, OpCode::RLA(_) => "RLA"@,
            OpCode::SRE(_) => "SRE"@, OpCode::RRA(_) => "RRA"@, OpCode::ALR(_) => "ALR"@,
            OpCode::SAX(_) => "SAX"@, OpCode::XAA(_) => "XAA"@, OpCode::AHX(_) => "AHX"@,
            OpCode::TAS(_) => "TAS"@, OpCode::SHY(_) => "SHY"@, OpCode::SHX(_) => "SHX"@,
            OpCode::ARR(_) => "ARR"@, OpCode::LAX(_) => "LAX"@, OpCode::LAS(_) => "LAS"@,
            OpCode::DCP(_) => "DCP"@, OpCode::AXS(_) => "AXS"@, OpCode::ISC(_) => "ISC"@,
        }
    }

    /// The three-letter assembler mnemonic of the opcode.
    pub fn name(&self) -> (s: &'static str)
        ensures
            s@ == self.spec_name(),
    {
        match *self {
            OpCode::LDA(_) => "LDA", OpCode::LDX(_) => "LDX", OpCode::LDY(_) => "LDY",
            OpCode::STA(_) => "STA", OpCode::STX(_) => "STX", OpCode::STY(_) => "STY",
            OpCode::TAX(_) => "TAX", OpCode::TAY(_) => "TAY", OpCode::TXA(_) => "TXA",
            OpCode::TYA(_) => "TYA", OpCode::TSX(_) => "TSX", OpCode::TXS(_) => "TXS",
            OpCode::PHA(_) => "PHA", OpCode::PHP(_) => "PHP", OpCode::PLA(_) => "PLA",
            OpCode::PLP(_) => "PLP", OpCode::AND(_) => "AND", OpCode::EOR(_) => "EOR",
            OpCode::ORA(_) => "ORA", OpCode::BIT(_) => "BIT", OpCode::ADC(_) => "ADC",
            OpCode::SBC(_) => "SBC", OpCode::CMP(_) => "CMP", OpCode::CPX(_) => "CPX",
            OpCode::CPY(_) => "CPY", OpCode::INC(_) => "INC", OpCode::INX(_) => "INX",
            OpCode::INY(_) => "INY", OpCode::DEC(_) => "DEC", OpCode::DEX(_) => "DEX",
            OpCode::DEY(_) => "DEY", OpCode::ASL(_) => "ASL", OpCode::LSR(_) => "LSR",
            OpCode::ROL(_) => "ROL", OpCode::ROR(_) => "ROR", OpCode::JMP(_) => "JMP",
            OpCode::JSR(_) => "JSR", OpCode::RTS(_) => "RTS", OpCode::BCC(_) => "BCC",
            OpCode::BCS(_) => "BCS", OpCode::BEQ(_) => "BEQ", OpCode::BMI(_) => "BMI",
            OpCode::BNE(_) => "BNE", OpCode::BPL(_) => "BPL", OpCode::BVC(_) => "BVC",
            OpCode::BVS(_) => "BVS", OpCode::CLC(_) => "CLC", OpCode::CLD(_) => "CLD",
            OpCode::CLI(_) => "CLI", OpCode::CLV(_) => "CLV", OpCode::SEC(_) => "SEC",
            OpCode::SED(_) => "SED", OpCode::SEI(_) => "SEI", OpCode::BRK(_) => "BRK",
            OpCode::NOP(_) => "NOP", OpCode::RTI(_) => "RTI", OpCode::HLT(_) => "HLT",
            OpCode::SLO(_) => "SLO", OpCode::ANC(_) => "ANC", OpCode::RLA(_) => "RLA",
            OpCode::SRE(_) => "SRE", OpCode::RRA(_) => "RRA", OpCode::ALR(_) => "ALR",
            OpCode::SAX(_) => "SAX", OpCode::XAA(_) => "XAA", OpCode::AHX(_) => "AHX",
            OpCode::TAS(_) => "TAS", OpCode::SHY(_) => "SHY", OpCode::SHX(_) => "SHX",
            OpCode::ARR(_) => "ARR", OpCode::LAX(_) => "LAX", OpCode::LAS(_) => "LAS",
            OpCode::DCP(_) => "DCP", OpCode::AXS(_) => "AXS", OpCode::ISC(_) => "ISC",
        }
    }
}

impl CPURegister {
    /// The register's one-letter name, as a character sequence.
    pub open spec fn spec_name(self) -> Seq<char> {
        match self {
            CPURegister::A => "A"@,
            CPURegister::X => "X"@,
            CPURegister::Y => "Y"@,
        }
    }

    /// The register's one-letter name.
    pub fn name(&self) -> (s: &'static str)
        ensures
            s@ == self.spec_name(),
    {
        match *self {
            CPURegister::A => "A",
            CPURegister::X => "X",
            CPURegister::Y => "Y",
        }
    }
}

impl CPUStatusFlag {
    /// The status flag's one-letter name, as a character sequence.
    pub open spec fn spec_name(self) -> Seq<char> {
        match self {
            CPUStatusFlag::N => "N"@,
            CPUStatusFlag::V => "V"@,
            CPUStatusFlag::B => "B"@,
            CPUStatusFlag::D => "D"@,
            CPUStatusFlag::I => "I"@,
            CPUStatusFlag::Z => "Z"@,
            CPUStatusFlag::C => "C"@,
        }
    }

    /// The status flag's one-letter name.
    pub fn name(&self) -> (s: &'static str)
        ensures
            s@ == self.spec_name(),
    {
        match *self {
            CPUStatusFlag::N => "N",
            CPUStatusFlag::V => "V",
            CPUStatusFlag::B => "B",
            CPUStatusFlag::D => "D",
            CPUStatusFlag::I => "I",
            CPUStatusFlag::Z => "Z",
            CPUStatusFlag::C => "C",
        }
    }
}

/// Whether a raw opcode byte belongs to the fixed set of 105
/// illegal/undocumented 6502 opcodes.
pub open spec fn is_illegal(b: u8) -> bool {
    match b {
        0x02 | 0x03 | 0x04 | 0x07 | 0x0B | 0x0C | 0x0F
        | 0x12 | 0x13 | 0x14 | 0x17 | 0x1A | 0x1B | 0x1C
        | 0x1F | 0x22 | 0x23 | 0x27 | 0x2B | 0x2F | 0x32
        | 0x33 | 0x34 | 0x37 | 0x3A | 0x3B | 0x3C | 0x3F
        | 0x42 | 0x43 | 0x44 | 0x47 | 0x4B | 0x4F | 0x52
        | 0x53 | 0x54 | 0x57 | 0x5A | 0x5B | 0x5C | 0x5F
        | 0x62 | 0x63 | 0x64 | 0x67 | 0x6B | 0x6F | 0x72
        | 0x73 | 0x74 | 0x77 | 0x7A | 0x7B | 0x7C | 0x7F
        | 0x80 | 0x82 | 0x83 | 0x87 | 0x89 | 0x8B | 0x8F
        | 0x92 | 0x93 | 0x97 | 0x9B | 0x9C | 0x9E | 0x9F
        | 0xA3 | 0xA7 | 0xAB | 0xAF | 0xB2 | 0xB3 | 0xB7
        | 0xBB | 0xBF | 0xC2 | 0xC3 | 0xC7 | 0xCB | 0xCF
        | 0xD2 | 0xD3 | 0xD4 | 0xD7 | 0xDA | 0xDB | 0xDC
        | 0xDF | 0xE2 | 0xE3 | 0xE7 | 0xEB | 0xEF | 0xF2
        | 0xF3 | 0xF4 | 0xF7 | 0xFA | 0xFB | 0xFC | 0xFF => true,
        _ => false,
    }
}

/// Test a raw opcode byte for membership in the illegal-opcode set.
pub fn illegal_opcode(b: u8) -> (r: bool)
    ensures
        r == is_illegal(b),
{
    match b {
        0x02 | 0x03 | 0x04 | 0x07 | 0x0B | 0x0C | 0x0F
        | 0x12 | 0x13 | 0x14 | 0x17 | 0x1A | 0x1B | 0x1C
        | 0x1F | 0x22 | 0x23 | 0x27 | 0x2B | 0x2F | 0x32
        | 0x33 | 0x34 | 0x37 | 0x3A | 0x3B | 0x3C | 0x3F
        | 0x42 | 0x43 | 0x44 | 0x47 | 0x4B | 0x4F | 0x52
        | 0x53 | 0x54 | 0x57 | 0x5A | 0x5B | 0x5C | 0x5F
        | 0x62 | 0x63 | 0x64 | 0x67 | 0x6B | 0x6F | 0x72
        | 0x73 | 0x74 | 0x77 | 0x7A | 0x7B | 0x7C | 0x7F
        | 0x80 | 0x82 | 0x83 | 0x87 | 0x89 | 0x8B | 0x8F
        | 0x92 | 0x93 | 0x97 | 0x9B | 0x9C | 0x9E | 0x9F
        | 0xA3 | 0xA7 | 0xAB | 0xAF | 0xB2 | 0xB3 | 0xB7
        | 0xBB | 0xBF | 0xC2 | 0xC3 | 0xC7 | 0xCB | 0xCF
        | 0xD2 | 0xD3 | 0xD4 | 0xD7 | 0xDA | 0xDB | 0xDC
        | 0xDF | 0xE2 | 0xE3 | 0xE7 | 0xEB | 0xEF | 0xF2
        | 0xF3 | 0xF4 | 0xF7 | 0xFA | 0xFB | 0xFC | 0xFF => true,
        _ => false,
    }
}

/// The status flags an instruction with the given opcode may alter, per the
/// 6502 reference; `None` for mnemonics with no documented flag effect.
pub open spec fn flags_of(op: OpCode) -> Option<Seq<CPUStatusFlag>> {
    match op {
        OpCode::LDA(_) => Some(seq![CPUStatusFlag::N, CPUStatusFlag::Z]),
        OpCode::LDX(_) => Some(seq![CPUStatusFlag::N, CPUStatusFlag::Z]),
        OpCode::LDY(_) => Some(seq![CPUStatusFlag::N, CPUStatusFlag::Z]),
        OpCode::TAX(_) => Some(seq![CPUStatusFlag::N, CPUStatusFlag::Z]),
        OpCode::TAY(_) => Some(seq![CPUStatusFlag::N, CPUStatusFlag::Z]),
        OpCode::TXA(_) => Some(seq![CPUStatusFlag::N, CPUStatusFlag::Z]),
        OpCode::TYA(_) => Some(seq![CPUStatusFlag::N, CPUStatusFlag::Z]),
        OpCode::AND(_) => Some(seq![CPUStatusFlag::N, CPUStatusFlag::Z]),
        OpCode::EOR(_) => Some(seq![CPUStatusFlag::N, CPUStatusFlag::Z]),
        OpCode::ORA(_) => Some(seq![CPUStatusFlag::N, CPUStatusFlag::Z]),
        OpCode::BIT(_) => Some(seq![CPUStatusFlag::N, CPUStatusFlag::V, CPUStatusFlag::Z]),
        OpCode::ADC(_) => Some(seq![CPUStatusFlag::N, CPUStatusFlag::V, CPUStatusFlag::Z, CPUStatusFlag::C]),
        OpCode::SBC(_) => Some(seq![CPUStatusFlag::N, CPUStatusFlag::V, CPUStatusFlag::Z, CPUStatusFlag::C]),
        OpCode::CMP(_) => Some(seq![CPUStatusFlag::N, CPUStatusFlag::Z, CPUStatusFlag::C]),
        OpCode::CPX(_) => Some(seq![CPUStatusFlag::N, CPUStatusFlag::Z, CPUStatusFlag::C]),
        OpCode::CPY(_) => Some(seq![CPUStatusFlag::N, CPUStatusFlag::Z, CPUStatusFlag::C]),
        OpCode::INC(_) => Some(seq![CPUStatusFlag::N, CPUStatusFlag::Z]),
        OpCode::INX(_) => Some(seq![CPUStatusFlag::N, CPUStatusFlag::Z]),
        OpCode::INY(_) => Some(seq![CPUStatusFlag::N, CPUStatusFlag::Z]),
        OpCode::DEC(_) => Some(seq![CPUStatusFlag::N, CPUStatusFlag::Z]),
        OpCode::DEX(_) => Some(seq![CPUStatusFlag::N, CPUStatusFlag::Z]),
        OpCode::DEY(_) => Some(seq![CPUStatusFlag::N, CPUStatusFlag::Z]),
        OpCode::ASL(_) => Some(seq![CPUStatusFlag::N, CPUStatusFlag::Z, CPUStatusFlag::C]),
        OpCode::LSR(_) => Some(seq![CPUStatusFlag::N, CPUStatusFlag::Z, CPUStatusFlag::C]),
        OpCode::ROL(_) => Some(seq![CPUStatusFlag::N, CPUStatusFlag::Z, CPUStatusFlag::C]),
        OpCode::ROR(_) => Some(seq![CPUStatusFlag::N, CPUStatusFlag::Z, CPUStatusFlag::C]),
        OpCode::CLC(_) => Some(seq![CPUStatusFlag::C]),
        OpCode::CLD(_) => Some(seq![CPUStatusFlag::D]),
        OpCode::CLI(_) => Some(seq![CPUStatusFlag::I]),
        OpCode::CLV(_) => Some(seq![CPUStatusFlag::V]),
        OpCode::SEC(_) => Some(seq![CPUStatusFlag::C]),
        OpCode::SED(_) => Some(seq![CPUStatusFlag::D]),
        OpCode::SEI(_) => Some(seq![CPUStatusFlag::I]),
        OpCode::BRK(_) => Some(seq![CPUStatusFlag::B]),
        OpCode::RTI(_) => Some(seq![CPUStatusFlag::N, CPUStatusFlag::V, CPUStatusFlag::B, CPUStatusFlag::D, CPUStatusFlag::I, CPUStatusFlag::Z, CPUStatusFlag::C]),
        OpCode::SLO(_) => Some(seq![CPUStatusFlag::C]),
        OpCode::ANC(_) => Some(seq![CPUStatusFlag::N, CPUStatusFlag::Z, CPUStatusFlag::C]),
        OpCode::RLA(_) => Some(seq![CPUStatusFlag::N, CPUStatusFlag::Z, CPUStatusFlag::C]),
        OpCode::SRE(_) => Some(seq![CPUStatusFlag::N, CPUStatusFlag::Z, CPUStatusFlag::C]),
        OpCode::RRA(_) => Some(seq![CPUStatusFlag::N, CPUStatusFlag::V, CPUStatusFlag::Z, CPUStatusFlag::C]),
        OpCode::LAX(_) => Some(seq![CPUStatusFlag::N, CPUStatusFlag::Z]),
        OpCode::DCP(_) => Some(seq![CPUStatusFlag::N, CPUStatusFlag::Z, CPUStatusFlag::C]),
        OpCode::ISC(_) => Some(seq![CPUStatusFlag::N, CPUStatusFlag::V, CPUStatusFlag::Z, CPUStatusFlag::C]),
        _ => None,
    }
}

/// Map an opcode to the status flags its instruction may alter.
pub fn fetch_affected_flags(opcode: &OpCode) -> (r: FlagVec)
    ensures
        opt_view(r) == flags_of(*opcode),
{
    match *opcode {
        OpCode::LDA(_) => sv2(CPUStatusFlag::N, CPUStatusFlag::Z),
        OpCode::LDX(_) => sv2(CPUStatusFlag::N, CPUStatusFlag::Z),
        OpCode::LDY(_) => sv2(CPUStatusFlag::N, CPUStatusFlag::Z),
        OpCode::TAX(_) => sv2(CPUStatusFlag::N, CPUStatusFlag::Z),
        OpCode::TAY(_) => sv2(CPUStatusFlag::N, CPUStatusFlag::Z),
        OpCode::TXA(_) => sv2(CPUStatusFlag::N, CPUStatusFlag::Z),
        OpCode::TYA(_) => sv2(CPUStatusFlag::N, CPUStatusFlag::Z),
        OpCode::AND(_) => sv2(CPUStatusFlag::N, CPUStatusFlag::Z),
        OpCode::EOR(_) => sv2(CPUStatusFlag::N, CPUStatusFlag::Z),
        OpCode::ORA(_) => sv2(CPUStatusFlag::N, CPUStatusFlag::Z),
        OpCode::BIT(_) => sv3(CPUStatusFlag::N, CPUStatusFlag::V, CPUStatusFlag::Z),
        OpCode::ADC(_) => sv4(CPUStatusFlag::N, CPUStatusFlag::V, CPUStatusFlag::Z, CPUStatusFlag::C),
        OpCode::SBC(_) => sv4(CPUStatusFlag::N, CPUStatusFlag::V, CPUStatusFlag::Z, CPUStatusFlag::C),
        OpCode::CMP(_) => sv3(CPUStatusFlag::N, CPUStatusFlag::Z, CPUStatusFlag::C),
        OpCode::CPX(_) => sv3(CPUStatusFlag::N, CPUStatusFlag::Z, CPUStatusFlag::C),
        OpCode::CPY(_) => sv3(CPUStatusFlag::N, CPUStatusFlag::Z, CPUStatusFlag::C),
        OpCode::INC(_) => sv2(CPUStatusFlag::N, CPUStatusFlag::Z),
        OpCode::INX(_) => sv2(CPUStatusFlag::N, CPUStatusFlag::Z),
        OpCode::INY(_) => sv2(CPUStatusFlag::N, CPUStatusFlag::Z),
        OpCode::DEC(_) => sv2(CPUStatusFlag::N, CPUStatusFlag::Z),
        OpCode::DEX(_) => sv2(CPUStatusFlag::N, CPUStatusFlag::Z),
        OpCode::DEY(_) => sv2(CPUStatusFlag::N, CPUStatusFlag::Z),
        OpCode::ASL(_) => sv3(CPUStatusFlag::N, CPUStatusFlag::Z, CPUStatusFlag::C),
        OpCode::LSR(_) => sv3(CPUStatusFlag::N, CPUStatusFlag::Z, CPUStatusFlag::C),
        OpCode::ROL(_) => sv3(CPUStatusFlag::N, CPUStatusFlag::Z, CPUStatusFlag::C),
        OpCode::ROR(_) => sv3(CPUStatusFlag::N, CPUStatusFlag::Z, CPUStatusFlag::C),
        OpCode::CLC(_) => sv1(CPUStatusFlag::C),
        OpCode::CLD(_) => sv1(CPUStatusFlag::D),
        OpCode::CLI(_) => sv1(CPUStatusFlag::I),
        OpCode::CLV(_) => sv1(CPUStatusFlag::V),
        OpCode::SEC(_) => sv1(CPUStatusFlag::C),
        OpCode::SED(_) => sv1(CPUStatusFlag::D),
        OpCode::SEI(_) => sv1(CPUStatusFlag::I),
        OpCode::BRK(_) => sv1(CPUStatusFlag::B),
        OpCode::RTI(_) => sv7(CPUStatusFlag::N, CPUStatusFlag::V, CPUStatusFlag::B, CPUStatusFlag::D, CPUStatusFlag::I, CPUStatusFlag::Z, CPUStatusFlag::C),
        OpCode::SLO(_) => sv1(CPUStatusFlag::C),
        OpCode::ANC(_) => sv3(CPUStatusFlag::N, CPUStatusFlag::Z, CPUStatusFlag::C),
        OpCode::RLA(_) => sv3(CPUStatusFlag::N, CPUStatusFlag::Z, CPUStatusFlag::C),
        OpCode::SRE(_) => sv3(CPUStatusFlag::N, CPUStatusFlag::Z, CPUStatusFlag::C),
        OpCode::RRA(_) => sv4(CPUStatusFlag::N, CPUStatusFlag::V, CPUStatusFlag::Z, CPUStatusFlag::C),
        OpCode::LAX(_) => sv2(CPUStatusFlag::N, CPUStatusFlag::Z),
        OpCode::DCP(_) => sv3(CPUStatusFlag::N, CPUStatusFlag::Z, CPUStatusFlag::C),
        OpCode::ISC(_) => sv4(CPUStatusFlag::N, CPUStatusFlag::V, CPUStatusFlag::Z, CPUStatusFlag::C),
        _ => None,
    }
}

/// How many operand bytes an addressing mode consumes after the opcode byte.
pub open spec fn operand_bytes(mode: AddrMode) -> int {
    match mode {
        AddrMode::Implied | AddrMode::Accumulator => 0,
        AddrMode::Absolute
        | AddrMode::AbsoluteIndexedX(_)
        | AddrMode::AbsoluteIndexedY(_)
        | AddrMode::Indirect => 2,
        _ => 1,
    }
}

/// Whether an addressing mode's encoding makes an extra execution cycle
/// possible: always for a branch, and as carried by the indexed variants.
pub open spec fn spec_extra_cycle(mode: AddrMode) -> bool {
    match mode {
        AddrMode::AbsoluteIndexedX(ec)
        | AddrMode::AbsoluteIndexedY(ec)
        | AddrMode::IndirectIndexedY(ec) => ec,
        AddrMode::Relative => true,
        _ => false,
    }
}

} // verus!
