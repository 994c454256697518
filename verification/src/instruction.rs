use vstd::prelude::*;

verus! {

/// The 6502 operations the emulator decodes. `ERR` marks an opcode with no
/// instruction behind it.
#[derive(Copy, Clone, PartialEq, Eq, Structural, Debug)]
pub enum Instruction {
    ERR,
    ADC,
    AND,
    ASL,
    BCC,
    BCS,
    BEQ,
    BMI,
    BNE,
    BPL,
    BVC,
    BVS,
    CLC,
    CLD,
    CLI,
    CLV,
    SEC,
    SEI,
    SED,
    BIT,
    CMP,
    CPX,
    CPY,
    DEC,
    DEX,
    DEY,
    INC,
    INX,
    INY,
    LSR,
    NOP,
    ROL,
    ROR,
    SBC,
    ORA,
    EOR,
    LDA,
    LDX,
    LDY,
    STA,
    STX,
    STY,
    JMP,
    JSP,
    RTS,
    BRK,
    RTI,
    PHA,
    PLA,
    PHP,
    PLP,
    TAX,
    TXA,
    TAY,
    TYA,
    TSX,
    TXS,
}

impl Instruction {
    /// The assembler mnemonic, in lower case; `???` for an undecodable opcode.
    pub open spec fn spec_mnemonic(self) -> Seq<char> {
        match self {
            Instruction::ERR => "???"@,
            Instruction::ADC => "adc"@,
            Instruction::AND => "and"@,
            Instruction::ASL => "asl"@,
            Instruction::BCC => "bcc"@,
            Instruction::BCS => "bcs"@,
            Instruction::BEQ => "beq"@,
            Instruction::BMI => "bmi"@,
            Instruction::BNE => "bne"@,
            Instruction::BPL => "bpl"@,
            Instruction::BVC => "bvc"@,
            Instruction::BVS => "bvs"@,
            Instruction::CLC => "clc"@,
            Instruction::CLD => "cld"@,
            Instruction::CLI => "cli"@,
            Instruction::CLV => "clv"@,
            Instruction::SEC => "sec"@,
            Instruction::SEI => "sei"@,
            Instruction::SED => "sed"@,
            Instruction::BIT => "bit"@,
            Instruction::CMP => "cmp"@,
            Instruction::CPX => "cpx"@,
            Instruction::CPY => "cpy"@,
            Instruction::DEC => "dec"@,
            Instruction::DEX => "dex"@,
            Instruction::DEY => "dey"@,
            Instruction::INC => "inc"@,
            Instruction::INX => "inx"@,
            Instruction::INY => "iny"@,
            Instruction::LSR => "lsr"@,
            Instruction::NOP => "nop"@,
            Instruction::ROL => "rol"@,
            Instruction::ROR => "ror"@,
            Instruction::SBC => "sbc"@,
            Instruction::ORA => "ora"@,
            Instruction::EOR => "eor"@,
            Instruction::LDA => "lda"@,
            Instruction::LDX => "ldx"@,
            Instruction::LDY => "ldy"@,
            Instruction::STA => "sta"@,
            Instruction::STX => "stx"@,
            Instruction::STY => "sty"@,
            Instruction::JMP => "jmp"@,
            Instruction::JSP => "jsp"@,
            Instruction::RTS => "rts"@,
            Instruction::BRK => "brk"@,
            Instruction::RTI => "rti"@,
            Instruction::PHA => "pha"@,
            Instruction::PLA => "pla"@,
            Instruction::PHP => "php"@,
            Instruction::PLP => "plp"@,
            Instruction::TAX => "tax"@,
            Instruction::TXA => "txa"@,
            Instruction::TAY => "tay"@,
            Instruction::TYA => "tya"@,
            Instruction::TSX => "tsx"@,
            Instruction::TXS => "txs"@,
        }
    }

    /// The text the instruction is printed as.
    pub fn mnemonic(&self) -> (s: &'static str)
        ensures
            s@ == self.spec_mnemonic(),
    {
        match self {
            Instruction::ERR => "???",
            Instruction::ADC => "adc",
            Instruction::AND => "and",
            Instruction::ASL => "asl",
            Instruction::BCC => "bcc",
            Instruction::BCS => "bcs",
            Instruction::BEQ => "beq",
            Instruction::BMI => "bmi",
            Instruction::BNE => "bne",
            Instruction::BPL => "bpl",
            Instruction::BVC => "bvc",
            Instruction::BVS => "bvs",
            Instruction::CLC => "clc",
            Instruction::CLD => "cld",
            Instruction::CLI => "cli",
            Instruction::CLV => "clv",
            Instruction::SEC => "sec",
            Instruction::SEI => "sei",
            Instruction::SED => "sed",
            Instruction::BIT => "bit",
            Instruction::CMP => "cmp",
            Instruction::CPX => "cpx",
            Instruction::CPY => "cpy",
            Instruction::DEC => "dec",
            Instruction::DEX => "dex",
            Instruction::DEY => "dey",
            Instruction::INC => "inc",
            Instruction::INX => "inx",
            Instruction::INY => "iny",
            Instruction::LSR => "lsr",
            Instruction::NOP => "nop",
            Instruction::ROL => "rol",
            Instruction::ROR => "ror",
            Instruction::SBC => "sbc",
            Instruction::ORA => "ora",
            Instruction::EOR => "eor",
            Instruction::LDA => "lda",
            Instruction::LDX => "ldx",
            Instruction::LDY => "ldy",
            Instruction::STA => "sta",
            Instruction::STX => "stx",
            Instruction::STY => "sty",
            Instruction::JMP => "jmp",
            Instruction::JSP => "jsp",
            Instruction::RTS => "rts",
            Instruction::BRK => "brk",
            Instruction::RTI => "rti",
            Instruction::PHA => "pha",
            Instruction::PLA => "pla",
            Instruction::PHP => "php",
            Instruction::PLP => "plp",
            Instruction::TAX => "tax",
            Instruction::TXA => "txa",
            Instruction::TAY => "tay",
            Instruction::TYA => "tya",
            Instruction::TSX => "tsx",
            Instruction::TXS => "txs",
        }
    }
}

} // verus!
