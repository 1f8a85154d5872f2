use vstd::prelude::*;

verus! {

/// Every mnemonic the assembler knows: directives first, then one block per
/// instruction family.
#[derive(Debug, Clone, Copy, PartialEq, Eq, Structural)]
pub enum Mnemonic {
    // Assembler directives
    DotORG,
    DotDB,
    DotDW,
    DotDD,
    DotDQ,
    // Branch on Indicators instructions
    BL,
    BGE,
    BG,
    BLE,
    BOV,
    BNOV,
    BBT,
    BBF,
    BCT,
    BCF,
    BIOT,
    BIOF,
    BAL,
    BAGE,
    BE,
    BNE,
    BAG,
    BALE,
    BSU,
    BSE,
    B,
    // Branch on Registers instructions
    BLZ,
    BGEZ,
    BEZ,
    BNEZ,
    BGZ,
    BLEZ,
    BODD,
    BEVN,
    BINC,
    BDEC,
    // Short Value Immediate instructions
    LDV,
    CMV,
    ADV,
    MLV,
    // Single Operand instructions
    INC,
    DEC,
    NEG,
    CPL,
    CL,
    CLH,
    CMZ,
    CMN,
    CAD,
    STS,
    JMP,
    ENT,
    LEV,
    SAVE,
    RSTR,
    LB,
    LBF,
    LBT,
    LBC,
    LBS,
    AID,
    LDI,
    SDI,
    SID,
    // NoOp instruction
    NOP,
    // Generic instructions
    HLT,
    MCL,
    RTT,
    RTCN,
    RTCF,
    WDTN,
    WDTF,
    BRK,
    MMM,
    ASD,
    VLD,
    QOH,
    QOT,
    DQH,
    DQA,
    RSC,
    // Double Operand instructions
    LDR,
    STR,
    SRM,
    SWR,
    CMR,
    ADD,
    SUB,
    MUL,
    DIV,
    OR,
    XOR,
    AND,
    LDH,
    STH,
    CMH,
    ORH,
    XOH,
    ANH,
    LLH,
    MTM,
    STM,
    LDB,
    STB,
    CMB,
    SWB,
    LAB,
    LNJ,
    // Shift Short instructions
    SOL,
    SCL,
    SAL,
    DCL,
    SOR,
    SCR,
    SAR,
    DCR,
    // Shift Long instructions
    DOL,
    DAL,
    DOR,
    DAR,
}

/// The syntactic family of a mnemonic: it fixes how many operands a statement
/// takes and which grammar each operand follows.
#[derive(Debug, Clone, Copy, PartialEq, Eq, Structural)]
pub enum StatementKind {
    Org,
    DataDefinition,
    BranchOnIndicators,
    NoOp,
    BranchOnRegisters,
    ShortValueImmediate,
    SingleOperandData,
    SingleOperandBase,
    SingleOperandMemonly,
    SingleOperandDataMasked,
    SingleOperandMemonlyMasked,
    Generic,
    DoubleOperandData,
    DoubleOperandDataMasked,
    DoubleOperandBase,
    DoubleOperandNoreg,
    DoubleOperandMemonly,
    DoubleOperandMode,
    ShiftShort,
    ShiftLong,
}

/// Number of mnemonics in the table.
pub const MNEMONIC_COUNT: usize = 120;

impl Mnemonic {
    /// The family each mnemonic belongs to.
    pub open spec fn spec_kind(self) -> StatementKind {
        match self {
            Mnemonic::DotORG => StatementKind::Org,
            Mnemonic::DotDB | Mnemonic::DotDW | Mnemonic::DotDD | Mnemonic::DotDQ => StatementKind::DataDefinition,
            Mnemonic::BL | Mnemonic::BGE | Mnemonic::BG | Mnemonic::BLE | Mnemonic::BOV
            | Mnemonic::BNOV | Mnemonic::BBT | Mnemonic::BBF | Mnemonic::BCT | Mnemonic::BCF
            | Mnemonic::BIOT | Mnemonic::BIOF | Mnemonic::BAL | Mnemonic::BAGE | Mnemonic::BE
            | Mnemonic::BNE | Mnemonic::BAG | Mnemonic::BALE | Mnemonic::BSU | Mnemonic::BSE
            | Mnemonic::B => StatementKind::BranchOnIndicators,
            Mnemonic::BLZ | Mnemonic::BGEZ | Mnemonic::BEZ | Mnemonic::BNEZ | Mnemonic::BGZ
            | Mnemonic::BLEZ | Mnemonic::BODD | Mnemonic::BEVN | Mnemonic::BINC | Mnemonic::BDEC => StatementKind::BranchOnRegisters,
            Mnemonic::LDV | Mnemonic::CMV | Mnemonic::ADV | Mnemonic::MLV => StatementKind::ShortValueImmediate,
            Mnemonic::INC | Mnemonic::DEC | Mnemonic::NEG | Mnemonic::CPL | Mnemonic::CL
            | Mnemonic::CLH | Mnemonic::CMZ | Mnemonic::CAD | Mnemonic::STS | Mnemonic::AID
            | Mnemonic::LDI | Mnemonic::SDI | Mnemonic::SID => StatementKind::SingleOperandData,
            Mnemonic::CMN => StatementKind::SingleOperandBase,
            Mnemonic::JMP | Mnemonic::ENT => StatementKind::SingleOperandMemonly,
            Mnemonic::LEV | Mnemonic::LB | Mnemonic::LBF | Mnemonic::LBT | Mnemonic::LBC
            | Mnemonic::LBS => StatementKind::SingleOperandDataMasked,
            Mnemonic::SAVE | Mnemonic::RSTR => StatementKind::SingleOperandMemonlyMasked,
            Mnemonic::NOP => StatementKind::NoOp,
            Mnemonic::HLT | Mnemonic::MCL | Mnemonic::RTT | Mnemonic::RTCN | Mnemonic::RTCF
            | Mnemonic::WDTN | Mnemonic::WDTF | Mnemonic::BRK | Mnemonic::MMM | Mnemonic::ASD
            | Mnemonic::VLD | Mnemonic::QOH | Mnemonic::QOT | Mnemonic::DQH | Mnemonic::DQA
            | Mnemonic::RSC => StatementKind::Generic,
            Mnemonic::LDR | Mnemonic::STR | Mnemonic::SWR | Mnemonic::CMR | Mnemonic::ADD
            | Mnemonic::SUB | Mnemonic::MUL | Mnemonic::DIV | Mnemonic::OR | Mnemonic::XOR
            | Mnemonic::AND | Mnemonic::LDH | Mnemonic::STH | Mnemonic::CMH | Mnemonic::ORH
            | Mnemonic::XOH | Mnemonic::ANH | Mnemonic::LLH | Mnemonic::LDB => StatementKind::DoubleOperandData,
            Mnemonic::SRM => StatementKind::DoubleOperandDataMasked,
            Mnemonic::MTM | Mnemonic::STM => StatementKind::DoubleOperandMode,
            Mnemonic::STB | Mnemonic::CMB | Mnemonic::SWB => StatementKind::DoubleOperandBase,
            Mnemonic::LAB => StatementKind::DoubleOperandNoreg,
            Mnemonic::LNJ => StatementKind::DoubleOperandMemonly,
            Mnemonic::SOL | Mnemonic::SCL | Mnemonic::SAL | Mnemonic::DCL | Mnemonic::SOR
            | Mnemonic::SCR | Mnemonic::SAR | Mnemonic::DCR => StatementKind::ShiftShort,
            Mnemonic::DOL | Mnemonic::DAL | Mnemonic::DOR | Mnemonic::DAR => StatementKind::ShiftLong,
        }
    }

    /// The mnemonic as it is written in source text, in upper case.
    pub open spec fn spec_text(self) -> Seq<char> {
        match self {
            Mnemonic::DotORG => ".ORG"@,
            Mnemonic::DotDB => ".DB"@,
            Mnemonic::DotDW => ".DW"@,
            Mnemonic::DotDD => ".DD"@,
            Mnemonic::DotDQ => ".DQ"@,
            Mnemonic::BL => "BL"@,
            Mnemonic::BGE => "BGE"@,
            Mnemonic::BG => "BG"@,
            Mnemonic::BLE => "BLE"@,
            Mnemonic::BOV => "BOV"@,
            Mnemonic::BNOV => "BNOV"@,
            Mnemonic::BBT => "BBT"@,
            Mnemonic::BBF => "BBF"@,
            Mnemonic::BCT => "BCT"@,
            Mnemonic::BCF => "BCF"@,
            Mnemonic::BIOT => "BIOT"@,
            Mnemonic::BIOF => "BIOF"@,
            Mnemonic::BAL => "BAL"@,
            Mnemonic::BAGE => "BAGE"@,
            Mnemonic::BE => "BE"@,
            Mnemonic::BNE => "BNE"@,
            Mnemonic::BAG => "BAG"@,
            Mnemonic::BALE => "BALE"@,
            Mnemonic::BSU => "BSU"@,
            Mnemonic::BSE => "BSE"@,
            Mnemonic::B => "B"@,
            Mnemonic::BLZ => "BLZ"@,
            Mnemonic::BGEZ => "BGEZ"@,
            Mnemonic::BEZ => "BEZ"@,
            Mnemonic::BNEZ => "BNEZ"@,
            Mnemonic::BGZ => "BGZ"@,
            Mnemonic::BLEZ => "BLEZ"@,
            Mnemonic::BODD => "BODD"@,
            Mnemonic::BEVN => "BEVN"@,
            Mnemonic::BINC => "BINC"@,
            Mnemonic::BDEC => "BDEC"@,
            Mnemonic::LDV => "LDV"@,
            Mnemonic::CMV => "CMV"@,
            Mnemonic::ADV => "ADV"@,
            Mnemonic::MLV => "MLV"@,
            Mnemonic::INC => "INC"@,
            Mnemonic::DEC => "DEC"@,
            Mnemonic::NEG => "NEG"@,
            Mnemonic::CPL => "CPL"@,
            Mnemonic::CL => "CL"@,
            Mnemonic::CLH => "CLH"@,
            Mnemonic::CMZ => "CMZ"@,
            Mnemonic::CMN => "CMN"@,
            Mnemonic::CAD => "CAD"@,
            Mnemonic::STS => "STS"@,
            Mnemonic::JMP => "JMP"@,
            Mnemonic::ENT => "ENT"@,
            Mnemonic::LEV => "LEV"@,
            Mnemonic::SAVE => "SAVE"@,
            Mnemonic::RSTR => "RSTR"@,
            Mnemonic::LB => "LB"@,
            Mnemonic::LBF => "LBF"@,
            Mnemonic::LBT => "LBT"@,
            Mnemonic::LBC => "LBC"@,
            Mnemonic::LBS => "LBS"@,
            Mnemonic::AID => "AID"@,
            Mnemonic::LDI => "LDI"@,
            Mnemonic::SDI => "SDI"@,
            Mnemonic::SID => "SID"@,
            Mnemonic::NOP => "NOP"@,
            Mnemonic::HLT => "HLT"@,
            Mnemonic::MCL => "MCL"@,
            Mnemonic::RTT => "RTT"@,
            Mnemonic::RTCN => "RTCN"@,
            Mnemonic::RTCF => "RTCF"@,
            Mnemonic::WDTN => "WDTN"@,
            Mnemonic::WDTF => "WDTF"@,
            Mnemonic::BRK => "BRK"@,
            Mnemonic::MMM => "MMM"@,
            Mnemonic::ASD => "ASD"@,
            Mnemonic::VLD => "VLD"@,
            Mnemonic::QOH => "QOH"@,
            Mnemonic::QOT => "QOT"@,
            Mnemonic::DQH => "DQH"@,
            Mnemonic::DQA => "DQA"@,
            Mnemonic::RSC => "RSC"@,
            Mnemonic::LDR => "LDR"@,
            Mnemonic::STR => "STR"@,
            Mnemonic::SRM => "SRM"@,
            Mnemonic::SWR => "SWR"@,
            Mnemonic::CMR => "CMR"@,
            Mnemonic::ADD => "ADD"@,
            Mnemonic::SUB => "SUB"@,
            Mnemonic::MUL => "MUL"@,
            Mnemonic::DIV => "DIV"@,
            Mnemonic::OR => "OR"@,
            Mnemonic::XOR => "XOR"@,
            Mnemonic::AND => "AND"@,
            Mnemonic::LDH => "LDH"@,
            Mnemonic::STH => "STH"@,
            Mnemonic::CMH => "CMH"@,
            Mnemonic::ORH => "ORH"@,
            Mnemonic::XOH => "XOH"@,
            Mnemonic::ANH => "ANH"@,
            Mnemonic::LLH => "LLH"@,
            Mnemonic::MTM => "MTM"@,
            Mnemonic::STM => "STM"@,
            Mnemonic::LDB => "LDB"@,
            Mnemonic::STB => "STB"@,
            Mnemonic::CMB => "CMB"@,
            Mnemonic::SWB => "SWB"@,
            Mnemonic::LAB => "LAB"@,
            Mnemonic::LNJ => "LNJ"@,
            Mnemonic::SOL => "SOL"@,
            Mnemonic::SCL => "SCL"@,
            Mnemonic::SAL => "SAL"@,
            Mnemonic::DCL => "DCL"@,
            Mnemonic::SOR => "SOR"@,
            Mnemonic::SCR => "SCR"@,
            Mnemonic::SAR => "SAR"@,
            Mnemonic::DCR => "DCR"@,
            Mnemonic::DOL => "DOL"@,
            Mnemonic::DAL => "DAL"@,
            Mnemonic::DOR => "DOR"@,
            Mnemonic::DAR => "DAR"@,
        }
    }

    /// Position of the mnemonic in the table.
    pub open spec fn spec_index(self) -> int {
        match self {
            Mnemonic::DotORG => 0,
            Mnemonic::DotDB => 1,
            Mnemonic::DotDW => 2,
            Mnemonic::DotDD => 3,
            Mnemonic::DotDQ => 4,
            Mnemonic::BL => 5,
            Mnemonic::BGE => 6,
            Mnemonic::BG => 7,
            Mnemonic::BLE => 8,
            Mnemonic::BOV => 9,
            Mnemonic::BNOV => 10,
            Mnemonic::BBT => 11,
            Mnemonic::BBF => 12,
            Mnemonic::BCT => 13,
            Mnemonic::BCF => 14,
            Mnemonic::BIOT => 15,
            Mnemonic::BIOF => 16,
            Mnemonic::BAL => 17,
            Mnemonic::BAGE => 18,
            Mnemonic::BE => 19,
            Mnemonic::BNE => 20,
            Mnemonic::BAG => 21,
            Mnemonic::BALE => 22,
            Mnemonic::BSU => 23,
            Mnemonic::BSE => 24,
            Mnemonic::B => 25,
            Mnemonic::BLZ => 26,
            Mnemonic::BGEZ => 27,
            Mnemonic::BEZ => 28,
            Mnemonic::BNEZ => 29,
            Mnemonic::BGZ => 30,
            Mnemonic::BLEZ => 31,
            Mnemonic::BODD => 32,
            Mnemonic::BEVN => 33,
            Mnemonic::BINC => 34,
            Mnemonic::BDEC => 35,
            Mnemonic::LDV => 36,
            Mnemonic::CMV => 37,
            Mnemonic::ADV => 38,
            Mnemonic::MLV => 39,
            Mnemonic::INC => 40,
            Mnemonic::DEC => 41,
            Mnemonic::NEG => 42,
            Mnemonic::CPL => 43,
            Mnemonic::CL => 44,
            Mnemonic::CLH => 45,
            Mnemonic::CMZ => 46,
            Mnemonic::CMN => 47,
            Mnemonic::CAD => 48,
            Mnemonic::STS => 49,
            Mnemonic::JMP => 50,
            Mnemonic::ENT => 51,
            Mnemonic::LEV => 52,
            Mnemonic::SAVE => 53,
            Mnemonic::RSTR => 54,
            Mnemonic::LB => 55,
            Mnemonic::LBF => 56,
            Mnemonic::LBT => 57,
            Mnemonic::LBC => 58,
            Mnemonic::LBS => 59,
            Mnemonic::AID => 60,
            Mnemonic::LDI => 61,
            Mnemonic::SDI => 62,
            Mnemonic::SID => 63,
            Mnemonic::NOP => 64,
            Mnemonic::HLT => 65,
            Mnemonic::MCL => 66,
            Mnemonic::RTT => 67,
            Mnemonic::RTCN => 68,
            Mnemonic::RTCF => 69,
            Mnemonic::WDTN => 70,
            Mnemonic::WDTF => 71,
            Mnemonic::BRK => 72,
            Mnemonic::MMM => 73,
            Mnemonic::ASD => 74,
            Mnemonic::VLD => 75,
            Mnemonic::QOH => 76,
            Mnemonic::QOT => 77,
            Mnemonic::DQH => 78,
            Mnemonic::DQA => 79,
            Mnemonic::RSC => 80,
            Mnemonic::LDR => 81,
            Mnemonic::STR => 82,
            Mnemonic::SRM => 83,
            Mnemonic::SWR => 84,
            Mnemonic::CMR => 85,
            Mnemonic::ADD => 86,
            Mnemonic::SUB => 87,
            Mnemonic::MUL => 88,
            Mnemonic::DIV => 89,
            Mnemonic::OR => 90,
            Mnemonic::XOR => 91,
            Mnemonic::AND => 92,
            Mnemonic::LDH => 93,
            Mnemonic::STH => 94,
            Mnemonic::CMH => 95,
            Mnemonic::ORH => 96,
            Mnemonic::XOH => 97,
            Mnemonic::ANH => 98,
            Mnemonic::LLH => 99,
            Mnemonic::MTM => 100,
            Mnemonic::STM => 101,
            Mnemonic::LDB => 102,
            Mnemonic::STB => 103,
            Mnemonic::CMB => 104,
            Mnemonic::SWB => 105,
            Mnemonic::LAB => 106,
            Mnemonic::LNJ => 107,
            Mnemonic::SOL => 108,
            Mnemonic::SCL => 109,
            Mnemonic::SAL => 110,
            Mnemonic::DCL => 111,
            Mnemonic::SOR => 112,
            Mnemonic::SCR => 113,
            Mnemonic::SAR => 114,
            Mnemonic::DCR => 115,
            Mnemonic::DOL => 116,
            Mnemonic::DAL => 117,
            Mnemonic::DOR => 118,
            Mnemonic::DAR => 119,
        }
    }

    /// The mnemonic at a position of the table; positions past the end stand for
    /// the last one.
    pub open spec fn spec_at(index: int) -> Mnemonic {
        if index == 0 {
            Mnemonic::DotORG
        } else if index == 1 {
            Mnemonic::DotDB
        } else if index == 2 {
            Mnemonic::DotDW
        } else if index == 3 {
            Mnemonic::DotDD
        } else if index == 4 {
            Mnemonic::DotDQ
        } else if index == 5 {
            Mnemonic::BL
        } else if index == 6 {
            Mnemonic::BGE
        } else if index == 7 {
            Mnemonic::BG
        } else if index == 8 {
            Mnemonic::BLE
        } else if index == 9 {
            Mnemonic::BOV
        } else if index == 10 {
            Mnemonic::BNOV
        } else if index == 11 {
            Mnemonic::BBT
        } else if index == 12 {
            Mnemonic::BBF
        } else if index == 13 {
            Mnemonic::BCT
        } else if index == 14 {
            Mnemonic::BCF
        } else if index == 15 {
            Mnemonic::BIOT
        } else if index == 16 {
            Mnemonic::BIOF
        } else if index == 17 {
            Mnemonic::BAL
        } else if index == 18 {
            Mnemonic::BAGE
        } else if index == 19 {
            Mnemonic::BE
        } else if index == 20 {
            Mnemonic::BNE
        } else if index == 21 {
            Mnemonic::BAG
        } else if index == 22 {
            Mnemonic::BALE
        } else if index == 23 {
            Mnemonic::BSU
        } else if index == 24 {
            Mnemonic::BSE
        } else if index == 25 {
            Mnemonic::B
        } else if index == 26 {
            Mnemonic::BLZ
        } else if index == 27 {
            Mnemonic::BGEZ
        } else if index == 28 {
            Mnemonic::BEZ
        } else if index == 29 {
            Mnemonic::BNEZ
        } else if index == 30 {
            Mnemonic::BGZ
        } else if index == 31 {
            Mnemonic::BLEZ
        } else if index == 32 {
            Mnemonic::BODD
        } else if index == 33 {
            Mnemonic::BEVN
        } else if index == 34 {
            Mnemonic::BINC
        } else if index == 35 {
            Mnemonic::BDEC
        } else if index == 36 {
            Mnemonic::LDV
        } else if index == 37 {
            Mnemonic::CMV
        } else if index == 38 {
            Mnemonic::ADV
        } else if index == 39 {
            Mnemonic::MLV
        } else if index == 40 {
            Mnemonic::INC
        } else if index == 41 {
            Mnemonic::DEC
        } else if index == 42 {
            Mnemonic::NEG
        } else if index == 43 {
            Mnemonic::CPL
        } else if index == 44 {
            Mnemonic::CL
        } else if index == 45 {
            Mnemonic::CLH
        } else if index == 46 {
            Mnemonic::CMZ
        } else if index == 47 {
            Mnemonic::CMN
        } else if index == 48 {
            Mnemonic::CAD
        } else if index == 49 {
            Mnemonic::STS
        } else if index == 50 {
            Mnemonic::JMP
        } else if index == 51 {
            Mnemonic::ENT
        } else if index == 52 {
            Mnemonic::LEV
        } else if index == 53 {
            Mnemonic::SAVE
        } else if index == 54 {
            Mnemonic::RSTR
        } else if index == 55 {
            Mnemonic::LB
        } else if index == 56 {
            Mnemonic::LBF
        } else if index == 57 {
            Mnemonic::LBT
        } else if index == 58 {
            Mnemonic::LBC
        } else if index == 59 {
            Mnemonic::LBS
        } else if index == 60 {
            Mnemonic::AID
        } else if index == 61 {
            Mnemonic::LDI
        } else if index == 62 {
            Mnemonic::SDI
        } else if index == 63 {
            Mnemonic::SID
        } else if index == 64 {
            Mnemonic::NOP
        } else if index == 65 {
            Mnemonic::HLT
        } else if index == 66 {
            Mnemonic::MCL
        } else if index == 67 {
            Mnemonic::RTT
        } else if index == 68 {
            Mnemonic::RTCN
        } else if index == 69 {
            Mnemonic::RTCF
        } else if index == 70 {
            Mnemonic::WDTN
        } else if index == 71 {
            Mnemonic::WDTF
        } else if index == 72 {
            Mnemonic::BRK
        } else if index == 73 {
            Mnemonic::MMM
        } else if index == 74 {
            Mnemonic::ASD
        } else if index == 75 {
            Mnemonic::VLD
        } else if index == 76 {
            Mnemonic::QOH
        } else if index == 77 {
            Mnemonic::QOT
        } else if index == 78 {
            Mnemonic::DQH
        } else if index == 79 {
            Mnemonic::DQA
        } else if index == 80 {
            Mnemonic::RSC
        } else if index == 81 {
            Mnemonic::LDR
        } else if index == 82 {
            Mnemonic::STR
        } else if index == 83 {
            Mnemonic::SRM
        } else if index == 84 {
            Mnemonic::SWR
        } else if index == 85 {
            Mnemonic::CMR
        } else if index == 86 {
            Mnemonic::ADD
        } else if index == 87 {
            Mnemonic::SUB
        } else if index == 88 {
            Mnemonic::MUL
        } else if index == 89 {
            Mnemonic::DIV
        } else if index == 90 {
            Mnemonic::OR
        } else if index == 91 {
            Mnemonic::XOR
        } else if index == 92 {
            Mnemonic::AND
        } else if index == 93 {
            Mnemonic::LDH
        } else if index == 94 {
            Mnemonic::STH
        } else if index == 95 {
            Mnemonic::CMH
        } else if index == 96 {
            Mnemonic::ORH
        } else if index == 97 {
            Mnemonic::XOH
        } else if index == 98 {
            Mnemonic::ANH
        } else if index == 99 {
            Mnemonic::LLH
        } else if index == 100 {
            Mnemonic::MTM
        } else if index == 101 {
            Mnemonic::STM
        } else if index == 102 {
            Mnemonic::LDB
        } else if index == 103 {
            Mnemonic::STB
        } else if index == 104 {
            Mnemonic::CMB
        } else if index == 105 {
            Mnemonic::SWB
        } else if index == 106 {
            Mnemonic::LAB
        } else if index == 107 {
            Mnemonic::LNJ
        } else if index == 108 {
            Mnemonic::SOL
        } else if index == 109 {
            Mnemonic::SCL
        } else if index == 110 {
            Mnemonic::SAL
        } else if index == 111 {
            Mnemonic::DCL
        } else if index == 112 {
            Mnemonic::SOR
        } else if index == 113 {
            Mnemonic::SCR
        } else if index == 114 {
            Mnemonic::SAR
        } else if index == 115 {
            Mnemonic::DCR
        } else if index == 116 {
            Mnemonic::DOL
        } else if index == 117 {
            Mnemonic::DAL
        } else if index == 118 {
            Mnemonic::DOR
        } else {
            Mnemonic::DAR
        }
    }

    /// Get StatementKind for each mnemonic
    pub fn get_kind(&self) -> (kind: StatementKind)
        ensures
            kind == self.spec_kind(),
    {
        match *self {
            Self::DotORG => StatementKind::Org,
            Self::DotDB | Self::DotDW | Self::DotDD | Self::DotDQ => StatementKind::DataDefinition,
            Self::BL | Self::BGE | Self::BG | Self::BLE | Self::BOV | Self::BNOV | Self::BBT
            | Self::BBF | Self::BCT | Self::BCF | Self::BIOT | Self::BIOF | Self::BAL
            | Self::BAGE | Self::BE | Self::BNE | Self::BAG | Self::BALE | Self::BSU | Self::BSE
            | Self::B => StatementKind::BranchOnIndicators,
            Self::BLZ | Self::BGEZ | Self::BEZ | Self::BNEZ | Self::BGZ | Self::BLEZ
            | Self::BODD | Self::BEVN | Self::BINC | Self::BDEC => StatementKind::BranchOnRegisters,
            Self::LDV | Self::CMV | Self::ADV | Self::MLV => StatementKind::ShortValueImmediate,
            Self::INC | Self::DEC | Self::NEG | Self::CPL | Self::CL | Self::CLH | Self::CMZ
            | Self::CAD | Self::STS | Self::AID | Self::LDI | Self::SDI | Self::SID => StatementKind::SingleOperandData,
            Self::CMN => StatementKind::SingleOperandBase,
            Self::JMP | Self::ENT => StatementKind::SingleOperandMemonly,
            Self::LEV | Self::LB | Self::LBF | Self::LBT | Self::LBC | Self::LBS => StatementKind::SingleOperandDataMasked,
            Self::SAVE | Self::RSTR => StatementKind::SingleOperandMemonlyMasked,
            Self::NOP => StatementKind::NoOp,
            Self::HLT | Self::MCL | Self::RTT | Self::RTCN | Self::RTCF | Self::WDTN
            | Self::WDTF | Self::BRK | Self::MMM | Self::ASD | Self::VLD | Self::QOH | Self::QOT
            | Self::DQH | Self::DQA | Self::RSC => StatementKind::Generic,
            Self::LDR | Self::STR | Self::SWR | Self::CMR | Self::ADD | Self::SUB | Self::MUL
            | Self::DIV | Self::OR | Self::XOR | Self::AND | Self::LDH | Self::STH | Self::CMH
            | Self::ORH | Self::XOH | Self::ANH | Self::LLH | Self::LDB => StatementKind::DoubleOperandData,
            Self::SRM => StatementKind::DoubleOperandDataMasked,
            Self::MTM | Self::STM => StatementKind::DoubleOperandMode,
            Self::STB | Self::CMB | Self::SWB => StatementKind::DoubleOperandBase,
            Self::LAB => StatementKind::DoubleOperandNoreg,
            Self::LNJ => StatementKind::DoubleOperandMemonly,
            Self::SOL | Self::SCL | Self::SAL | Self::DCL | Self::SOR | Self::SCR | Self::SAR
            | Self::DCR => StatementKind::ShiftShort,
            Self::DOL | Self::DAL | Self::DOR | Self::DAR => StatementKind::ShiftLong,
        }
    }

    /// The text of the mnemonic, as the listing and the diagnostics show it.
    pub fn display_value(&self) -> (text: &'static str)
        ensures
            text@ == self.spec_text(),
    {
        match *self {
            Self::DotORG => ".ORG",
            Self::DotDB => ".DB",
            Self::DotDW => ".DW",
            Self::DotDD => ".DD",
            Self::DotDQ => ".DQ",
            Self::BL => "BL",
            Self::BGE => "BGE",
            Self::BG => "BG",
            Self::BLE => "BLE",
            Self::BOV => "BOV",
            Self::BNOV => "BNOV",
            Self::BBT => "BBT",
            Self::BBF => "BBF",
            Self::BCT => "BCT",
            Self::BCF => "BCF",
            Self::BIOT => "BIOT",
            Self::BIOF => "BIOF",
            Self::BAL => "BAL",
            Self::BAGE => "BAGE",
            Self::BE => "BE",
            Self::BNE => "BNE",
            Self::BAG => "BAG",
            Self::BALE => "BALE",
            Self::BSU => "BSU",
            Self::BSE => "BSE",
            Self::B => "B",
            Self::BLZ => "BLZ",
            Self::BGEZ => "BGEZ",
            Self::BEZ => "BEZ",
            Self::BNEZ => "BNEZ",
            Self::BGZ => "BGZ",
            Self::BLEZ => "BLEZ",
            Self::BODD => "BODD",
            Self::BEVN => "BEVN",
            Self::BINC => "BINC",
            Self::BDEC => "BDEC",
            Self::LDV => "LDV",
            Self::CMV => "CMV",
            Self::ADV => "ADV",
            Self::MLV => "MLV",
            Self::INC => "INC",
            Self::DEC => "DEC",
            Self::NEG => "NEG",
            Self::CPL => "CPL",
            Self::CL => "CL",
            Self::CLH => "CLH",
            Self::CMZ => "CMZ",
            Self::CMN => "CMN",
            Self::CAD => "CAD",
            Self::STS => "STS",
            Self::JMP => "JMP",
            Self::ENT => "ENT",
            Self::LEV => "LEV",
            Self::SAVE => "SAVE",
            Self::RSTR => "RSTR",
            Self::LB => "LB",
            Self::LBF => "LBF",
            Self::LBT => "LBT",
            Self::LBC => "LBC",
            Self::LBS => "LBS",
            Self::AID => "AID",
            Self::LDI => "LDI",
            Self::SDI => "SDI",
            Self::SID => "SID",
            Self::NOP => "NOP",
            Self::HLT => "HLT",
            Self::MCL => "MCL",
            Self::RTT => "RTT",
            Self::RTCN => "RTCN",
            Self::RTCF => "RTCF",
            Self::WDTN => "WDTN",
            Self::WDTF => "WDTF",
            Self::BRK => "BRK",
            Self::MMM => "MMM",
            Self::ASD => "ASD",
            Self::VLD => "VLD",
            Self::QOH => "QOH",
            Self::QOT => "QOT",
            Self::DQH => "DQH",
            Self::DQA => "DQA",
            Self::RSC => "RSC",
            Self::LDR => "LDR",
            Self::STR => "STR",
            Self::SRM => "SRM",
            Self::SWR => "SWR",
            Self::CMR => "CMR",
            Self::ADD => "ADD",
            Self::SUB => "SUB",
            Self::MUL => "MUL",
            Self::DIV => "DIV",
            Self::OR => "OR",
            Self::XOR => "XOR",
            Self::AND => "AND",
            Self::LDH => "LDH",
            Self::STH => "STH",
            Self::CMH => "CMH",
            Self::ORH => "ORH",
            Self::XOH => "XOH",
            Self::ANH => "ANH",
            Self::LLH => "LLH",
            Self::MTM => "MTM",
            Self::STM => "STM",
            Self::LDB => "LDB",
            Self::STB => "STB",
            Self::CMB => "CMB",
            Self::SWB => "SWB",
            Self::LAB => "LAB",
            Self::LNJ => "LNJ",
            Self::SOL => "SOL",
            Self::SCL => "SCL",
            Self::SAL => "SAL",
            Self::DCL => "DCL",
            Self::SOR => "SOR",
            Self::SCR => "SCR",
            Self::SAR => "SAR",
            Self::DCR => "DCR",
            Self::DOL => "DOL",
            Self::DAL => "DAL",
            Self::DOR => "DOR",
            Self::DAR => "DAR",
        }
    }

    /// The mnemonic at a position of the table; `None` past its end.
    pub fn from_index(index: usize) -> (found: Option<Mnemonic>)
        ensures
            index < MNEMONIC_COUNT ==> found == Some(Mnemonic::spec_at(index as int)),
            index >= MNEMONIC_COUNT ==> found.is_none(),
    {
        match index {
            0 => Some(Mnemonic::DotORG),
            1 => Some(Mnemonic::DotDB),
            2 => Some(Mnemonic::DotDW),
            3 => Some(Mnemonic::DotDD),
            4 => Some(Mnemonic::DotDQ),
            5 => Some(Mnemonic::BL),
            6 => Some(Mnemonic::BGE),
            7 => Some(Mnemonic::BG),
            8 => Some(Mnemonic::BLE),
            9 => Some(Mnemonic::BOV),
            10 => Some(Mnemonic::BNOV),
            11 => Some(Mnemonic::BBT),
            12 => Some(Mnemonic::BBF),
            13 => Some(Mnemonic::BCT),
            14 => Some(Mnemonic::BCF),
            15 => Some(Mnemonic::BIOT),
            16 => Some(Mnemonic::BIOF),
            17 => Some(Mnemonic::BAL),
            18 => Some(Mnemonic::BAGE),
            19 => Some(Mnemonic::BE),
            20 => Some(Mnemonic::BNE),
            21 => Some(Mnemonic::BAG),
            22 => Some(Mnemonic::BALE),
            23 => Some(Mnemonic::BSU),
            24 => Some(Mnemonic::BSE),
            25 => Some(Mnemonic::B),
            26 => Some(Mnemonic::BLZ),
            27 => Some(Mnemonic::BGEZ),
            28 => Some(Mnemonic::BEZ),
            29 => Some(Mnemonic::BNEZ),
            30 => Some(Mnemonic::BGZ),
            31 => Some(Mnemonic::BLEZ),
            32 => Some(Mnemonic::BODD),
            33 => Some(Mnemonic::BEVN),
            34 => Some(Mnemonic::BINC),
            35 => Some(Mnemonic::BDEC),
            36 => Some(Mnemonic::LDV),
            37 => Some(Mnemonic::CMV),
            38 => Some(Mnemonic::ADV),
            39 => Some(Mnemonic::MLV),
            40 => Some(Mnemonic::INC),
            41 => Some(Mnemonic::DEC),
            42 => Some(Mnemonic::NEG),
            43 => Some(Mnemonic::CPL),
            44 => Some(Mnemonic::CL),
            45 => Some(Mnemonic::CLH),
            46 => Some(Mnemonic::CMZ),
            47 => Some(Mnemonic::CMN),
            48 => Some(Mnemonic::CAD),
            49 => Some(Mnemonic::STS),
            50 => Some(Mnemonic::JMP),
            51 => Some(Mnemonic::ENT),
            52 => Some(Mnemonic::LEV),
            53 => Some(Mnemonic::SAVE),
            54 => Some(Mnemonic::RSTR),
            55 => Some(Mnemonic::LB),
            56 => Some(Mnemonic::LBF),
            57 => Some(Mnemonic::LBT),
            58 => Some(Mnemonic::LBC),
            59 => Some(Mnemonic::LBS),
            60 => Some(Mnemonic::AID),
            61 => Some(Mnemonic::LDI),
            62 => Some(Mnemonic::SDI),
            63 => Some(Mnemonic::SID),
            64 => Some(Mnemonic::NOP),
            65 => Some(Mnemonic::HLT),
            66 => Some(Mnemonic::MCL),
            67 => Some(Mnemonic::RTT),
            68 => Some(Mnemonic::RTCN),
            69 => Some(Mnemonic::RTCF),
            70 => Some(Mnemonic::WDTN),
            71 => Some(Mnemonic::WDTF),
            72 => Some(Mnemonic::BRK),
            73 => Some(Mnemonic::MMM),
            74 => Some(Mnemonic::ASD),
            75 => Some(Mnemonic::VLD),
            76 => Some(Mnemonic::QOH),
            77 => Some(Mnemonic::QOT),
            78 => Some(Mnemonic::DQH),
            79 => Some(Mnemonic::DQA),
            80 => Some(Mnemonic::RSC),
            81 => Some(Mnemonic::LDR),
            82 => Some(Mnemonic::STR),
            83 => Some(Mnemonic::SRM),
            84 => Some(Mnemonic::SWR),
            85 => Some(Mnemonic::CMR),
            86 => Some(Mnemonic::ADD),
            87 => Some(Mnemonic::SUB),
            88 => Some(Mnemonic::MUL),
            89 => Some(Mnemonic::DIV),
            90 => Some(Mnemonic::OR),
            91 => Some(Mnemonic::XOR),
            92 => Some(Mnemonic::AND),
            93 => Some(Mnemonic::LDH),
            94 => Some(Mnemonic::STH),
            95 => Some(Mnemonic::CMH),
            96 => Some(Mnemonic::ORH),
            97 => Some(Mnemonic::XOH),
            98 => Some(Mnemonic::ANH),
            99 => Some(Mnemonic::LLH),
            100 => Some(Mnemonic::MTM),
            101 => Some(Mnemonic::STM),
            102 => Some(Mnemonic::LDB),
            103 => Some(Mnemonic::STB),
            104 => Some(Mnemonic::CMB),
            105 => Some(Mnemonic::SWB),
            106 => Some(Mnemonic::LAB),
            107 => Some(Mnemonic::LNJ),
            108 => Some(Mnemonic::SOL),
            109 => Some(Mnemonic::SCL),
            110 => Some(Mnemonic::SAL),
            111 => Some(Mnemonic::DCL),
            112 => Some(Mnemonic::SOR),
            113 => Some(Mnemonic::SCR),
            114 => Some(Mnemonic::SAR),
            115 => Some(Mnemonic::DCR),
            116 => Some(Mnemonic::DOL),
            117 => Some(Mnemonic::DAL),
            118 => Some(Mnemonic::DOR),
            119 => Some(Mnemonic::DAR),
            _ => None,
        }
    }
}

/// Every mnemonic stands in the table, at its own position.
pub proof fn lemma_mnemonic_index_in_range(m: Mnemonic)
    ensures
        0 <= m.spec_index() < MNEMONIC_COUNT,
        Mnemonic::spec_at(m.spec_index()) == m,
{
}

} // verus!
