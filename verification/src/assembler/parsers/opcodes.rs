use vstd::pervasive::unreached;
use vstd::prelude::*;
use crate::assembler::mnemonics::Mnemonic;
use crate::assembler::statements::{
    BranchOnIndicatorsOpCode, BranchOnRegistersOpCode, DataDefinitionSize, DoubleOperandOpCode,
    GenericOpCode, ShiftLongOpCode, ShiftShortOpCode, ShortValueImmediateOpCode,
    SingleOperandOpCode,
};

verus! {

/// The unit size that a data definition directive stands for; `None` for any
/// other mnemonic.
pub open spec fn spec_data_definition_size_of(mnemo: Mnemonic) -> Option<DataDefinitionSize> {
    match mnemo {
        Mnemonic::DotDB => Some(DataDefinitionSize::Byte),
        Mnemonic::DotDW => Some(DataDefinitionSize::Word),
        Mnemonic::DotDD => Some(DataDefinitionSize::DoubleWord),
        Mnemonic::DotDQ => Some(DataDefinitionSize::QuadWord),
        _ => None,
    }
}

/// The unit size of a data definition directive.
pub fn match_data_definition_size(mnemo: &Mnemonic) -> (size: DataDefinitionSize)
    requires
        spec_data_definition_size_of(*mnemo) is Some,
    ensures
        Some(size) == spec_data_definition_size_of(*mnemo),
{
    match mnemo {
        Mnemonic::DotDB => DataDefinitionSize::Byte,
        Mnemonic::DotDW => DataDefinitionSize::Word,
        Mnemonic::DotDD => DataDefinitionSize::DoubleWord,
        Mnemonic::DotDQ => DataDefinitionSize::QuadWord,
        _ => unreached(),
    }
}

/// The operation of a branch on indicators that a mnemonic stands for; `None` for a mnemonic of
/// another family.
pub open spec fn spec_branch_on_indicators_opcode(mnemo: Mnemonic) -> Option<BranchOnIndicatorsOpCode> {
    match mnemo {
        Mnemonic::BL => Some(BranchOnIndicatorsOpCode::BL),
        Mnemonic::BGE => Some(BranchOnIndicatorsOpCode::BGE),
        Mnemonic::BG => Some(BranchOnIndicatorsOpCode::BG),
        Mnemonic::BLE => Some(BranchOnIndicatorsOpCode::BLE),
        Mnemonic::BOV => Some(BranchOnIndicatorsOpCode::BOV),
        Mnemonic::BNOV => Some(BranchOnIndicatorsOpCode::BNOV),
        Mnemonic::BBT => Some(BranchOnIndicatorsOpCode::BBT),
        Mnemonic::BBF => Some(BranchOnIndicatorsOpCode::BBF),
        Mnemonic::BCT => Some(BranchOnIndicatorsOpCode::BCT),
        Mnemonic::BCF => Some(BranchOnIndicatorsOpCode::BCF),
        Mnemonic::BIOT => Some(BranchOnIndicatorsOpCode::BIOT),
        Mnemonic::BIOF => Some(BranchOnIndicatorsOpCode::BIOF),
        Mnemonic::BAL => Some(BranchOnIndicatorsOpCode::BAL),
        Mnemonic::BAGE => Some(BranchOnIndicatorsOpCode::BAGE),
        Mnemonic::BE => Some(BranchOnIndicatorsOpCode::BE),
        Mnemonic::BNE => Some(BranchOnIndicatorsOpCode::BNE),
        Mnemonic::BAG => Some(BranchOnIndicatorsOpCode::BAG),
        Mnemonic::BALE => Some(BranchOnIndicatorsOpCode::BALE),
        Mnemonic::BSU => Some(BranchOnIndicatorsOpCode::BSU),
        Mnemonic::BSE => Some(BranchOnIndicatorsOpCode::BSE),
        Mnemonic::NOP => Some(BranchOnIndicatorsOpCode::NOP),
        Mnemonic::B => Some(BranchOnIndicatorsOpCode::B),
        _ => None,
    }
}

/// The operation of a branch on indicators.
pub fn match_branch_on_indicators_opcode(mnemo: &Mnemonic) -> (op: BranchOnIndicatorsOpCode)
    requires
        spec_branch_on_indicators_opcode(*mnemo) is Some,
    ensures
        Some(op) == spec_branch_on_indicators_opcode(*mnemo),
{
    match mnemo {
        Mnemonic::BL => BranchOnIndicatorsOpCode::BL,
        Mnemonic::BGE => BranchOnIndicatorsOpCode::BGE,
        Mnemonic::BG => BranchOnIndicatorsOpCode::BG,
        Mnemonic::BLE => BranchOnIndicatorsOpCode::BLE,
        Mnemonic::BOV => BranchOnIndicatorsOpCode::BOV,
        Mnemonic::BNOV => BranchOnIndicatorsOpCode::BNOV,
        Mnemonic::BBT => BranchOnIndicatorsOpCode::BBT,
        Mnemonic::BBF => BranchOnIndicatorsOpCode::BBF,
        Mnemonic::BCT => BranchOnIndicatorsOpCode::BCT,
        Mnemonic::BCF => BranchOnIndicatorsOpCode::BCF,
        Mnemonic::BIOT => BranchOnIndicatorsOpCode::BIOT,
        Mnemonic::BIOF => BranchOnIndicatorsOpCode::BIOF,
        Mnemonic::BAL => BranchOnIndicatorsOpCode::BAL,
        Mnemonic::BAGE => BranchOnIndicatorsOpCode::BAGE,
        Mnemonic::BE => BranchOnIndicatorsOpCode::BE,
        Mnemonic::BNE => BranchOnIndicatorsOpCode::BNE,
        Mnemonic::BAG => BranchOnIndicatorsOpCode::BAG,
        Mnemonic::BALE => BranchOnIndicatorsOpCode::BALE,
        Mnemonic::BSU => BranchOnIndicatorsOpCode::BSU,
        Mnemonic::BSE => BranchOnIndicatorsOpCode::BSE,
        Mnemonic::NOP => BranchOnIndicatorsOpCode::NOP,
        Mnemonic::B => BranchOnIndicatorsOpCode::B,
        _ => unreached(),
    }
}

/// The operation of a branch on registers that a mnemonic stands for; `None` for a mnemonic of
/// another family.
pub open spec fn spec_branch_on_registers_opcode(mnemo: Mnemonic) -> Option<BranchOnRegistersOpCode> {
    match mnemo {
        Mnemonic::BLZ => Some(BranchOnRegistersOpCode::BLZ),
        Mnemonic::BGEZ => Some(BranchOnRegistersOpCode::BGEZ),
        Mnemonic::BEZ => Some(BranchOnRegistersOpCode::BEZ),
        Mnemonic::BNEZ => Some(BranchOnRegistersOpCode::BNEZ),
        Mnemonic::BGZ => Some(BranchOnRegistersOpCode::BGZ),
        Mnemonic::BLEZ => Some(BranchOnRegistersOpCode::BLEZ),
        Mnemonic::BODD => Some(BranchOnRegistersOpCode::BODD),
        Mnemonic::BEVN => Some(BranchOnRegistersOpCode::BEVN),
        Mnemonic::BINC => Some(BranchOnRegistersOpCode::BINC),
        Mnemonic::BDEC => Some(BranchOnRegistersOpCode::BDEC),
        _ => None,
    }
}

/// The operation of a branch on registers.
pub fn match_branch_on_registers_opcode(mnemo: &Mnemonic) -> (op: BranchOnRegistersOpCode)
    requires
        spec_branch_on_registers_opcode(*mnemo) is Some,
    ensures
        Some(op) == spec_branch_on_registers_opcode(*mnemo),
{
    match mnemo {
        Mnemonic::BLZ => BranchOnRegistersOpCode::BLZ,
        Mnemonic::BGEZ => BranchOnRegistersOpCode::BGEZ,
        Mnemonic::BEZ => BranchOnRegistersOpCode::BEZ,
        Mnemonic::BNEZ => BranchOnRegistersOpCode::BNEZ,
        Mnemonic::BGZ => BranchOnRegistersOpCode::BGZ,
        Mnemonic::BLEZ => BranchOnRegistersOpCode::BLEZ,
        Mnemonic::BODD => BranchOnRegistersOpCode::BODD,
        Mnemonic::BEVN => BranchOnRegistersOpCode::BEVN,
        Mnemonic::BINC => BranchOnRegistersOpCode::BINC,
        Mnemonic::BDEC => BranchOnRegistersOpCode::BDEC,
        _ => unreached(),
    }
}

/// The operation of a short value immediate instruction that a mnemonic stands for; `None` for a mnemonic of
/// another family.
pub open spec fn spec_short_value_immediate_opcode(mnemo: Mnemonic) -> Option<ShortValueImmediateOpCode> {
    match mnemo {
        Mnemonic::LDV => Some(ShortValueImmediateOpCode::LDV),
        Mnemonic::CMV => Some(ShortValueImmediateOpCode::CMV),
        Mnemonic::ADV => Some(ShortValueImmediateOpCode::ADV),
        Mnemonic::MLV => Some(ShortValueImmediateOpCode::MLV),
        _ => None,
    }
}

/// The operation of a short value immediate instruction.
pub fn match_short_value_immediate_opcode(mnemo: &Mnemonic) -> (op: ShortValueImmediateOpCode)
    requires
        spec_short_value_immediate_opcode(*mnemo) is Some,
    ensures
        Some(op) == spec_short_value_immediate_opcode(*mnemo),
{
    match mnemo {
        Mnemonic::LDV => ShortValueImmediateOpCode::LDV,
        Mnemonic::CMV => ShortValueImmediateOpCode::CMV,
        Mnemonic::ADV => ShortValueImmediateOpCode::ADV,
        Mnemonic::MLV => ShortValueImmediateOpCode::MLV,
        _ => unreached(),
    }
}

/// The operation of a single operand instruction that a mnemonic stands for; `None` for a mnemonic of
/// another family.
pub open spec fn spec_single_operand_opcode(mnemo: Mnemonic) -> Option<SingleOperandOpCode> {
    match mnemo {
        Mnemonic::INC => Some(SingleOperandOpCode::INC),
        Mnemonic::DEC => Some(SingleOperandOpCode::DEC),
        Mnemonic::NEG => Some(SingleOperandOpCode::NEG),
        Mnemonic::CPL => Some(SingleOperandOpCode::CPL),
        Mnemonic::CL => Some(SingleOperandOpCode::CL),
        Mnemonic::CLH => Some(SingleOperandOpCode::CLH),
        Mnemonic::CMZ => Some(SingleOperandOpCode::CMZ),
        Mnemonic::CMN => Some(SingleOperandOpCode::CMN),
        Mnemonic::CAD => Some(SingleOperandOpCode::CAD),
        Mnemonic::STS => Some(SingleOperandOpCode::STS),
        Mnemonic::JMP => Some(SingleOperandOpCode::JMP),
        Mnemonic::ENT => Some(SingleOperandOpCode::ENT),
        Mnemonic::LEV => Some(SingleOperandOpCode::LEV),
        Mnemonic::SAVE => Some(SingleOperandOpCode::SAVE),
        Mnemonic::RSTR => Some(SingleOperandOpCode::RSTR),
        Mnemonic::LB => Some(SingleOperandOpCode::LB),
        Mnemonic::LBF => Some(SingleOperandOpCode::LBF),
        Mnemonic::LBT => Some(SingleOperandOpCode::LBT),
        Mnemonic::LBC => Some(SingleOperandOpCode::LBC),
        Mnemonic::LBS => Some(SingleOperandOpCode::LBS),
        Mnemonic::AID => Some(SingleOperandOpCode::AID),
        Mnemonic::LDI => Some(SingleOperandOpCode::LDI),
        Mnemonic::SDI => Some(SingleOperandOpCode::SDI),
        Mnemonic::SID => Some(SingleOperandOpCode::SID),
        _ => None,
    }
}

/// The operation of a single operand instruction.
pub fn match_single_operand_opcode(mnemo: &Mnemonic) -> (op: SingleOperandOpCode)
    requires
        spec_single_operand_opcode(*mnemo) is Some,
    ensures
        Some(op) == spec_single_operand_opcode(*mnemo),
{
    match mnemo {
        Mnemonic::INC => SingleOperandOpCode::INC,
        Mnemonic::DEC => SingleOperandOpCode::DEC,
        Mnemonic::NEG => SingleOperandOpCode::NEG,
        Mnemonic::CPL => SingleOperandOpCode::CPL,
        Mnemonic::CL => SingleOperandOpCode::CL,
        Mnemonic::CLH => SingleOperandOpCode::CLH,
        Mnemonic::CMZ => SingleOperandOpCode::CMZ,
        Mnemonic::CMN => SingleOperandOpCode::CMN,
        Mnemonic::CAD => SingleOperandOpCode::CAD,
        Mnemonic::STS => SingleOperandOpCode::STS,
        Mnemonic::JMP => SingleOperandOpCode::JMP,
        Mnemonic::ENT => SingleOperandOpCode::ENT,
        Mnemonic::LEV => SingleOperandOpCode::LEV,
        Mnemonic::SAVE => SingleOperandOpCode::SAVE,
        Mnemonic::RSTR => SingleOperandOpCode::RSTR,
        Mnemonic::LB => SingleOperandOpCode::LB,
        Mnemonic::LBF => SingleOperandOpCode::LBF,
        Mnemonic::LBT => SingleOperandOpCode::LBT,
        Mnemonic::LBC => SingleOperandOpCode::LBC,
        Mnemonic::LBS => SingleOperandOpCode::LBS,
        Mnemonic::AID => SingleOperandOpCode::AID,
        Mnemonic::LDI => SingleOperandOpCode::LDI,
        Mnemonic::SDI => SingleOperandOpCode::SDI,
        Mnemonic::SID => SingleOperandOpCode::SID,
        _ => unreached(),
    }
}

/// The operation of a generic instruction that a mnemonic stands for; `None` for a mnemonic of
/// another family.
pub open spec fn spec_generic_opcode(mnemo: Mnemonic) -> Option<GenericOpCode> {
    match mnemo {
        Mnemonic::HLT => Some(GenericOpCode::HLT),
        Mnemonic::MCL => Some(GenericOpCode::MCL),
        Mnemonic::RTT => Some(GenericOpCode::RTT),
        Mnemonic::RTCN => Some(GenericOpCode::RTCN),
        Mnemonic::RTCF => Some(GenericOpCode::RTCF),
        Mnemonic::WDTN => Some(GenericOpCode::WDTN),
        Mnemonic::WDTF => Some(GenericOpCode::WDTF),
        Mnemonic::BRK => Some(GenericOpCode::BRK),
        Mnemonic::MMM => Some(GenericOpCode::MMM),
        Mnemonic::ASD => Some(GenericOpCode::ASD),
        Mnemonic::VLD => Some(GenericOpCode::VLD),
        Mnemonic::QOH => Some(GenericOpCode::QOH),
        Mnemonic::QOT => Some(GenericOpCode::QOT),
        Mnemonic::DQH => Some(GenericOpCode::DQH),
        Mnemonic::DQA => Some(GenericOpCode::DQA),
        Mnemonic::RSC => Some(GenericOpCode::RSC),
        _ => None,
    }
}

/// The operation of a generic instruction.
pub fn match_generic_opcode(mnemo: &Mnemonic) -> (op: GenericOpCode)
    requires
        spec_generic_opcode(*mnemo) is Some,
    ensures
        Some(op) == spec_generic_opcode(*mnemo),
{
    match mnemo {
        Mnemonic::HLT => GenericOpCode::HLT,
        Mnemonic::MCL => GenericOpCode::MCL,
        Mnemonic::RTT => GenericOpCode::RTT,
        Mnemonic::RTCN => GenericOpCode::RTCN,
        Mnemonic::RTCF => GenericOpCode::RTCF,
        Mnemonic::WDTN => GenericOpCode::WDTN,
        Mnemonic::WDTF => GenericOpCode::WDTF,
        Mnemonic::BRK => GenericOpCode::BRK,
        Mnemonic::MMM => GenericOpCode::MMM,
        Mnemonic::ASD => GenericOpCode::ASD,
        Mnemonic::VLD => GenericOpCode::VLD,
        Mnemonic::QOH => GenericOpCode::QOH,
        Mnemonic::QOT => GenericOpCode::QOT,
        Mnemonic::DQH => GenericOpCode::DQH,
        Mnemonic::DQA => GenericOpCode::DQA,
        Mnemonic::RSC => GenericOpCode::RSC,
        _ => unreached(),
    }
}

/// The operation of a double operand instruction that a mnemonic stands for; `None` for a mnemonic of
/// another family.
pub open spec fn spec_double_operand_opcode(mnemo: Mnemonic) -> Option<DoubleOperandOpCode> {
    match mnemo {
        Mnemonic::LDR => Some(DoubleOperandOpCode::LDR),
        Mnemonic::STR => Some(DoubleOperandOpCode::STR),
        Mnemonic::SRM => Some(DoubleOperandOpCode::SRM),
        Mnemonic::SWR => Some(DoubleOperandOpCode::SWR),
        Mnemonic::CMR => Some(DoubleOperandOpCode::CMR),
        Mnemonic::ADD => Some(DoubleOperandOpCode::ADD),
        Mnemonic::SUB => Some(DoubleOperandOpCode::SUB),
        Mnemonic::MUL => Some(DoubleOperandOpCode::MUL),
        Mnemonic::DIV => Some(DoubleOperandOpCode::DIV),
        Mnemonic::OR => Some(DoubleOperandOpCode::OR),
        Mnemonic::XOR => Some(DoubleOperandOpCode::XOR),
        Mnemonic::AND => Some(DoubleOperandOpCode::AND),
        Mnemonic::LDH => Some(DoubleOperandOpCode::LDH),
        Mnemonic::STH => Some(DoubleOperandOpCode::STH),
        Mnemonic::CMH => Some(DoubleOperandOpCode::CMH),
        Mnemonic::ORH => Some(DoubleOperandOpCode::ORH),
        Mnemonic::XOH => Some(DoubleOperandOpCode::XOH),
        Mnemonic::ANH => Some(DoubleOperandOpCode::ANH),
        Mnemonic::LLH => Some(DoubleOperandOpCode::LLH),
        Mnemonic::MTM => Some(DoubleOperandOpCode::MTM),
        Mnemonic::STM => Some(DoubleOperandOpCode::STM),
        Mnemonic::LDB => Some(DoubleOperandOpCode::LDB),
        Mnemonic::STB => Some(DoubleOperandOpCode::STB),
        Mnemonic::CMB => Some(DoubleOperandOpCode::CMB),
        Mnemonic::SWB => Some(DoubleOperandOpCode::SWB),
        Mnemonic::LAB => Some(DoubleOperandOpCode::LAB),
        Mnemonic::LNJ => Some(DoubleOperandOpCode::LNJ),
        _ => None,
    }
}

/// The operation of a double operand instruction.
pub fn match_double_operand_opcode(mnemo: &Mnemonic) -> (op: DoubleOperandOpCode)
    requires
        spec_double_operand_opcode(*mnemo) is Some,
    ensures
        Some(op) == spec_double_operand_opcode(*mnemo),
{
    match mnemo {
        Mnemonic::LDR => DoubleOperandOpCode::LDR,
        Mnemonic::STR => DoubleOperandOpCode::STR,
        Mnemonic::SRM => DoubleOperandOpCode::SRM,
        Mnemonic::SWR => DoubleOperandOpCode::SWR,
        Mnemonic::CMR => DoubleOperandOpCode::CMR,
        Mnemonic::ADD => DoubleOperandOpCode::ADD,
        Mnemonic::SUB => DoubleOperandOpCode::SUB,
        Mnemonic::MUL => DoubleOperandOpCode::MUL,
        Mnemonic::DIV => DoubleOperandOpCode::DIV,
        Mnemonic::OR => DoubleOperandOpCode::OR,
        Mnemonic::XOR => DoubleOperandOpCode::XOR,
        Mnemonic::AND => DoubleOperandOpCode::AND,
        Mnemonic::LDH => DoubleOperandOpCode::LDH,
        Mnemonic::STH => DoubleOperandOpCode::STH,
        Mnemonic::CMH => DoubleOperandOpCode::CMH,
        Mnemonic::ORH => DoubleOperandOpCode::ORH,
        Mnemonic::XOH => DoubleOperandOpCode::XOH,
        Mnemonic::ANH => DoubleOperandOpCode::ANH,
        Mnemonic::LLH => DoubleOperandOpCode::LLH,
        Mnemonic::MTM => DoubleOperandOpCode::MTM,
        Mnemonic::STM => DoubleOperandOpCode::STM,
        Mnemonic::LDB => DoubleOperandOpCode::LDB,
        Mnemonic::STB => DoubleOperandOpCode::STB,
        Mnemonic::CMB => DoubleOperandOpCode::CMB,
        Mnemonic::SWB => DoubleOperandOpCode::SWB,
        Mnemonic::LAB => DoubleOperandOpCode::LAB,
        Mnemonic::LNJ => DoubleOperandOpCode::LNJ,
        _ => unreached(),
    }
}

/// The operation of a short shift that a mnemonic stands for; `None` for a mnemonic of
/// another family.
pub open spec fn spec_shift_short_opcode(mnemo: Mnemonic) -> Option<ShiftShortOpCode> {
    match mnemo {
        Mnemonic::SOL => Some(ShiftShortOpCode::SOL),
        Mnemonic::SCL => Some(ShiftShortOpCode::SCL),
        Mnemonic::SAL => Some(ShiftShortOpCode::SAL),
        Mnemonic::DCL => Some(ShiftShortOpCode::DCL),
        Mnemonic::SOR => Some(ShiftShortOpCode::SOR),
        Mnemonic::SCR => Some(ShiftShortOpCode::SCR),
        Mnemonic::SAR => Some(ShiftShortOpCode::SAR),
        Mnemonic::DCR => Some(ShiftShortOpCode::DCR),
        _ => None,
    }
}

/// The operation of a short shift.
pub fn match_shift_short_opcode(mnemo: &Mnemonic) -> (op: ShiftShortOpCode)
    requires
        spec_shift_short_opcode(*mnemo) is Some,
    ensures
        Some(op) == spec_shift_short_opcode(*mnemo),
{
    match mnemo {
        Mnemonic::SOL => ShiftShortOpCode::SOL,
        Mnemonic::SCL => ShiftShortOpCode::SCL,
        Mnemonic::SAL => ShiftShortOpCode::SAL,
        Mnemonic::DCL => ShiftShortOpCode::DCL,
        Mnemonic::SOR => ShiftShortOpCode::SOR,
        Mnemonic::SCR => ShiftShortOpCode::SCR,
        Mnemonic::SAR => ShiftShortOpCode::SAR,
        Mnemonic::DCR => ShiftShortOpCode::DCR,
        _ => unreached(),
    }
}

/// The operation of a long shift that a mnemonic stands for; `None` for a mnemonic of
/// another family.
pub open spec fn spec_shift_long_opcode(mnemo: Mnemonic) -> Option<ShiftLongOpCode> {
    match mnemo {
        Mnemonic::DOL => Some(ShiftLongOpCode::DOL),
        Mnemonic::DAL => Some(ShiftLongOpCode::DAL),
        Mnemonic::DOR => Some(ShiftLongOpCode::DOR),
        Mnemonic::DAR => Some(ShiftLongOpCode::DAR),
        _ => None,
    }
}

/// The operation of a long shift.
pub fn match_shift_long_opcode(mnemo: &Mnemonic) -> (op: ShiftLongOpCode)
    requires
        spec_shift_long_opcode(*mnemo) is Some,
    ensures
        Some(op) == spec_shift_long_opcode(*mnemo),
{
    match mnemo {
        Mnemonic::DOL => ShiftLongOpCode::DOL,
        Mnemonic::DAL => ShiftLongOpCode::DAL,
        Mnemonic::DOR => ShiftLongOpCode::DOR,
        Mnemonic::DAR => ShiftLongOpCode::DAR,
        _ => unreached(),
    }
}

} // verus!
