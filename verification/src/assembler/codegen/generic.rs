use vstd::prelude::*;
use crate::assembler::errors::{AssemblerErrorKind, AssemblerErrorKindView};
use crate::assembler::codegen::common::words_result_view;
use crate::assembler::statements::GenericOpCode;

verus! {

/// The 8-bit operation code of each generic instruction.
pub open spec fn spec_generic_op_value(op: GenericOpCode) -> int {
    match op {
        GenericOpCode::HLT => 0b00000000,
        GenericOpCode::MCL => 0b00000001,
        GenericOpCode::RTT => 0b00000011,
        GenericOpCode::RTCN => 0b00000100,
        GenericOpCode::RTCF => 0b00000101,
        GenericOpCode::WDTN => 0b00000110,
        GenericOpCode::WDTF => 0b00000111,
        GenericOpCode::BRK => 0b00000010,
        GenericOpCode::MMM => 0b00001000,
        GenericOpCode::ASD => 0b00001010,
        GenericOpCode::VLD => 0b00001011,
        GenericOpCode::QOH => 0b01100000,
        GenericOpCode::QOT => 0b01100001,
        GenericOpCode::DQH => 0b01100010,
        GenericOpCode::DQA => 0b01100011,
        GenericOpCode::RSC => 0b00010001,
    }
}

/// The operation code of a generic instruction.
pub fn get_generic_op_value(op: &GenericOpCode) -> (code: u8)
    ensures
        code == spec_generic_op_value(*op),
        code < 256,
{
    match op {
        GenericOpCode::HLT => 0b00000000,
        GenericOpCode::MCL => 0b00000001,
        GenericOpCode::RTT => 0b00000011,
        GenericOpCode::RTCN => 0b00000100,
        GenericOpCode::RTCF => 0b00000101,
        GenericOpCode::WDTN => 0b00000110,
        GenericOpCode::WDTF => 0b00000111,
        GenericOpCode::BRK => 0b00000010,
        GenericOpCode::MMM => 0b00001000,
        GenericOpCode::ASD => 0b00001010,
        GenericOpCode::VLD => 0b00001011,
        GenericOpCode::QOH => 0b01100000,
        GenericOpCode::QOT => 0b01100001,
        GenericOpCode::DQH => 0b01100010,
        GenericOpCode::DQA => 0b01100011,
        GenericOpCode::RSC => 0b00010001,
    }
}
/// The word of a generic instruction: a zero header byte, then the operation.
pub open spec fn spec_codegen_generic(op: GenericOpCode) -> Result<
    Seq<u16>,
    AssemblerErrorKindView,
> {
    Ok(seq![spec_generic_op_value(op) as u16])
}

/// Generate code for a Generic instruction
pub fn codegen_generic(op: &GenericOpCode) -> (words: Result<Vec<u16>, AssemblerErrorKind>)
    ensures
        words_result_view(words) == spec_codegen_generic(*op),
{
    let inst_word: u16 = get_generic_op_value(op) as u16;
    let result = vec![inst_word];
    assert(result@ =~= seq![inst_word]);
    Ok(result)
}

} // verus!
