use vstd::prelude::*;
use crate::assembler::errors::{AssemblerErrorKind, AssemblerErrorKindView};
use crate::assembler::codegen::common::{
    get_branch_location_field_value, spec_branch_location_field, spec_twos_complement,
    words_result_view,
};
use crate::assembler::labels::LabelTable;
use crate::assembler::statements::{BranchLocation, BranchLocationView, BranchOnIndicatorsOpCode};

verus! {

/// The 5-bit operation code of each branch on indicators.
pub open spec fn spec_branch_on_indicators_op_value(op: BranchOnIndicatorsOpCode) -> int {
    match op {
        BranchOnIndicatorsOpCode::BL => 0b00100,
        BranchOnIndicatorsOpCode::BGE => 0b00101,
        BranchOnIndicatorsOpCode::BG => 0b00110,
        BranchOnIndicatorsOpCode::BLE => 0b00111,
        BranchOnIndicatorsOpCode::BOV => 0b01000,
        BranchOnIndicatorsOpCode::BNOV => 0b01001,
        BranchOnIndicatorsOpCode::BBT => 0b01010,
        BranchOnIndicatorsOpCode::BBF => 0b01011,
        BranchOnIndicatorsOpCode::BCT => 0b01100,
        BranchOnIndicatorsOpCode::BCF => 0b01101,
        BranchOnIndicatorsOpCode::BIOT => 0b01110,
        BranchOnIndicatorsOpCode::BIOF => 0b01111,
        BranchOnIndicatorsOpCode::BAL => 0b10000,
        BranchOnIndicatorsOpCode::BAGE => 0b10001,
        BranchOnIndicatorsOpCode::BE => 0b10010,
        BranchOnIndicatorsOpCode::BNE => 0b10011,
        BranchOnIndicatorsOpCode::BAG => 0b10100,
        BranchOnIndicatorsOpCode::BALE => 0b10101,
        BranchOnIndicatorsOpCode::BSU => 0b10110,
        BranchOnIndicatorsOpCode::BSE => 0b10111,
        BranchOnIndicatorsOpCode::NOP => 0b11110,
        BranchOnIndicatorsOpCode::B => 0b11111,
    }
}

/// The operation code of a branch on indicators.
pub fn get_branch_on_indicators_op_value(op: &BranchOnIndicatorsOpCode) -> (code: u8)
    ensures
        code == spec_branch_on_indicators_op_value(*op),
        code < 32,
{
    match op {
        BranchOnIndicatorsOpCode::BL => 0b00100,
        BranchOnIndicatorsOpCode::BGE => 0b00101,
        BranchOnIndicatorsOpCode::BG => 0b00110,
        BranchOnIndicatorsOpCode::BLE => 0b00111,
        BranchOnIndicatorsOpCode::BOV => 0b01000,
        BranchOnIndicatorsOpCode::BNOV => 0b01001,
        BranchOnIndicatorsOpCode::BBT => 0b01010,
        BranchOnIndicatorsOpCode::BBF => 0b01011,
        BranchOnIndicatorsOpCode::BCT => 0b01100,
        BranchOnIndicatorsOpCode::BCF => 0b01101,
        BranchOnIndicatorsOpCode::BIOT => 0b01110,
        BranchOnIndicatorsOpCode::BIOF => 0b01111,
        BranchOnIndicatorsOpCode::BAL => 0b10000,
        BranchOnIndicatorsOpCode::BAGE => 0b10001,
        BranchOnIndicatorsOpCode::BE => 0b10010,
        BranchOnIndicatorsOpCode::BNE => 0b10011,
        BranchOnIndicatorsOpCode::BAG => 0b10100,
        BranchOnIndicatorsOpCode::BALE => 0b10101,
        BranchOnIndicatorsOpCode::BSU => 0b10110,
        BranchOnIndicatorsOpCode::BSE => 0b10111,
        BranchOnIndicatorsOpCode::NOP => 0b11110,
        BranchOnIndicatorsOpCode::B => 0b11111,
    }
}
/// The instruction word of a branch on indicators: a zero header of 4 bits, the
/// operation in 5 bits, the branch field in 7 bits.
pub open spec fn spec_branch_on_indicators_word(op: BranchOnIndicatorsOpCode, field: i8) -> int {
    spec_branch_on_indicators_op_value(op) * 0x80 + spec_twos_complement(field as int, 0x80)
}

/// The words of a branch on indicators: the instruction word, then the word of
/// the branch location, if it has one.
pub open spec fn spec_codegen_branch_on_indicators(
    op: BranchOnIndicatorsOpCode,
    branchloc: BranchLocationView,
    cur_addr: u64,
    labels: Map<Seq<char>, u64>,
) -> Result<Seq<u16>, AssemblerErrorKindView> {
    match spec_branch_location_field(branchloc, cur_addr, labels) {
        Err(e) => Err(e),
        Ok((field, extra_words)) => Ok(
            seq![spec_branch_on_indicators_word(op, field) as u16] + extra_words,
        ),
    }
}

/// The 7-bit pattern of a branch field.
pub fn branch_field_bits(field: i8) -> (bits: u16)
    requires
        -64 <= field <= 63,
    ensures
        bits == spec_twos_complement(field as int, 0x80),
        bits < 0x80,
{
    if field >= 0 {
        field as u16
    } else {
        (field as i16 + 0x80) as u16
    }
}

/// Generate code for a Branch on Indicators instruction
pub fn codegen_branch_on_indicators(
    op: &BranchOnIndicatorsOpCode,
    branchloc: &BranchLocation,
    cur_addr: u64,
    label_table: &LabelTable,
) -> (words: Result<Vec<u16>, AssemblerErrorKind>)
    ensures
        words_result_view(words) == spec_codegen_branch_on_indicators(
            *op,
            branchloc@,
            cur_addr,
            label_table@,
        ),
{
    let (branchloc_field, mut extra_words) = match get_branch_location_field_value(
        branchloc,
        cur_addr,
        label_table,
    ) {
        Ok(res) => res,
        Err(e) => {
            return Err(e);
        },
    };
    let inst_word: u16 = get_branch_on_indicators_op_value(op) as u16 * 0x80 + branch_field_bits(
        branchloc_field,
    );
    let ghost extra = extra_words@;
    let mut result = vec![inst_word];
    result.append(&mut extra_words);
    assert(result@ =~= seq![inst_word] + extra);
    Ok(result)
}

} // verus!
