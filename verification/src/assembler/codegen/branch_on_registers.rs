use vstd::prelude::*;
use crate::assembler::errors::{AssemblerErrorKind, AssemblerErrorKindView};
use crate::assembler::codegen::branch_on_indicators::branch_field_bits;
use crate::assembler::codegen::common::{
    get_branch_location_field_value, get_data_register_value, spec_branch_location_field,
    spec_data_register_value, spec_twos_complement, words_result_view,
};
use crate::assembler::labels::LabelTable;
use crate::assembler::statements::{
    BranchLocation, BranchLocationView, BranchOnRegistersOpCode, DataRegister,
};

verus! {

/// The 5-bit operation code of each branch on registers.
pub open spec fn spec_branch_on_registers_op_value(op: BranchOnRegistersOpCode) -> int {
    match op {
        BranchOnRegistersOpCode::BLZ => 0b10000,
        BranchOnRegistersOpCode::BGEZ => 0b10001,
        BranchOnRegistersOpCode::BEZ => 0b10010,
        BranchOnRegistersOpCode::BNEZ => 0b10011,
        BranchOnRegistersOpCode::BGZ => 0b10100,
        BranchOnRegistersOpCode::BLEZ => 0b10101,
        BranchOnRegistersOpCode::BEVN => 0b10110,
        BranchOnRegistersOpCode::BODD => 0b10111,
        BranchOnRegistersOpCode::BDEC => 0b01110,
        BranchOnRegistersOpCode::BINC => 0b01111,
    }
}

/// The operation code of a branch on registers.
pub fn get_branch_on_registers_op_value(op: &BranchOnRegistersOpCode) -> (code: u8)
    ensures
        code == spec_branch_on_registers_op_value(*op),
        code < 32,
{
    match op {
        BranchOnRegistersOpCode::BLZ => 0b10000,
        BranchOnRegistersOpCode::BGEZ => 0b10001,
        BranchOnRegistersOpCode::BEZ => 0b10010,
        BranchOnRegistersOpCode::BNEZ => 0b10011,
        BranchOnRegistersOpCode::BGZ => 0b10100,
        BranchOnRegistersOpCode::BLEZ => 0b10101,
        BranchOnRegistersOpCode::BEVN => 0b10110,
        BranchOnRegistersOpCode::BODD => 0b10111,
        BranchOnRegistersOpCode::BDEC => 0b01110,
        BranchOnRegistersOpCode::BINC => 0b01111,
    }
}
/// The instruction word of a branch on registers: a zero header bit, the
/// register in 3 bits, the operation in 5 bits, the branch field in 7 bits.
pub open spec fn spec_branch_on_registers_word(
    op: BranchOnRegistersOpCode,
    reg: DataRegister,
    field: i8,
) -> int {
    spec_data_register_value(reg) * 0x1000 + spec_branch_on_registers_op_value(op) * 0x80
        + spec_twos_complement(field as int, 0x80)
}

/// The words of a branch on registers: the instruction word, then the word of
/// the branch location, if it has one.
pub open spec fn spec_codegen_branch_on_registers(
    op: BranchOnRegistersOpCode,
    reg: DataRegister,
    branchloc: BranchLocationView,
    cur_addr: u64,
    labels: Map<Seq<char>, u64>,
) -> Result<Seq<u16>, AssemblerErrorKindView> {
    match spec_branch_location_field(branchloc, cur_addr, labels) {
        Err(e) => Err(e),
        Ok((field, extra_words)) => Ok(
            seq![spec_branch_on_registers_word(op, reg, field) as u16] + extra_words,
        ),
    }
}

/// Generate code for a Branch on Registers instruction
pub fn codegen_branch_on_registers(
    op: &BranchOnRegistersOpCode,
    reg: &DataRegister,
    branchloc: &BranchLocation,
    cur_addr: u64,
    label_table: &LabelTable,
) -> (words: Result<Vec<u16>, AssemblerErrorKind>)
    ensures
        words_result_view(words) == spec_codegen_branch_on_registers(
            *op,
            *reg,
            branchloc@,
            cur_addr,
            label_table@,
        ),
{
    let (branchloc_field, mut extra_words) = match get_branch_location_field_value(
        branchloc,
        cur_addr,
        label_table,
    ) {
        Ok(res) => res,
        Err(e) => {
            return Err(e);
        },
    };
    let inst_word: u16 = get_data_register_value(reg) as u16 * 0x1000
        + get_branch_on_registers_op_value(op) as u16 * 0x80 + branch_field_bits(branchloc_field);
    let ghost extra = extra_words@;
    let mut result = vec![inst_word];
    result.append(&mut extra_words);
    assert(result@ =~= seq![inst_word] + extra);
    Ok(result)
}

} // verus!
