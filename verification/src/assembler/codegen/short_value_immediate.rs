use vstd::prelude::*;
use crate::assembler::errors::{AssemblerErrorKind, AssemblerErrorKindView};
use crate::assembler::codegen::common::{
    get_data_register_value, pack_field_value, spec_data_register_value, spec_pack_field,
    words_result_view,
};
use crate::assembler::errors::error_view;
use crate::assembler::statements::{DataRegister, ShortValueImmediateOpCode};

verus! {

/// The 4-bit operation code of each short value immediate instruction.
pub open spec fn spec_short_value_immediate_op_value(op: ShortValueImmediateOpCode) -> int {
    match op {
        ShortValueImmediateOpCode::LDV => 0b1100,
        ShortValueImmediateOpCode::CMV => 0b1101,
        ShortValueImmediateOpCode::ADV => 0b1110,
        ShortValueImmediateOpCode::MLV => 0b1111,
    }
}

/// The operation code of a short value immediate instruction.
pub fn get_short_value_immediate_op_value(op: &ShortValueImmediateOpCode) -> (code: u8)
    ensures
        code == spec_short_value_immediate_op_value(*op),
        code < 16,
{
    match op {
        ShortValueImmediateOpCode::LDV => 0b1100,
        ShortValueImmediateOpCode::CMV => 0b1101,
        ShortValueImmediateOpCode::ADV => 0b1110,
        ShortValueImmediateOpCode::MLV => 0b1111,
    }
}
/// The 8-bit value field: the value itself from 0 to 255, the two's complement
/// of a negative value down to -128.
pub open spec fn spec_short_immediate_value_field(val: i128) -> Result<
    u8,
    AssemblerErrorKindView,
> {
    match spec_pack_field(val, 0x100) {
        Some(bits) => Ok(bits as u8),
        None => Err(AssemblerErrorKindView::ShortImmediateValueOutOfRange(val)),
    }
}

/// The word of a short value immediate instruction: a zero header bit, the
/// register in 3 bits, the operation in 4 bits, the value in 8 bits.
pub open spec fn spec_codegen_short_value_immediate(
    op: ShortValueImmediateOpCode,
    reg: DataRegister,
    val: i128,
) -> Result<Seq<u16>, AssemblerErrorKindView> {
    match spec_short_immediate_value_field(val) {
        Err(e) => Err(e),
        Ok(field) => Ok(
            seq![
                (spec_data_register_value(reg) * 0x1000 + spec_short_value_immediate_op_value(op)
                    * 0x100 + field) as u16,
            ],
        ),
    }
}

/// The value field of a short value immediate instruction.
pub fn get_short_immediate_value_field(val: i128) -> (field: Result<u8, AssemblerErrorKind>)
    ensures
        error_view(field) == spec_short_immediate_value_field(val),
{
    match pack_field_value(val, 0x100) {
        Some(bits) => Ok(bits as u8),
        None => Err(AssemblerErrorKind::ShortImmediateValueOutOfRange(val)),
    }
}

/// Generate code for a Short Value Immediate instruction
pub fn codegen_short_value_immediate(
    op: &ShortValueImmediateOpCode,
    reg: &DataRegister,
    val: i128,
) -> (words: Result<Vec<u16>, AssemblerErrorKind>)
    ensures
        words_result_view(words) == spec_codegen_short_value_immediate(*op, *reg, val),
{
    let field = match get_short_immediate_value_field(val) {
        Ok(field) => field,
        Err(e) => {
            return Err(e);
        },
    };
    let inst_word: u16 = get_data_register_value(reg) as u16 * 0x1000
        + get_short_value_immediate_op_value(op) as u16 * 0x100 + field as u16;
    let result = vec![inst_word];
    assert(result@ =~= seq![inst_word]);
    Ok(result)
}

} // verus!
