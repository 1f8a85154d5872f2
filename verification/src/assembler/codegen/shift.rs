use vstd::prelude::*;
use crate::assembler::errors::{AssemblerErrorKind, AssemblerErrorKindView};
use crate::assembler::codegen::common::{
    get_data_register_value, spec_data_register_value, words_result_view,
};
use crate::assembler::codegen::fields::{u4_new, u5_new};
use crate::assembler::errors::error_view;
use crate::assembler::statements::{DataRegister, ShiftLongOpCode, ShiftShortOpCode};

verus! {

/// The 4-bit operation code of each short shift.
pub open spec fn spec_shift_short_op_value(op: ShiftShortOpCode) -> int {
    match op {
        ShiftShortOpCode::SOL => 0b0000,
        ShiftShortOpCode::SCL => 0b0001,
        ShiftShortOpCode::SAL => 0b0100,
        ShiftShortOpCode::DCL => 0b0011,
        ShiftShortOpCode::SOR => 0b0100,
        ShiftShortOpCode::SCR => 0b0101,
        ShiftShortOpCode::SAR => 0b0110,
        ShiftShortOpCode::DCR => 0b0111,
    }
}

/// The operation code of a short shift.
pub fn get_shift_short_op_value(op: &ShiftShortOpCode) -> (code: u8)
    ensures
        code == spec_shift_short_op_value(*op),
        code < 16,
{
    match op {
        ShiftShortOpCode::SOL => 0b0000,
        ShiftShortOpCode::SCL => 0b0001,
        ShiftShortOpCode::SAL => 0b0100,
        ShiftShortOpCode::DCL => 0b0011,
        ShiftShortOpCode::SOR => 0b0100,
        ShiftShortOpCode::SCR => 0b0101,
        ShiftShortOpCode::SAR => 0b0110,
        ShiftShortOpCode::DCR => 0b0111,
    }
}
/// The 3-bit operation code of each long shift.
pub open spec fn spec_shift_long_op_value(op: ShiftLongOpCode) -> int {
    match op {
        ShiftLongOpCode::DOL => 0b100,
        ShiftLongOpCode::DAL => 0b101,
        ShiftLongOpCode::DOR => 0b110,
        ShiftLongOpCode::DAR => 0b111,
    }
}

/// The operation code of a long shift.
pub fn get_shift_long_op_value(op: &ShiftLongOpCode) -> (code: u8)
    ensures
        code == spec_shift_long_op_value(*op),
        code < 8,
{
    match op {
        ShiftLongOpCode::DOL => 0b100,
        ShiftLongOpCode::DAL => 0b101,
        ShiftLongOpCode::DOR => 0b110,
        ShiftLongOpCode::DAR => 0b111,
    }
}
/// The distance field of a shift: the distance itself, which must be below
/// `limit`, the number of values the field holds.
pub open spec fn spec_shift_dist_field(dist: u64, limit: int) -> Result<
    u8,
    AssemblerErrorKindView,
> {
    if dist < limit {
        Ok(dist as u8)
    } else {
        Err(AssemblerErrorKindView::ShiftDistanceOutOfRange(dist))
    }
}

/// The word of a short shift: a zero header bit, the register in 3 bits, four
/// zero bits, the operation in 4 bits, the distance in 4 bits.
pub open spec fn spec_codegen_shift_short(
    op: ShiftShortOpCode,
    reg: DataRegister,
    dist: u64,
) -> Result<Seq<u16>, AssemblerErrorKindView> {
    match spec_shift_dist_field(dist, 16) {
        Err(e) => Err(e),
        Ok(field) => Ok(
            seq![
                (spec_data_register_value(reg) * 0x1000 + spec_shift_short_op_value(op) * 0x10
                    + field) as u16,
            ],
        ),
    }
}

/// The word of a long shift: a zero header bit, the register in 3 bits, four
/// zero bits, the operation in 3 bits, the distance in 5 bits.
pub open spec fn spec_codegen_shift_long(
    op: ShiftLongOpCode,
    reg: DataRegister,
    dist: u64,
) -> Result<Seq<u16>, AssemblerErrorKindView> {
    match spec_shift_dist_field(dist, 32) {
        Err(e) => Err(e),
        Ok(field) => Ok(
            seq![
                (spec_data_register_value(reg) * 0x1000 + spec_shift_long_op_value(op) * 0x20
                    + field) as u16,
            ],
        ),
    }
}

/// The distance field of a short shift: up to 15.
pub fn get_shift_short_dist_field(dist: u64) -> (field: Result<u8, AssemblerErrorKind>)
    ensures
        error_view(field) == spec_shift_dist_field(dist, 16),
{
    // Distance into u8
    if dist > 0xFF {
        return Err(AssemblerErrorKind::ShiftDistanceOutOfRange(dist));
    }
    // Distance into 4 bits
    match u4_new(dist as u8) {
        Some(res) => Ok(res),
        None => Err(AssemblerErrorKind::ShiftDistanceOutOfRange(dist)),
    }
}

/// The distance field of a long shift: up to 31.
pub fn get_shift_long_dist_field(dist: u64) -> (field: Result<u8, AssemblerErrorKind>)
    ensures
        error_view(field) == spec_shift_dist_field(dist, 32),
{
    // Distance into u8
    if dist > 0xFF {
        return Err(AssemblerErrorKind::ShiftDistanceOutOfRange(dist));
    }
    // Distance into 5 bits
    match u5_new(dist as u8) {
        Some(res) => Ok(res),
        None => Err(AssemblerErrorKind::ShiftDistanceOutOfRange(dist)),
    }
}

/// Generate code for a Shift Short instruction
pub fn codegen_shift_short(op: &ShiftShortOpCode, reg: &DataRegister, dist: u64) -> (words: Result<
    Vec<u16>,
    AssemblerErrorKind,
>)
    ensures
        words_result_view(words) == spec_codegen_shift_short(*op, *reg, dist),
{
    let field = match get_shift_short_dist_field(dist) {
        Ok(field) => field,
        Err(e) => {
            return Err(e);
        },
    };
    let inst_word: u16 = get_data_register_value(reg) as u16 * 0x1000 + get_shift_short_op_value(
        op,
    ) as u16 * 0x10 + field as u16;
    let result = vec![inst_word];
    assert(result@ =~= seq![inst_word]);
    Ok(result)
}

/// Generate code for a Shift Long instruction
pub fn codegen_shift_long(op: &ShiftLongOpCode, reg: &DataRegister, dist: u64) -> (words: Result<
    Vec<u16>,
    AssemblerErrorKind,
>)
    ensures
        words_result_view(words) == spec_codegen_shift_long(*op, *reg, dist),
{
    let field = match get_shift_long_dist_field(dist) {
        Ok(field) => field,
        Err(e) => {
            return Err(e);
        },
    };
    let inst_word: u16 = get_data_register_value(reg) as u16 * 0x1000 + get_shift_long_op_value(
        op,
    ) as u16 * 0x20 + field as u16;
    let result = vec![inst_word];
    assert(result@ =~= seq![inst_word]);
    Ok(result)
}

} // verus!
