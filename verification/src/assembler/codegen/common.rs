use vstd::prelude::*;
use crate::assembler::codegen::fields::i7_new;
use crate::assembler::errors::{error_view, AssemblerErrorKind, AssemblerErrorKindView};
use crate::assembler::labels::LabelTable;
use crate::assembler::statements::{
    AddressExpression, AddressExpressionView, BaseRegister, BranchLocation, BranchLocationView,
    DataRegister, ModeControlRegister, Register,
};

verus! {

/// Two's-complement bit pattern of `v` in a field that holds `modulus` patterns:
/// a value that is not negative stands for itself, a negative one for
/// `v + modulus`.
pub open spec fn spec_twos_complement(v: int, modulus: int) -> int {
    if v >= 0 {
        v
    } else {
        v + modulus
    }
}

/// The signed value that a two's-complement bit pattern stands for.
pub open spec fn spec_from_twos_complement(pattern: int, modulus: int) -> int {
    if 2 * pattern >= modulus {
        pattern - modulus
    } else {
        pattern
    }
}

/// Whether `v` is a signed value of the field: `-modulus/2 <= v < modulus/2`.
pub open spec fn spec_fits_signed(v: int, modulus: int) -> bool {
    -modulus <= 2 * v < modulus
}

/// Whether `v` can be written into the field either as an unsigned value or as
/// a signed one: `-modulus/2 <= v < modulus`.
pub open spec fn spec_fits_field(v: int, modulus: int) -> bool {
    -modulus <= 2 * v && v < modulus
}

/// Packing a signed value into a field and reading the field back as a signed
/// value gives the value again, for every width and every value of the field's
/// signed range.
pub proof fn lemma_twos_complement_round_trip(v: int, modulus: int)
    requires
        modulus > 0,
        modulus % 2 == 0,
        spec_fits_signed(v, modulus),
    ensures
        0 <= spec_twos_complement(v, modulus) < modulus,
        spec_from_twos_complement(spec_twos_complement(v, modulus), modulus) == v,
{
}

/// Reading a 16-bit pattern as a signed value and packing it again gives the
/// pattern, and the signed value lies in the 16-bit signed range.
pub proof fn lemma_twos_complement_u16_inverse(word: u16)
    ensures
        spec_fits_signed(spec_from_twos_complement(word as int, 0x1_0000), 0x1_0000),
        spec_twos_complement(spec_from_twos_complement(word as int, 0x1_0000), 0x1_0000) == word,
{
}

/// Returns u16 containing a two's complement encoded relative number
pub fn twos_complement_u16(input: i16) -> (word: u16)
    ensures
        word as int == spec_twos_complement(input as int, 0x1_0000),
{
    if input >= 0 {
        input as u16
    } else {
        (input as i32 + 0x1_0000) as u16
    }
}

/// Returns u8 containing a two's complement encoded relative number
pub fn twos_complement_u8(input: i8) -> (byte: u8)
    ensures
        byte as int == spec_twos_complement(input as int, 0x100),
{
    if input >= 0 {
        input as u8
    } else {
        (input as i16 + 0x100) as u8
    }
}

/// Reads a word as the signed value whose two's-complement pattern it is.
pub fn from_twos_complement_u16(word: u16) -> (value: i16)
    ensures
        value as int == spec_from_twos_complement(word as int, 0x1_0000),
{
    if word >= 0x8000 {
        (word as i32 - 0x1_0000) as i16
    } else {
        word as i16
    }
}

/// Code of a data register in a 3-bit register field.
pub open spec fn spec_data_register_value(reg: DataRegister) -> int {
    match reg {
        DataRegister::R1 => 1,
        DataRegister::R2 => 2,
        DataRegister::R3 => 3,
        DataRegister::R4 => 4,
        DataRegister::R5 => 5,
        DataRegister::R6 => 6,
        DataRegister::R7 => 7,
    }
}

/// Code of a base register in a 3-bit register field.
pub open spec fn spec_base_register_value(reg: BaseRegister) -> int {
    match reg {
        BaseRegister::B1 => 1,
        BaseRegister::B2 => 2,
        BaseRegister::B3 => 3,
        BaseRegister::B4 => 4,
        BaseRegister::B5 => 5,
        BaseRegister::B6 => 6,
        BaseRegister::B7 => 7,
    }
}

/// Code of a mode-control register in a 3-bit register field.
pub open spec fn spec_mode_control_register_value(reg: ModeControlRegister) -> int {
    match reg {
        ModeControlRegister::M1 => 1,
        ModeControlRegister::M2 => 2,
        ModeControlRegister::M3 => 3,
        ModeControlRegister::M4 => 4,
        ModeControlRegister::M5 => 5,
        ModeControlRegister::M6 => 6,
        ModeControlRegister::M7 => 7,
    }
}

/// Code of a register of any family: the number it carries in its name.
pub open spec fn spec_generic_register_value(reg: Register) -> int {
    match reg {
        Register::Data(r) => spec_data_register_value(r),
        Register::Base(r) => spec_base_register_value(r),
        Register::ModeControl(r) => spec_mode_control_register_value(r),
    }
}

/// The code of a data register.
pub fn get_data_register_value(reg: &DataRegister) -> (code: u8)
    ensures
        code == spec_data_register_value(*reg),
        1 <= code <= 7,
{
    match reg {
        DataRegister::R1 => 1,
        DataRegister::R2 => 2,
        DataRegister::R3 => 3,
        DataRegister::R4 => 4,
        DataRegister::R5 => 5,
        DataRegister::R6 => 6,
        DataRegister::R7 => 7,
    }
}

/// The code of a base register.
pub fn get_base_register_value(reg: &BaseRegister) -> (code: u8)
    ensures
        code == spec_base_register_value(*reg),
        1 <= code <= 7,
{
    match reg {
        BaseRegister::B1 => 1,
        BaseRegister::B2 => 2,
        BaseRegister::B3 => 3,
        BaseRegister::B4 => 4,
        BaseRegister::B5 => 5,
        BaseRegister::B6 => 6,
        BaseRegister::B7 => 7,
    }
}

/// The code of a mode-control register.
pub fn get_mode_control_register_value(reg: &ModeControlRegister) -> (code: u8)
    ensures
        code == spec_mode_control_register_value(*reg),
        1 <= code <= 7,
{
    match reg {
        ModeControlRegister::M1 => 1,
        ModeControlRegister::M2 => 2,
        ModeControlRegister::M3 => 3,
        ModeControlRegister::M4 => 4,
        ModeControlRegister::M5 => 5,
        ModeControlRegister::M6 => 6,
        ModeControlRegister::M7 => 7,
    }
}

/// The code of a register of any family.
pub fn get_generic_register_value(reg: &Register) -> (code: u8)
    ensures
        code == spec_generic_register_value(*reg),
        1 <= code <= 7,
{
    match reg {
        Register::Data(r) => get_data_register_value(r),
        Register::Base(r) => get_base_register_value(r),
        Register::ModeControl(r) => get_mode_control_register_value(r),
    }
}

/// The absolute address an expression stands for at `cur_addr`: an immediate
/// address is itself, a displacement is added to the current address and must
/// stay inside the address space, a label is looked up in the table.
pub open spec fn spec_resolve_address_expression(
    addr_exp: AddressExpressionView,
    cur_addr: u64,
    labels: Map<Seq<char>, u64>,
) -> Result<u64, AssemblerErrorKindView> {
    match addr_exp {
        AddressExpressionView::Immediate(addr) => Ok(addr),
        AddressExpressionView::WordDisplacement(disp) => if 0 <= cur_addr + disp <= u64::MAX {
            Ok((cur_addr + disp) as u64)
        } else {
            Err(AssemblerErrorKindView::WordDisplacementOutOfRange(disp))
        },
        AddressExpressionView::Label(name) => if labels.dom().contains(name) {
            Ok(labels[name])
        } else {
            Err(AssemblerErrorKindView::UndefinedLabel(name))
        },
    }
}

/// Resolve address expression to an absolute address in the u64 address space
pub fn resolve_address_expression(
    addr_exp: &AddressExpression,
    cur_addr: u64,
    label_table: &LabelTable,
) -> (resolved: Result<u64, AssemblerErrorKind>)
    ensures
        error_view(resolved) == spec_resolve_address_expression(addr_exp@, cur_addr, label_table@),
{
    match addr_exp {
        AddressExpression::Immediate(addr) => Ok(*addr),
        AddressExpression::WordDisplacement(disp) => {
            match (cur_addr as i128).checked_add(*disp) {
                Some(addr) => {
                    if 0 <= addr && addr <= u64::MAX as i128 {
                        Ok(addr as u64)
                    } else {
                        Err(AssemblerErrorKind::WordDisplacementOutOfRange(*disp))
                    }
                },
                None => Err(AssemblerErrorKind::WordDisplacementOutOfRange(*disp)),
            }
        },
        AddressExpression::Label(label) => {
            match label_table.get(label) {
                Some(addr) => Ok(addr),
                None => Err(AssemblerErrorKind::UndefinedLabel(label.clone())),
            }
        },
    }
}

/// Signed distance in words from the current address to a target.
pub open spec fn spec_displacement(target: u64, cur_addr: u64) -> int {
    target - cur_addr
}

/// The branch field of an instruction and the word that follows it, if any.
///
/// An absolute target has field 0 and the address as extra word; a long
/// displacement has field 1 and the displacement, packed in 16 bits, as extra
/// word; a short displacement is the field itself, which excludes 0 and 1.
pub open spec fn spec_branch_location_field(
    branchloc: BranchLocationView,
    cur_addr: u64,
    labels: Map<Seq<char>, u64>,
) -> Result<(i8, Seq<u16>), AssemblerErrorKindView> {
    match branchloc {
        BranchLocationView::Absolute(addr_exp) => match spec_resolve_address_expression(
            addr_exp,
            cur_addr,
            labels,
        ) {
            Err(e) => Err(e),
            Ok(addr) => if addr <= 0xFFFF {
                Ok((0i8, seq![addr as u16]))
            } else {
                Err(AssemblerErrorKindView::BranchAddressOutOfRange(addr))
            },
        },
        BranchLocationView::LongDisplacement(addr_exp) => match spec_resolve_address_expression(
            addr_exp,
            cur_addr,
            labels,
        ) {
            Err(e) => Err(e),
            Ok(addr) => {
                let disp = spec_displacement(addr, cur_addr);
                if spec_fits_signed(disp, 0x1_0000) {
                    Ok((1i8, seq![spec_twos_complement(disp, 0x1_0000) as u16]))
                } else {
                    Err(AssemblerErrorKindView::BranchLongDisplacementOutOfRange(disp as i128))
                }
            },
        },
        BranchLocationView::ShortDisplacement(addr_exp) => match spec_resolve_address_expression(
            addr_exp,
            cur_addr,
            labels,
        ) {
            Err(e) => Err(e),
            Ok(addr) => {
                let disp = spec_displacement(addr, cur_addr);
                if disp > 63 || disp < -64 {
                    Err(AssemblerErrorKindView::BranchShortDisplacementOutOfRange(disp as i128))
                } else if disp == 0 || disp == 1 {
                    Err(AssemblerErrorKindView::BranchShortDisplacementMustNotBe0Or1)
                } else {
                    Ok((disp as i8, Seq::<u16>::empty()))
                }
            },
        },
    }
}

/// The model of a branch field result: the extra words as a sequence.
pub open spec fn field_result_view<F>(r: Result<(F, Vec<u16>), AssemblerErrorKind>) -> Result<
    (F, Seq<u16>),
    AssemblerErrorKindView,
> {
    match r {
        Ok((field, words)) => Ok((field, words@)),
        Err(e) => Err(e@),
    }
}

/// The model of a code generation result: the words as a sequence.
pub open spec fn words_result_view(r: Result<Vec<u16>, AssemblerErrorKind>) -> Result<
    Seq<u16>,
    AssemblerErrorKindView,
> {
    match r {
        Ok(words) => Ok(words@),
        Err(e) => Err(e@),
    }
}

/// Compute the branch field of a branch location, returning the optional extra words as well
pub fn get_branch_location_field_value(
    branchloc: &BranchLocation,
    cur_addr: u64,
    label_table: &LabelTable,
) -> (field: Result<(i8, Vec<u16>), AssemblerErrorKind>)
    ensures
        field_result_view(field) == spec_branch_location_field(branchloc@, cur_addr, label_table@),
        field is Ok ==> -64 <= field->Ok_0.0 <= 63,
{
    match branchloc {
        BranchLocation::Absolute(addr_exp) => {
            let addr = match resolve_address_expression(addr_exp, cur_addr, label_table) {
                Ok(addr) => addr,
                Err(e) => {
                    return Err(e);
                },
            };
            if addr <= 0xFFFF {
                let words = vec![addr as u16];
                assert(words@ =~= seq![addr as u16]);
                Ok((0, words))
            } else {
                Err(AssemblerErrorKind::BranchAddressOutOfRange(addr))
            }
        },
        BranchLocation::LongDisplacement(addr_exp) => {
            let addr = match resolve_address_expression(addr_exp, cur_addr, label_table) {
                Ok(addr) => addr,
                Err(e) => {
                    return Err(e);
                },
            };
            let displacement: i128 = addr as i128 - cur_addr as i128;
            if displacement < -0x8000 || displacement > 0x7FFF {
                return Err(AssemblerErrorKind::BranchLongDisplacementOutOfRange(displacement));
            }
            let word = twos_complement_u16(displacement as i16);
            let words = vec![word];
            assert(words@ =~= seq![word]);
            Ok((1, words))
        },
        BranchLocation::ShortDisplacement(addr_exp) => {
            let addr = match resolve_address_expression(addr_exp, cur_addr, label_table) {
                Ok(addr) => addr,
                Err(e) => {
                    return Err(e);
                },
            };
            let displacement: i128 = addr as i128 - cur_addr as i128;
            if displacement > 63 || displacement < -64 {
                return Err(AssemblerErrorKind::BranchShortDisplacementOutOfRange(displacement));
            }
            if displacement == 0 || displacement == 1 {
                return Err(AssemblerErrorKind::BranchShortDisplacementMustNotBe0Or1);
            }
            // Fit displacement in 7 bits
            let displacement_i7 = match i7_new(displacement as i8) {
                Some(res) => res,
                None => {
                    return Err(AssemblerErrorKind::BranchLongDisplacementOutOfRange(displacement));
                },
            };
            let words: Vec<u16> = Vec::new();
            Ok((displacement_i7, words))
        },
    }
}

/// A short-displacement branch is encoded exactly when its displacement lies in
/// `-64..=63` and is neither 0 nor 1; the field is then the displacement and no
/// word follows. Displacements 0 and 1 are refused by a kind of their own, any
/// other by the out-of-range kind.
pub proof fn lemma_short_displacement_field(
    addr_exp: AddressExpressionView,
    cur_addr: u64,
    labels: Map<Seq<char>, u64>,
)
    requires
        spec_resolve_address_expression(addr_exp, cur_addr, labels) is Ok,
    ensures
        ({
            let target = spec_resolve_address_expression(addr_exp, cur_addr, labels)->Ok_0;
            let disp = target - cur_addr;
            let field = spec_branch_location_field(
                BranchLocationView::ShortDisplacement(addr_exp),
                cur_addr,
                labels,
            );
            &&& (disp == 0 || disp == 1) ==> field == Err::<(i8, Seq<u16>), _>(
                AssemblerErrorKindView::BranchShortDisplacementMustNotBe0Or1,
            )
            &&& (-64 <= disp <= 63 && disp != 0 && disp != 1) ==> field == Ok::<
                _,
                AssemblerErrorKindView,
            >((disp as i8, Seq::<u16>::empty()))
            &&& (disp < -64 || disp > 63) ==> field == Err::<(i8, Seq<u16>), _>(
                AssemblerErrorKindView::BranchShortDisplacementOutOfRange(disp as i128),
            )
        }),
{
}

/// The trailing mask word of an instruction: the mask itself, which must be
/// an unsigned 16-bit value.
pub open spec fn spec_maskword_value(mask: i128) -> Result<u16, AssemblerErrorKindView> {
    if 0 <= mask <= 0xFFFF {
        Ok(mask as u16)
    } else {
        Err(AssemblerErrorKindView::MaskWordOutOfRange(mask))
    }
}

/// The mask word of an instruction, or the fault of a mask that is no unsigned
/// 16-bit value.
pub fn get_maskword_value(mask: i128) -> (word: Result<u16, AssemblerErrorKind>)
    ensures
        error_view(word) == spec_maskword_value(mask),
{
    if mask < 0 || mask > 0xFFFF {
        return Err(AssemblerErrorKind::MaskWordOutOfRange(mask));
    }
    Ok(mask as u16)
}

/// A value written into a field of `modulus` patterns, as an unsigned value or
/// as the two's complement of a negative one.
pub open spec fn spec_pack_field(v: i128, modulus: int) -> Option<int> {
    if spec_fits_field(v as int, modulus) {
        Some(spec_twos_complement(v as int, modulus))
    } else {
        None
    }
}

/// Writes a value into a field of `modulus` patterns, or reports that it does
/// not fit.
pub fn pack_field_value(v: i128, modulus: u128) -> (bits: Option<u64>)
    requires
        0 < modulus <= 0x1_0000_0000_0000_0000,
        modulus % 2 == 0,
    ensures
        match spec_pack_field(v, modulus as int) {
            Some(expected) => bits == Some(expected as u64) && expected < modulus,
            None => bits.is_none(),
        },
{
    if v >= 0 {
        if (v as u128) < modulus {
            Some(v as u64)
        } else {
            None
        }
    } else {
        let half: i128 = (modulus / 2) as i128;
        if v >= -half {
            Some((v + modulus as i128) as u64)
        } else {
            None
        }
    }
}

} // verus!
