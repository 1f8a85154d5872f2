use vstd::prelude::*;
use crate::assembler::errors::{AssemblerErrorKind, AssemblerErrorKindView};
use crate::assembler::codegen::common::{
    field_result_view, get_base_register_value, get_generic_register_value, pack_field_value,
    resolve_address_expression, spec_base_register_value, spec_displacement, spec_fits_signed,
    spec_generic_register_value, spec_pack_field, spec_resolve_address_expression,
    spec_twos_complement, twos_complement_u16,
};
use crate::assembler::errors::error_view;
use crate::assembler::labels::LabelTable;
use crate::assembler::statements::{
    AddressExpression, AddressExpressionView, AddressSyllable, AddressSyllableView,
    BRelativeAddress, BRelativeAddressMode, BaseRegister, DataRegister, ImmediateAddress,
    ImmediateAddressMode, ImmediateAddressModeView, ImmediateAddressView, IncDec,
    PRelativeAddress, PRelativeAddressView,
};

verus! {

/// The 7-bit address syllable: the address modifier in 3 bits, the indirect
/// bit, the register or sub-mode in 3 bits.
pub open spec fn spec_address_syllable_bits(addr_mod: int, ind_addr_bit: int, reg: int) -> int {
    addr_mod * 0x10 + ind_addr_bit * 0x8 + reg
}

/// The address modifier that selects an index register: only R1, R2 and R3 can
/// index.
pub open spec fn spec_index_register_addr_modif(reg: DataRegister) -> Result<
    int,
    AssemblerErrorKindView,
> {
    match reg {
        DataRegister::R1 => Ok(1),
        DataRegister::R2 => Ok(2),
        DataRegister::R3 => Ok(3),
        _ => Err(AssemblerErrorKindView::InvalidIndexRegister(reg)),
    }
}

/// The register field of an increment-or-decrement-and-index syllable: only
/// B1, B2 and B3 can stand there.
pub open spec fn spec_base_register_value_indexed(reg: BaseRegister) -> Result<
    int,
    AssemblerErrorKindView,
> {
    match reg {
        BaseRegister::B1 => Ok(1),
        BaseRegister::B2 => Ok(2),
        BaseRegister::B3 => Ok(3),
        _ => Err(AssemblerErrorKindView::InvalidBaseRegisterAddrSyl(reg)),
    }
}

/// The word after an immediate operand: the value, packed in 16 bits.
pub open spec fn spec_immediate_operand_extra_word(val: i128) -> Result<
    u16,
    AssemblerErrorKindView,
> {
    match spec_pack_field(val, 0x1_0000) {
        Some(bits) => Ok(bits as u16),
        None => Err(AssemblerErrorKindView::ImmediateValueOutOfRange(val)),
    }
}

/// The word after an immediate address: the resolved address, which must fit
/// in 16 bits.
pub open spec fn spec_immediate_address_extra_word(
    ae: AddressExpressionView,
    cur_addr: u64,
    labels: Map<Seq<char>, u64>,
) -> Result<u16, AssemblerErrorKindView> {
    match spec_resolve_address_expression(ae, cur_addr, labels) {
        Err(e) => Err(e),
        Ok(addr) => if addr <= 0xFFFF {
            Ok(addr as u16)
        } else {
            Err(AssemblerErrorKindView::ImmediateAddressOutOfRange(addr))
        },
    }
}

/// The word after a displacement from a base register: the displacement as a
/// signed 16-bit value.
pub open spec fn spec_displacement_extra_word(disp: i128) -> Result<u16, AssemblerErrorKindView> {
    if spec_fits_signed(disp as int, 0x1_0000) {
        Ok(spec_twos_complement(disp as int, 0x1_0000) as u16)
    } else {
        Err(AssemblerErrorKindView::DisplacementOutOfRange(disp))
    }
}

/// The word after a program-counter-relative address: the distance from the
/// current address to the resolved one, as a signed 16-bit value.
pub open spec fn spec_prelative_address_extra_word(
    ae: AddressExpressionView,
    cur_addr: u64,
    labels: Map<Seq<char>, u64>,
) -> Result<u16, AssemblerErrorKindView> {
    match spec_resolve_address_expression(ae, cur_addr, labels) {
        Err(e) => Err(e),
        Ok(addr) => {
            let disp = spec_displacement(addr, cur_addr);
            if spec_fits_signed(disp, 0x1_0000) {
                Ok(spec_twos_complement(disp, 0x1_0000) as u16)
            } else {
                Err(AssemblerErrorKindView::DisplacementOutOfRange(disp as i128))
            }
        },
    }
}

/// Address modifier and extra word of an immediate address: modifier 0 when it
/// is simple, the index register's when it is indexed. The index register is
/// judged before the address.
pub open spec fn spec_immediate_addressing_addr_modif(
    imm_addr: ImmediateAddressView,
    cur_addr: u64,
    labels: Map<Seq<char>, u64>,
) -> Result<(int, Seq<u16>), AssemblerErrorKindView> {
    match imm_addr {
        ImmediateAddressView::Simple(ae) => match spec_immediate_address_extra_word(
            ae,
            cur_addr,
            labels,
        ) {
            Err(e) => Err(e),
            Ok(word) => Ok((0, seq![word])),
        },
        ImmediateAddressView::Indexed(ae, reg) => match spec_index_register_addr_modif(reg) {
            Err(e) => Err(e),
            Ok(addr_mod) => match spec_immediate_address_extra_word(ae, cur_addr, labels) {
                Err(e) => Err(e),
                Ok(word) => Ok((addr_mod, seq![word])),
            },
        },
    }
}

/// Address modifier, register field and extra words of a direct or indirect
/// address relative to a base register.
pub open spec fn spec_brelative_direct_indirect(brel_addr: BRelativeAddress) -> Result<
    (int, int, Seq<u16>),
    AssemblerErrorKindView,
> {
    match brel_addr {
        BRelativeAddress::Simple(reg) => Ok(
            (0, spec_base_register_value(reg), Seq::<u16>::empty()),
        ),
        BRelativeAddress::Indexed(reg, ind_reg) => match spec_index_register_addr_modif(ind_reg) {
            Err(e) => Err(e),
            Ok(addr_mod) => Ok((addr_mod, spec_base_register_value(reg), Seq::<u16>::empty())),
        },
        BRelativeAddress::Displacement(reg, disp) => match spec_displacement_extra_word(disp) {
            Err(e) => Err(e),
            Ok(word) => Ok((4, spec_base_register_value(reg), seq![word])),
        },
    }
}

/// The syllable of an address relative to a base register.
pub open spec fn spec_brelative_addressing(mode: BRelativeAddressMode) -> Result<
    (int, Seq<u16>),
    AssemblerErrorKindView,
> {
    match mode {
        BRelativeAddressMode::Direct(brel_addr) => match spec_brelative_direct_indirect(
            brel_addr,
        ) {
            Err(e) => Err(e),
            Ok((addr_mod, reg, extra)) => Ok((spec_address_syllable_bits(addr_mod, 0, reg), extra)),
        },
        BRelativeAddressMode::Indirect(brel_addr) => match spec_brelative_direct_indirect(
            brel_addr,
        ) {
            Err(e) => Err(e),
            Ok((addr_mod, reg, extra)) => Ok((spec_address_syllable_bits(addr_mod, 1, reg), extra)),
        },
        BRelativeAddressMode::PushPop(reg, incdec) => Ok(
            (
                spec_address_syllable_bits(
                    match incdec {
                        IncDec::Decrement => 6,
                        IncDec::Increment => 7,
                    },
                    0,
                    spec_base_register_value(reg),
                ),
                Seq::<u16>::empty(),
            ),
        ),
        BRelativeAddressMode::IncDecIndexed(reg, ind_reg, incdec) => {
            match spec_index_register_addr_modif(ind_reg) {
                Err(e) => Err(e),
                Ok(addr_mod) => match spec_base_register_value_indexed(reg) {
                    Err(e) => Err(e),
                    Ok(base) => Ok(
                        (
                            spec_address_syllable_bits(
                                addr_mod + 4,
                                1,
                                match incdec {
                                    IncDec::Decrement => base,
                                    IncDec::Increment => base + 4,
                                },
                            ),
                            Seq::<u16>::empty(),
                        ),
                    ),
                },
            }
        },
    }
}

/// The 7-bit field of an address syllable and the words that follow the
/// instruction for it.
///
/// Register addressing is mode 5 with the register's code; an immediate
/// operand is mode 7 with the value as extra word; an immediate address is mode
/// 0, or the index register's mode, with the address as extra word; a
/// program-counter-relative address is mode 4 with the distance as extra word;
/// the forms relative to a base register are told apart by
/// `spec_brelative_addressing`.
pub open spec fn spec_address_syllable_field(
    addr_syl: AddressSyllableView,
    cur_addr: u64,
    labels: Map<Seq<char>, u64>,
) -> Result<(u8, Seq<u16>), AssemblerErrorKindView> {
    match addr_syl {
        AddressSyllableView::RegisterAddressing(reg) => Ok(
            (
                spec_address_syllable_bits(5, 0, spec_generic_register_value(reg)) as u8,
                Seq::<u16>::empty(),
            ),
        ),
        AddressSyllableView::ImmediateOperand(val) => match spec_immediate_operand_extra_word(
            val,
        ) {
            Err(e) => Err(e),
            Ok(word) => Ok((spec_address_syllable_bits(7, 0, 0) as u8, seq![word])),
        },
        AddressSyllableView::ImmediateAddressing(mode) => match mode {
            ImmediateAddressModeView::Direct(imm_addr) => {
                match spec_immediate_addressing_addr_modif(imm_addr, cur_addr, labels) {
                    Err(e) => Err(e),
                    Ok((addr_mod, extra)) => Ok(
                        (spec_address_syllable_bits(addr_mod, 0, 0) as u8, extra),
                    ),
                }
            },
            ImmediateAddressModeView::Indirect(imm_addr) => {
                match spec_immediate_addressing_addr_modif(imm_addr, cur_addr, labels) {
                    Err(e) => Err(e),
                    Ok((addr_mod, extra)) => Ok(
                        (spec_address_syllable_bits(addr_mod, 1, 0) as u8, extra),
                    ),
                }
            },
        },
        AddressSyllableView::BRelative(mode) => match spec_brelative_addressing(mode) {
            Err(e) => Err(e),
            Ok((bits, extra)) => Ok((bits as u8, extra)),
        },
        AddressSyllableView::PRelative(prel) => match prel {
            PRelativeAddressView::Direct(ae) => match spec_prelative_address_extra_word(
                ae,
                cur_addr,
                labels,
            ) {
                Err(e) => Err(e),
                Ok(word) => Ok((spec_address_syllable_bits(4, 0, 0) as u8, seq![word])),
            },
            PRelativeAddressView::Indirect(ae) => match spec_prelative_address_extra_word(
                ae,
                cur_addr,
                labels,
            ) {
                Err(e) => Err(e),
                Ok(word) => Ok((spec_address_syllable_bits(4, 1, 0) as u8, seq![word])),
            },
        },
    }
}

/// Number of words that follow an instruction for its address syllable: one
/// for an immediate operand, an immediate address, a program-counter-relative
/// address and a displacement from a base register, none for the other forms.
pub open spec fn spec_address_syl_extra_words(addr_syl: AddressSyllableView) -> nat {
    match addr_syl {
        AddressSyllableView::RegisterAddressing(_) => 0,
        AddressSyllableView::ImmediateAddressing(_) => 1,
        AddressSyllableView::ImmediateOperand(_) => 1,
        AddressSyllableView::PRelative(_) => 1,
        AddressSyllableView::BRelative(mode) => match mode {
            BRelativeAddressMode::Direct(BRelativeAddress::Displacement(_, _)) => 1,
            BRelativeAddressMode::Indirect(BRelativeAddress::Displacement(_, _)) => 1,
            _ => 0,
        },
    }
}

/// An address syllable that can be encoded is followed by as many words as its
/// form alone says.
pub proof fn lemma_address_syllable_extra_words(
    addr_syl: AddressSyllableView,
    cur_addr: u64,
    labels: Map<Seq<char>, u64>,
)
    requires
        spec_address_syllable_field(addr_syl, cur_addr, labels) is Ok,
    ensures
        spec_address_syllable_field(addr_syl, cur_addr, labels)->Ok_0.1.len()
            == spec_address_syl_extra_words(addr_syl),
{
}

fn address_syllable_bits(addr_mod: u8, ind_addr_bit: u8, reg: u8) -> (bits: u8)
    requires
        addr_mod <= 7,
        ind_addr_bit <= 1,
        reg <= 7,
    ensures
        bits == spec_address_syllable_bits(addr_mod as int, ind_addr_bit as int, reg as int),
        bits < 0x80,
{
    addr_mod * 0x10 + ind_addr_bit * 0x8 + reg
}

/// The address modifier that selects an index register; only the first three
/// data registers can index.
pub fn get_index_register_addr_modif(reg: &DataRegister) -> (addr_mod: Result<
    u8,
    AssemblerErrorKind,
>)
    ensures
        match spec_index_register_addr_modif(*reg) {
            Ok(expected) => addr_mod == Ok::<u8, AssemblerErrorKind>(expected as u8) && 1
                <= expected <= 3,
            Err(e) => addr_mod is Err && addr_mod->Err_0@ == e,
        },
{
    match reg {
        DataRegister::R1 => Ok(1),
        DataRegister::R2 => Ok(2),
        DataRegister::R3 => Ok(3),
        _ => Err(AssemblerErrorKind::InvalidIndexRegister(*reg)),
    }
}

/// The code of a base register in a syllable that updates it and indexes; only
/// the first three base registers can stand there.
pub fn get_base_register_value_indexed(reg: &BaseRegister) -> (code: Result<
    u8,
    AssemblerErrorKind,
>)
    ensures
        match spec_base_register_value_indexed(*reg) {
            Ok(expected) => code == Ok::<u8, AssemblerErrorKind>(expected as u8) && 1 <= expected
                <= 3,
            Err(e) => code is Err && code->Err_0@ == e,
        },
{
    match reg {
        BaseRegister::B1 => Ok(1),
        BaseRegister::B2 => Ok(2),
        BaseRegister::B3 => Ok(3),
        _ => Err(AssemblerErrorKind::InvalidBaseRegisterAddrSyl(*reg)),
    }
}

/// The word that holds an immediate operand.
pub fn get_immediate_operand_extra_word(val: i128) -> (word: Result<u16, AssemblerErrorKind>)
    ensures
        error_view(word) == spec_immediate_operand_extra_word(val),
{
    match pack_field_value(val, 0x1_0000) {
        Some(bits) => Ok(bits as u16),
        None => Err(AssemblerErrorKind::ImmediateValueOutOfRange(val)),
    }
}

/// The word that holds an immediate address.
pub fn get_immediate_address_extra_word(
    ae: &AddressExpression,
    cur_addr: u64,
    label_table: &LabelTable,
) -> (word: Result<u16, AssemblerErrorKind>)
    ensures
        error_view(word) == spec_immediate_address_extra_word(ae@, cur_addr, label_table@),
{
    let addr = match resolve_address_expression(ae, cur_addr, label_table) {
        Ok(addr) => addr,
        Err(e) => {
            return Err(e);
        },
    };
    if addr <= 0xFFFF {
        Ok(addr as u16)
    } else {
        Err(AssemblerErrorKind::ImmediateAddressOutOfRange(addr))
    }
}

/// The word that holds a displacement from a base register.
pub fn get_displacement_extra_word(disp: i128) -> (word: Result<u16, AssemblerErrorKind>)
    ensures
        error_view(word) == spec_displacement_extra_word(disp),
{
    if disp < -0x8000 || disp > 0x7FFF {
        return Err(AssemblerErrorKind::DisplacementOutOfRange(disp));
    }
    Ok(twos_complement_u16(disp as i16))
}

/// The word that holds the distance from the current address to a target.
pub fn get_prelative_address_extra_word(
    ae: &AddressExpression,
    cur_addr: u64,
    label_table: &LabelTable,
) -> (word: Result<u16, AssemblerErrorKind>)
    ensures
        error_view(word) == spec_prelative_address_extra_word(ae@, cur_addr, label_table@),
{
    let addr = match resolve_address_expression(ae, cur_addr, label_table) {
        Ok(addr) => addr,
        Err(e) => {
            return Err(e);
        },
    };
    let disp: i128 = addr as i128 - cur_addr as i128;
    if disp < -0x8000 || disp > 0x7FFF {
        return Err(AssemblerErrorKind::DisplacementOutOfRange(disp));
    }
    Ok(twos_complement_u16(disp as i16))
}

fn get_addr_syl_immediate_addressing_addr_modif_field(
    imm_addr: &ImmediateAddress,
    cur_addr: u64,
    label_table: &LabelTable,
) -> (res: Result<(u8, Vec<u16>), AssemblerErrorKind>)
    ensures
        match spec_immediate_addressing_addr_modif(imm_addr@, cur_addr, label_table@) {
            Ok((addr_mod, extra)) => res is Ok && res->Ok_0.0 == addr_mod && res->Ok_0.1@ == extra
                && 0 <= addr_mod <= 3,
            Err(e) => res is Err && res->Err_0@ == e,
        },
{
    match imm_addr {
        ImmediateAddress::Simple(ae) => {
            let word = match get_immediate_address_extra_word(ae, cur_addr, label_table) {
                Ok(word) => word,
                Err(e) => {
                    return Err(e);
                },
            };
            let words = vec![word];
            assert(words@ =~= seq![word]);
            Ok((0, words))
        },
        ImmediateAddress::Indexed(ae, reg) => {
            let addr_mod = match get_index_register_addr_modif(reg) {
                Ok(addr_mod) => addr_mod,
                Err(e) => {
                    return Err(e);
                },
            };
            let word = match get_immediate_address_extra_word(ae, cur_addr, label_table) {
                Ok(word) => word,
                Err(e) => {
                    return Err(e);
                },
            };
            let words = vec![word];
            assert(words@ =~= seq![word]);
            Ok((addr_mod, words))
        },
    }
}

fn get_addr_syl_brelative_addressing_direct_indirect(brel_addr: &BRelativeAddress) -> (res: Result<
    (u8, u8, Vec<u16>),
    AssemblerErrorKind,
>)
    ensures
        match spec_brelative_direct_indirect(*brel_addr) {
            Ok((addr_mod, reg, extra)) => res is Ok && res->Ok_0.0 == addr_mod && res->Ok_0.1
                == reg && res->Ok_0.2@ == extra && 0 <= addr_mod <= 4 && 1 <= reg <= 7,
            Err(e) => res is Err && res->Err_0@ == e,
        },
{
    match brel_addr {
        BRelativeAddress::Simple(reg) => Ok((0, get_base_register_value(reg), Vec::new())),
        BRelativeAddress::Indexed(reg, ind_reg) => {
            let addr_mod = match get_index_register_addr_modif(ind_reg) {
                Ok(addr_mod) => addr_mod,
                Err(e) => {
                    return Err(e);
                },
            };
            Ok((addr_mod, get_base_register_value(reg), Vec::new()))
        },
        BRelativeAddress::Displacement(reg, disp) => {
            let word = match get_displacement_extra_word(*disp) {
                Ok(word) => word,
                Err(e) => {
                    return Err(e);
                },
            };
            let words = vec![word];
            assert(words@ =~= seq![word]);
            Ok((4, get_base_register_value(reg), words))
        },
    }
}

fn encode_addr_syl_brelative_addressing(brel_addr_mode: &BRelativeAddressMode) -> (res: Result<
    (u8, Vec<u16>),
    AssemblerErrorKind,
>)
    ensures
        match spec_brelative_addressing(*brel_addr_mode) {
            Ok((bits, extra)) => res is Ok && res->Ok_0.0 == bits && res->Ok_0.1@ == extra
                && res->Ok_0.0 < 0x80,
            Err(e) => res is Err && res->Err_0@ == e,
        },
{
    match brel_addr_mode {
        BRelativeAddressMode::Direct(brel_addr) => {
            let (addr_mod, reg, extra_words) =
                match get_addr_syl_brelative_addressing_direct_indirect(brel_addr) {
                Ok(res) => res,
                Err(e) => {
                    return Err(e);
                },
            };
            Ok((address_syllable_bits(addr_mod, 0, reg), extra_words))
        },
        BRelativeAddressMode::Indirect(brel_addr) => {
            let (addr_mod, reg, extra_words) =
                match get_addr_syl_brelative_addressing_direct_indirect(brel_addr) {
                Ok(res) => res,
                Err(e) => {
                    return Err(e);
                },
            };
            Ok((address_syllable_bits(addr_mod, 1, reg), extra_words))
        },
        BRelativeAddressMode::PushPop(reg, incdec) => {
            let addr_mod: u8 = match incdec {
                IncDec::Decrement => 6,
                IncDec::Increment => 7,
            };
            Ok((address_syllable_bits(addr_mod, 0, get_base_register_value(reg)), Vec::new()))
        },
        BRelativeAddressMode::IncDecIndexed(reg, ind_reg, incdec) => {
            let addr_mod = match get_index_register_addr_modif(ind_reg) {
                Ok(addr_mod) => addr_mod,
                Err(e) => {
                    return Err(e);
                },
            };
            let base = match get_base_register_value_indexed(reg) {
                Ok(base) => base,
                Err(e) => {
                    return Err(e);
                },
            };
            let reg_field: u8 = match incdec {
                IncDec::Decrement => base,
                IncDec::Increment => base + 4,
            };
            Ok((address_syllable_bits(addr_mod + 4, 1, reg_field), Vec::new()))
        },
    }
}

/// Encode an address syllable
pub fn get_address_syllable_field_value(
    addr_syl: &AddressSyllable,
    cur_addr: u64,
    label_table: &LabelTable,
) -> (field: Result<(u8, Vec<u16>), AssemblerErrorKind>)
    ensures
        field_result_view(field) == spec_address_syllable_field(addr_syl@, cur_addr, label_table@),
        field is Ok ==> field->Ok_0.0 < 0x80,
{
    match addr_syl {
        AddressSyllable::RegisterAddressing(reg) => {
            Ok((address_syllable_bits(5, 0, get_generic_register_value(reg)), Vec::new()))
        },
        AddressSyllable::ImmediateOperand(val) => {
            let word = match get_immediate_operand_extra_word(*val) {
                Ok(word) => word,
                Err(e) => {
                    return Err(e);
                },
            };
            let words = vec![word];
            assert(words@ =~= seq![word]);
            Ok((address_syllable_bits(7, 0, 0), words))
        },
        AddressSyllable::ImmediateAddressing(imm_addr_mode) => {
            match imm_addr_mode {
                ImmediateAddressMode::Direct(imm_addr) => {
                    let (addr_mod, extra_words) =
                        match get_addr_syl_immediate_addressing_addr_modif_field(
                        imm_addr,
                        cur_addr,
                        label_table,
                    ) {
                        Ok(res) => res,
                        Err(e) => {
                            return Err(e);
                        },
                    };
                    Ok((address_syllable_bits(addr_mod, 0, 0), extra_words))
                },
                ImmediateAddressMode::Indirect(imm_addr) => {
                    let (addr_mod, extra_words) =
                        match get_addr_syl_immediate_addressing_addr_modif_field(
                        imm_addr,
                        cur_addr,
                        label_table,
                    ) {
                        Ok(res) => res,
                        Err(e) => {
                            return Err(e);
                        },
                    };
                    Ok((address_syllable_bits(addr_mod, 1, 0), extra_words))
                },
            }
        },
        AddressSyllable::BRelative(brel_addr_mode) => {
            encode_addr_syl_brelative_addressing(brel_addr_mode)
        },
        AddressSyllable::PRelative(prel_addr) => {
            match prel_addr {
                PRelativeAddress::Direct(ae) => {
                    let word = match get_prelative_address_extra_word(ae, cur_addr, label_table) {
                        Ok(word) => word,
                        Err(e) => {
                            return Err(e);
                        },
                    };
                    let words = vec![word];
                    assert(words@ =~= seq![word]);
                    Ok((address_syllable_bits(4, 0, 0), words))
                },
                PRelativeAddress::Indirect(ae) => {
                    let word = match get_prelative_address_extra_word(ae, cur_addr, label_table) {
                        Ok(word) => word,
                        Err(e) => {
                            return Err(e);
                        },
                    };
                    let words = vec![word];
                    assert(words@ =~= seq![word]);
                    Ok((address_syllable_bits(4, 1, 0), words))
                },
            }
        },
    }
}

} // verus!
