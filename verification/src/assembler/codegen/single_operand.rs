use vstd::prelude::*;
use crate::assembler::errors::{AssemblerErrorKind, AssemblerErrorKindView};
use crate::assembler::codegen::address_syllable::{
    get_address_syllable_field_value, spec_address_syllable_field,
};
use crate::assembler::codegen::common::{
    get_maskword_value, spec_maskword_value, words_result_view,
};
use crate::assembler::labels::LabelTable;
use crate::assembler::statements::{AddressSyllable, AddressSyllableView, SingleOperandOpCode};

verus! {

/// The 5-bit operation code of each single operand instruction.
pub open spec fn spec_single_operand_op_value(op: SingleOperandOpCode) -> int {
    match op {
        SingleOperandOpCode::INC => 0b10101,
        SingleOperandOpCode::DEC => 0b10001,
        SingleOperandOpCode::NEG => 0b00100,
        SingleOperandOpCode::CPL => 0b01100,
        SingleOperandOpCode::CL => 0b01110,
        SingleOperandOpCode::CLH => 0b01111,
        SingleOperandOpCode::CMZ => 0b10011,
        SingleOperandOpCode::CMN => 0b11011,
        SingleOperandOpCode::CAD => 0b11101,
        SingleOperandOpCode::STS => 0b11000,
        SingleOperandOpCode::JMP => 0b00111,
        SingleOperandOpCode::ENT => 0b10111,
        SingleOperandOpCode::LEV => 0b11100,
        SingleOperandOpCode::SAVE => 0b11110,
        SingleOperandOpCode::RSTR => 0b11111,
        SingleOperandOpCode::LB => 0b00101,
        SingleOperandOpCode::LBF => 0b10000,
        SingleOperandOpCode::LBT => 0b10010,
        SingleOperandOpCode::LBC => 0b10110,
        SingleOperandOpCode::LBS => 0b10100,
        SingleOperandOpCode::AID => 0b01000,
        SingleOperandOpCode::LDI => 0b11001,
        SingleOperandOpCode::SDI => 0b11010,
        SingleOperandOpCode::SID => 0b01001,
    }
}

/// The operation code of a single operand instruction.
pub fn get_single_operand_op_value(op: &SingleOperandOpCode) -> (code: u8)
    ensures
        code == spec_single_operand_op_value(*op),
        code < 32,
{
    match op {
        SingleOperandOpCode::INC => 0b10101,
        SingleOperandOpCode::DEC => 0b10001,
        SingleOperandOpCode::NEG => 0b00100,
        SingleOperandOpCode::CPL => 0b01100,
        SingleOperandOpCode::CL => 0b01110,
        SingleOperandOpCode::CLH => 0b01111,
        SingleOperandOpCode::CMZ => 0b10011,
        SingleOperandOpCode::CMN => 0b11011,
        SingleOperandOpCode::CAD => 0b11101,
        SingleOperandOpCode::STS => 0b11000,
        SingleOperandOpCode::JMP => 0b00111,
        SingleOperandOpCode::ENT => 0b10111,
        SingleOperandOpCode::LEV => 0b11100,
        SingleOperandOpCode::SAVE => 0b11110,
        SingleOperandOpCode::RSTR => 0b11111,
        SingleOperandOpCode::LB => 0b00101,
        SingleOperandOpCode::LBF => 0b10000,
        SingleOperandOpCode::LBT => 0b10010,
        SingleOperandOpCode::LBC => 0b10110,
        SingleOperandOpCode::LBS => 0b10100,
        SingleOperandOpCode::AID => 0b01000,
        SingleOperandOpCode::LDI => 0b11001,
        SingleOperandOpCode::SDI => 0b11010,
        SingleOperandOpCode::SID => 0b01001,
    }
}
/// The words of a single operand instruction: the instruction word (header 1000, the
/// operation in 5 bits, the address syllable in 7 bits),
/// then the words of the address syllable, then the mask word if there is a
/// mask. The address syllable is judged before the mask.
pub open spec fn spec_codegen_single_operand(
    op: SingleOperandOpCode,
    addr_syl: AddressSyllableView,
    mask: Option<i128>,
    cur_addr: u64,
    labels: Map<Seq<char>, u64>,
) -> Result<Seq<u16>, AssemblerErrorKindView> {
    match spec_address_syllable_field(addr_syl, cur_addr, labels) {
        Err(e) => Err(e),
        Ok((field, extra_words)) => {
            let inst_word = (0x8000 + spec_single_operand_op_value(op) * 0x80 + field) as u16;
            match mask {
                None => Ok(seq![inst_word] + extra_words),
                Some(m) => match spec_maskword_value(m) {
                    Err(e) => Err(e),
                    Ok(mask_word) => Ok(seq![inst_word] + extra_words + seq![mask_word]),
                },
            }
        },
    }
}

/// Generate code for a Single Operand instruction
pub fn codegen_single_operand(
    op: &SingleOperandOpCode,
    addr_syl: &AddressSyllable,
    mask: &Option<i128>,
    cur_addr: u64,
    label_table: &LabelTable,
) -> (words: Result<Vec<u16>, AssemblerErrorKind>)
    ensures
        words_result_view(words) == spec_codegen_single_operand(
            *op,
            addr_syl@,
            *mask,
            cur_addr,
            label_table@,
        ),
{
    let (addr_syl_field, mut addr_syl_extra_words) = match get_address_syllable_field_value(
        addr_syl,
        cur_addr,
        label_table,
    ) {
        Ok(res) => res,
        Err(e) => {
            return Err(e);
        },
    };
    let inst_word: u16 = 0x8000 + get_single_operand_op_value(op) as u16 * 0x80 + addr_syl_field as u16;
    let ghost extra = addr_syl_extra_words@;
    let mut words = vec![inst_word];
    words.append(&mut addr_syl_extra_words);
    assert(words@ =~= seq![inst_word] + extra);
    if let Some(mask) = mask {
        let mask_word = match get_maskword_value(*mask) {
            Ok(word) => word,
            Err(e) => {
                return Err(e);
            },
        };
        words.push(mask_word);
        assert(words@ =~= seq![inst_word] + extra + seq![mask_word]);
    }
    Ok(words)
}

} // verus!
