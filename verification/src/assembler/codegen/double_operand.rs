use vstd::prelude::*;
use crate::assembler::errors::{AssemblerErrorKind, AssemblerErrorKindView};
use crate::assembler::codegen::address_syllable::{
    get_address_syllable_field_value, spec_address_syllable_field,
};
use crate::assembler::codegen::common::{
    get_generic_register_value, get_maskword_value, spec_generic_register_value, spec_maskword_value, words_result_view,
};
use crate::assembler::labels::LabelTable;
use crate::assembler::statements::{AddressSyllable, AddressSyllableView, DoubleOperandOpCode, Register};

verus! {

/// The 5-bit operation code of each double operand instruction.
pub open spec fn spec_double_operand_op_value(op: DoubleOperandOpCode) -> int {
    match op {
        DoubleOperandOpCode::LDR => 0b10000,
        DoubleOperandOpCode::STR => 0b11110,
        DoubleOperandOpCode::SRM => 0b10101,
        DoubleOperandOpCode::SWR => 0b11100,
        DoubleOperandOpCode::CMR => 0b10010,
        DoubleOperandOpCode::ADD => 0b10100,
        DoubleOperandOpCode::SUB => 0b00100,
        DoubleOperandOpCode::MUL => 0b10110,
        DoubleOperandOpCode::DIV => 0b00110,
        DoubleOperandOpCode::OR => 0b01000,
        DoubleOperandOpCode::XOR => 0b01100,
        DoubleOperandOpCode::AND => 0b01010,
        DoubleOperandOpCode::LDH => 0b00001,
        DoubleOperandOpCode::STH => 0b01111,
        DoubleOperandOpCode::CMH => 0b00011,
        DoubleOperandOpCode::ORH => 0b01001,
        DoubleOperandOpCode::XOH => 0b01101,
        DoubleOperandOpCode::ANH => 0b01011,
        DoubleOperandOpCode::LLH => 0b00101,
        DoubleOperandOpCode::MTM => 0b00000,
        DoubleOperandOpCode::STM => 0b01110,
        DoubleOperandOpCode::LDB => 0b11001,
        DoubleOperandOpCode::STB => 0b11111,
        DoubleOperandOpCode::CMB => 0b11011,
        DoubleOperandOpCode::SWB => 0b11101,
        DoubleOperandOpCode::LAB => 0b10111,
        DoubleOperandOpCode::LNJ => 0b00111,
    }
}

/// The operation code of a double operand instruction.
pub fn get_double_operand_op_value(op: &DoubleOperandOpCode) -> (code: u8)
    ensures
        code == spec_double_operand_op_value(*op),
        code < 32,
{
    match op {
        DoubleOperandOpCode::LDR => 0b10000,
        DoubleOperandOpCode::STR => 0b11110,
        DoubleOperandOpCode::SRM => 0b10101,
        DoubleOperandOpCode::SWR => 0b11100,
        DoubleOperandOpCode::CMR => 0b10010,
        DoubleOperandOpCode::ADD => 0b10100,
        DoubleOperandOpCode::SUB => 0b00100,
        DoubleOperandOpCode::MUL => 0b10110,
        DoubleOperandOpCode::DIV => 0b00110,
        DoubleOperandOpCode::OR => 0b01000,
        DoubleOperandOpCode::XOR => 0b01100,
        DoubleOperandOpCode::AND => 0b01010,
        DoubleOperandOpCode::LDH => 0b00001,
        DoubleOperandOpCode::STH => 0b01111,
        DoubleOperandOpCode::CMH => 0b00011,
        DoubleOperandOpCode::ORH => 0b01001,
        DoubleOperandOpCode::XOH => 0b01101,
        DoubleOperandOpCode::ANH => 0b01011,
        DoubleOperandOpCode::LLH => 0b00101,
        DoubleOperandOpCode::MTM => 0b00000,
        DoubleOperandOpCode::STM => 0b01110,
        DoubleOperandOpCode::LDB => 0b11001,
        DoubleOperandOpCode::STB => 0b11111,
        DoubleOperandOpCode::CMB => 0b11011,
        DoubleOperandOpCode::SWB => 0b11101,
        DoubleOperandOpCode::LAB => 0b10111,
        DoubleOperandOpCode::LNJ => 0b00111,
    }
}
/// The words of a double operand instruction: the instruction word (a header bit 1, the
/// register in 3 bits, the operation in 5 bits, the address syllable in 7 bits),
/// then the words of the address syllable, then the mask word if there is a
/// mask. The address syllable is judged before the mask.
pub open spec fn spec_codegen_double_operand(
    op: DoubleOperandOpCode,
    reg: Register,
    addr_syl: AddressSyllableView,
    mask: Option<i128>,
    cur_addr: u64,
    labels: Map<Seq<char>, u64>,
) -> Result<Seq<u16>, AssemblerErrorKindView> {
    match spec_address_syllable_field(addr_syl, cur_addr, labels) {
        Err(e) => Err(e),
        Ok((field, extra_words)) => {
            let inst_word = (0x8000 + spec_generic_register_value(reg) * 0x1000 + spec_double_operand_op_value(op)
                * 0x80 + field) as u16;
            match mask {
                None => Ok(seq![inst_word] + extra_words),
                Some(m) => match spec_maskword_value(m) {
                    Err(e) => Err(e),
                    Ok(mask_word) => Ok(seq![inst_word] + extra_words + seq![mask_word]),
                },
            }
        },
    }
}

/// Generate code for a Double Operand instruction
pub fn codegen_double_operand(
    op: &DoubleOperandOpCode,
    reg: &Register,
    addr_syl: &AddressSyllable,
    mask: &Option<i128>,
    cur_addr: u64,
    label_table: &LabelTable,
) -> (words: Result<Vec<u16>, AssemblerErrorKind>)
    ensures
        words_result_view(words) == spec_codegen_double_operand(
            *op,
            *reg,
            addr_syl@,
            *mask,
            cur_addr,
            label_table@,
        ),
{
    let (addr_syl_field, mut addr_syl_extra_words) = match get_address_syllable_field_value(
        addr_syl,
        cur_addr,
        label_table,
    ) {
        Ok(res) => res,
        Err(e) => {
            return Err(e);
        },
    };
    let inst_word: u16 = 0x8000 + get_generic_register_value(reg) as u16 * 0x1000
        + get_double_operand_op_value(op) as u16 * 0x80 + addr_syl_field as u16;
    let ghost extra = addr_syl_extra_words@;
    let mut words = vec![inst_word];
    words.append(&mut addr_syl_extra_words);
    assert(words@ =~= seq![inst_word] + extra);
    if let Some(mask) = mask {
        let mask_word = match get_maskword_value(*mask) {
            Ok(word) => word,
            Err(e) => {
                return Err(e);
            },
        };
        words.push(mask_word);
        assert(words@ =~= seq![inst_word] + extra + seq![mask_word]);
    }
    Ok(words)
}

} // verus!
