use vstd::prelude::*;
use crate::assembler::codegen::address_syllable::{
    get_address_syllable_field_value, spec_address_syllable_field,
};
use crate::assembler::codegen::common::words_result_view;
use crate::assembler::codegen::fields::{u10_new, u6_new};
use crate::assembler::errors::{error_view, AssemblerErrorKind, AssemblerErrorKindView};
use crate::assembler::labels::LabelTable;
use crate::assembler::statements::{AddressSyllable, AddressSyllableView};

verus! {

/// Operations of the input and output family.
#[derive(Debug, Clone, Copy, PartialEq, Eq, Structural)]
pub enum InputOutputOpCode {
    IO,
    IOH,
}

/// The channel that an input or output instruction speaks to: a channel number
/// with a function code, or an address syllable that leads to them.
#[derive(Debug, Clone, PartialEq)]
pub enum ChannelExpression {
    Immediate(u64, u64),
    AddressSyllable(AddressSyllable),
}

/// Mathematical model of a `ChannelExpression`.
pub enum ChannelExpressionView {
    Immediate(u64, u64),
    AddressSyllable(AddressSyllableView),
}

impl View for ChannelExpression {
    type V = ChannelExpressionView;

    open spec fn view(&self) -> ChannelExpressionView {
        match self {
            ChannelExpression::Immediate(chan, func) => ChannelExpressionView::Immediate(
                *chan,
                *func,
            ),
            ChannelExpression::AddressSyllable(addr_syl) => ChannelExpressionView::AddressSyllable(
                addr_syl@,
            ),
        }
    }
}

/// The 5-bit operation code of each input or output instruction.
pub open spec fn spec_input_output_op_value(op: InputOutputOpCode) -> int {
    match op {
        InputOutputOpCode::IO => 0b00000,
        InputOutputOpCode::IOH => 0b00010,
    }
}

/// The operation code of an input or output instruction.
pub fn get_input_output_op_value(op: &InputOutputOpCode) -> (code: u8)
    ensures
        code == spec_input_output_op_value(*op),
        code < 32,
{
    match op {
        InputOutputOpCode::IO => 0b00000,
        InputOutputOpCode::IOH => 0b00010,
    }
}

/// The channel field: a channel number of 10 bits.
pub open spec fn spec_chan_field_value(chan: u64) -> Result<u16, AssemblerErrorKindView> {
    if chan <= 1023 {
        Ok(chan as u16)
    } else {
        Err(AssemblerErrorKindView::ChannelOutOfRange(chan))
    }
}

/// The function field: a function code of 6 bits.
pub open spec fn spec_func_field_value(func: u64) -> Result<u8, AssemblerErrorKindView> {
    if func <= 63 {
        Ok(func as u8)
    } else {
        Err(AssemblerErrorKindView::FunctionCodeOutOfRange(func))
    }
}

/// The words of a channel expression: one word with the channel in 10 bits
/// and the function in 6, or one word with an address syllable in its low 7
/// bits, followed by the words of that syllable. The channel is judged before
/// the function.
pub open spec fn spec_channel_expression_words(
    chan_expr: ChannelExpressionView,
    cur_addr: u64,
    labels: Map<Seq<char>, u64>,
) -> Result<Seq<u16>, AssemblerErrorKindView> {
    match chan_expr {
        ChannelExpressionView::Immediate(chan, func) => match spec_chan_field_value(chan) {
            Err(e) => Err(e),
            Ok(chan_field) => match spec_func_field_value(func) {
                Err(e) => Err(e),
                Ok(func_field) => Ok(seq![(chan_field * 0x40 + func_field) as u16]),
            },
        },
        ChannelExpressionView::AddressSyllable(addr_syl) => match spec_address_syllable_field(
            addr_syl,
            cur_addr,
            labels,
        ) {
            Err(e) => Err(e),
            Ok((field, extra_words)) => Ok(seq![field as u16] + extra_words),
        },
    }
}

/// The words of an input or output instruction: the instruction word (header
/// 1000, the operation in 5 bits, the address syllable of the data in 7 bits),
/// the words of that syllable, then the words of the channel expression. The
/// data is judged before the channel.
pub open spec fn spec_codegen_input_output(
    op: InputOutputOpCode,
    data_addr_syl: AddressSyllableView,
    chan_expr: ChannelExpressionView,
    cur_addr: u64,
    labels: Map<Seq<char>, u64>,
) -> Result<Seq<u16>, AssemblerErrorKindView> {
    match spec_address_syllable_field(data_addr_syl, cur_addr, labels) {
        Err(e) => Err(e),
        Ok((field, extra_words)) => match spec_channel_expression_words(
            chan_expr,
            cur_addr,
            labels,
        ) {
            Err(e) => Err(e),
            Ok(chan_words) => Ok(
                seq![(0x8000 + spec_input_output_op_value(op) * 0x80 + field) as u16] + extra_words
                    + chan_words,
            ),
        },
    }
}

/// The words of an input and output load: the instruction word (header 1000,
/// operation 00011, the address syllable of the buffer in 7 bits), the words
/// of that syllable, the words of the channel expression, a word with the
/// address syllable of the range in its low 7 bits, and the words of that
/// syllable. The buffer is judged first, then the range, then the channel.
pub open spec fn spec_codegen_input_output_load(
    buffer_addr_syl: AddressSyllableView,
    chan_expr: ChannelExpressionView,
    range_addr_syl: AddressSyllableView,
    cur_addr: u64,
    labels: Map<Seq<char>, u64>,
) -> Result<Seq<u16>, AssemblerErrorKindView> {
    match spec_address_syllable_field(buffer_addr_syl, cur_addr, labels) {
        Err(e) => Err(e),
        Ok((buffer_field, buffer_words)) => match spec_address_syllable_field(
            range_addr_syl,
            cur_addr,
            labels,
        ) {
            Err(e) => Err(e),
            Ok((range_field, range_words)) => match spec_channel_expression_words(
                chan_expr,
                cur_addr,
                labels,
            ) {
                Err(e) => Err(e),
                Ok(chan_words) => Ok(
                    seq![(0x8000 + 0b00011 * 0x80 + buffer_field) as u16] + buffer_words
                        + chan_words + seq![range_field as u16] + range_words,
                ),
            },
        },
    }
}

/// The channel field of a channel expression.
pub fn get_chan_field_value(chan: u64) -> (field: Result<u16, AssemblerErrorKind>)
    ensures
        error_view(field) == spec_chan_field_value(chan),
{
    // Channel into u16
    if chan > 0xFFFF {
        return Err(AssemblerErrorKind::ChannelOutOfRange(chan));
    }
    // Channel into 10 bits
    match u10_new(chan as u16) {
        Some(res) => Ok(res),
        None => Err(AssemblerErrorKind::ChannelOutOfRange(chan)),
    }
}

/// The function field of a channel expression.
pub fn get_func_field_value(func: u64) -> (field: Result<u8, AssemblerErrorKind>)
    ensures
        error_view(field) == spec_func_field_value(func),
{
    // Func into u8
    if func > 0xFF {
        return Err(AssemblerErrorKind::FunctionCodeOutOfRange(func));
    }
    // Func into 6 bits
    match u6_new(func as u8) {
        Some(res) => Ok(res),
        None => Err(AssemblerErrorKind::FunctionCodeOutOfRange(func)),
    }
}

/// The words of a channel expression.
pub fn get_channel_expression_words(
    chan_expr: &ChannelExpression,
    cur_addr: u64,
    label_table: &LabelTable,
) -> (words: Result<Vec<u16>, AssemblerErrorKind>)
    ensures
        words_result_view(words) == spec_channel_expression_words(
            chan_expr@,
            cur_addr,
            label_table@,
        ),
{
    match chan_expr {
        ChannelExpression::Immediate(chan, func) => {
            let chan_field = match get_chan_field_value(*chan) {
                Ok(field) => field,
                Err(e) => {
                    return Err(e);
                },
            };
            let func_field = match get_func_field_value(*func) {
                Ok(field) => field,
                Err(e) => {
                    return Err(e);
                },
            };
            let ce_word: u16 = chan_field * 0x40 + func_field as u16;
            let words = vec![ce_word];
            assert(words@ =~= seq![ce_word]);
            Ok(words)
        },
        ChannelExpression::AddressSyllable(addr_syl) => {
            // Process address syllable
            let (addr_syl_field, mut addr_syl_extra_words) =
                match get_address_syllable_field_value(addr_syl, cur_addr, label_table) {
                Ok(res) => res,
                Err(e) => {
                    return Err(e);
                },
            };
            let ghost extra = addr_syl_extra_words@;
            // Concatenate words
            let mut words = vec![addr_syl_field as u16];
            words.append(&mut addr_syl_extra_words);
            assert(words@ =~= seq![addr_syl_field as u16] + extra);
            Ok(words)
        },
    }
}

/// Generate code for an Input Output instruction
pub fn codegen_input_output(
    op: &InputOutputOpCode,
    data_addr_syl: &AddressSyllable,
    chan_expr: &ChannelExpression,
    cur_addr: u64,
    label_table: &LabelTable,
) -> (words: Result<Vec<u16>, AssemblerErrorKind>)
    ensures
        words_result_view(words) == spec_codegen_input_output(
            *op,
            data_addr_syl@,
            chan_expr@,
            cur_addr,
            label_table@,
        ),
{
    // Process data address syllable
    let (data_addr_syl_field, mut data_addr_syl_extra_words) =
        match get_address_syllable_field_value(data_addr_syl, cur_addr, label_table) {
        Ok(res) => res,
        Err(e) => {
            return Err(e);
        },
    };
    // Build instruction word
    let inst_word: u16 = 0x8000 + get_input_output_op_value(op) as u16 * 0x80
        + data_addr_syl_field as u16;
    // Build channel expression word
    let mut chan_expr_words = match get_channel_expression_words(chan_expr, cur_addr, label_table) {
        Ok(words) => words,
        Err(e) => {
            return Err(e);
        },
    };
    let ghost extra = data_addr_syl_extra_words@;
    let ghost chan = chan_expr_words@;
    // Concatenate words
    let mut words = vec![inst_word];
    words.append(&mut data_addr_syl_extra_words);
    words.append(&mut chan_expr_words);
    assert(words@ =~= seq![inst_word] + extra + chan);
    Ok(words)
}

/// Generate code for an Input Output Load instruction
pub fn codegen_input_output_load(
    buffer_addr_syl: &AddressSyllable,
    chan_expr: &ChannelExpression,
    range_addr_syl: &AddressSyllable,
    cur_addr: u64,
    label_table: &LabelTable,
) -> (words: Result<Vec<u16>, AssemblerErrorKind>)
    ensures
        words_result_view(words) == spec_codegen_input_output_load(
            buffer_addr_syl@,
            chan_expr@,
            range_addr_syl@,
            cur_addr,
            label_table@,
        ),
{
    // Process buffer address syllable
    let (buffer_addr_syl_field, mut buffer_addr_syl_extra_words) =
        match get_address_syllable_field_value(buffer_addr_syl, cur_addr, label_table) {
        Ok(res) => res,
        Err(e) => {
            return Err(e);
        },
    };
    // Process range address syllable
    let (range_addr_syl_field, mut range_addr_syl_extra_words) =
        match get_address_syllable_field_value(range_addr_syl, cur_addr, label_table) {
        Ok(res) => res,
        Err(e) => {
            return Err(e);
        },
    };
    // Build instruction word
    let inst_word: u16 = 0x8000 + 0b00011 * 0x80 + buffer_addr_syl_field as u16;
    // Build channel expression word
    let mut chan_expr_words = match get_channel_expression_words(chan_expr, cur_addr, label_table) {
        Ok(words) => words,
        Err(e) => {
            return Err(e);
        },
    };
    // Build range word
    let range_word: u16 = range_addr_syl_field as u16;
    let ghost buffer = buffer_addr_syl_extra_words@;
    let ghost chan = chan_expr_words@;
    let ghost range = range_addr_syl_extra_words@;
    // Concatenate words
    let mut words = vec![inst_word];
    words.append(&mut buffer_addr_syl_extra_words);
    words.append(&mut chan_expr_words);
    words.push(range_word);
    words.append(&mut range_addr_syl_extra_words);
    assert(words@ =~= seq![inst_word] + buffer + chan + seq![range_word] + range);
    Ok(words)
}

} // verus!
