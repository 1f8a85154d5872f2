use vstd::prelude::*;
use crate::assembler::codegen::address_syllable::lemma_address_syllable_extra_words;
use crate::assembler::codegen::branch_on_indicators::{
    codegen_branch_on_indicators, spec_codegen_branch_on_indicators,
};
use crate::assembler::codegen::branch_on_registers::{
    codegen_branch_on_registers, spec_codegen_branch_on_registers,
};
use crate::assembler::codegen::common::words_result_view;
use crate::assembler::codegen::data_definition::{
    codegen_data_definition, spec_codegen_data_definition,
};
use crate::assembler::codegen::double_operand::{
    codegen_double_operand, spec_codegen_double_operand,
};
use crate::assembler::codegen::generic::{codegen_generic, spec_codegen_generic};
use crate::assembler::codegen::shift::{
    codegen_shift_long, codegen_shift_short, spec_codegen_shift_long, spec_codegen_shift_short,
};
use crate::assembler::codegen::short_value_immediate::{
    codegen_short_value_immediate, spec_codegen_short_value_immediate,
};
use crate::assembler::codegen::single_operand::{
    codegen_single_operand, spec_codegen_single_operand,
};
use crate::assembler::errors::{AssemblerErrorKind, AssemblerErrorKindView};
use crate::assembler::labels::LabelTable;
use crate::assembler::size::{spec_saturate_u64, spec_statement_size};
use crate::assembler::statements::{Statement, StatementView};

pub mod address_syllable;
pub mod branch_on_indicators;
pub mod branch_on_registers;
pub mod common;
pub mod data_definition;
pub mod double_operand;
pub mod fields;
pub mod generic;
pub mod input_output;
pub mod shift;
pub mod short_value_immediate;
pub mod single_operand;

verus! {

/// The words of a statement at an address, with a complete label table: the
/// encoding of the statement's family, or the first fault found in it. An
/// origin directive has no words.
pub open spec fn spec_codegen(
    statement: StatementView,
    cur_addr: u64,
    labels: Map<Seq<char>, u64>,
) -> Result<Seq<u16>, AssemblerErrorKindView> {
    match statement {
        StatementView::Org(_) => Ok(Seq::<u16>::empty()),
        StatementView::DataDefinition(size, values) => spec_codegen_data_definition(size, values),
        StatementView::BranchOnIndicators(op, branchloc) => spec_codegen_branch_on_indicators(
            op,
            branchloc,
            cur_addr,
            labels,
        ),
        StatementView::BranchOnRegisters(op, reg, branchloc) => spec_codegen_branch_on_registers(
            op,
            reg,
            branchloc,
            cur_addr,
            labels,
        ),
        StatementView::ShortValueImmediate(op, reg, value) => spec_codegen_short_value_immediate(
            op,
            reg,
            value,
        ),
        StatementView::SingleOperand(op, addr_syl, mask) => spec_codegen_single_operand(
            op,
            addr_syl,
            mask,
            cur_addr,
            labels,
        ),
        StatementView::DoubleOperand(op, reg, addr_syl, mask) => spec_codegen_double_operand(
            op,
            reg,
            addr_syl,
            mask,
            cur_addr,
            labels,
        ),
        StatementView::Generic(op) => spec_codegen_generic(op),
        StatementView::ShiftShort(op, reg, dist) => spec_codegen_shift_short(op, reg, dist),
        StatementView::ShiftLong(op, reg, dist) => spec_codegen_shift_long(op, reg, dist),
    }
}

/// Whenever a statement can be encoded, at any address and with any label
/// table, it is encoded in exactly as many words as its size says.
pub proof fn lemma_size_matches_codegen(
    statement: StatementView,
    cur_addr: u64,
    labels: Map<Seq<char>, u64>,
)
    requires
        spec_codegen(statement, cur_addr, labels) is Ok,
    ensures
        spec_codegen(statement, cur_addr, labels)->Ok_0.len() == spec_statement_size(statement),
{
    match statement {
        StatementView::SingleOperand(_, addr_syl, _) => {
            lemma_address_syllable_extra_words(addr_syl, cur_addr, labels);
        },
        StatementView::DoubleOperand(_, _, addr_syl, _) => {
            lemma_address_syllable_extra_words(addr_syl, cur_addr, labels);
        },
        _ => {},
    }
}

/// Generate raw words for one statement
pub fn codegen(statement: &Statement, cur_addr: u64, label_table: &LabelTable) -> (words: Result<
    Vec<u16>,
    AssemblerErrorKind,
>)
    ensures
        words_result_view(words) == spec_codegen(statement@, cur_addr, label_table@),
        words is Ok ==> words->Ok_0@.len() == spec_statement_size(statement@),
        words is Ok ==> words->Ok_0@.len() == spec_saturate_u64(spec_statement_size(statement@)),
{
    proof {
        if spec_codegen(statement@, cur_addr, label_table@) is Ok {
            lemma_size_matches_codegen(statement@, cur_addr, label_table@);
        }
    }
    let words = match statement {
        Statement::Org(_) => Ok(Vec::new()),
        Statement::DataDefinition(size, values) => codegen_data_definition(size, values),
        Statement::BranchOnIndicators(op, branchloc) => {
            codegen_branch_on_indicators(op, branchloc, cur_addr, label_table)
        },
        Statement::BranchOnRegisters(op, reg, branchloc) => {
            codegen_branch_on_registers(op, reg, branchloc, cur_addr, label_table)
        },
        Statement::ShortValueImmediate(op, reg, value) => {
            codegen_short_value_immediate(op, reg, *value)
        },
        Statement::SingleOperand(op, addr_syl, mask) => {
            codegen_single_operand(op, addr_syl, mask, cur_addr, label_table)
        },
        Statement::DoubleOperand(op, reg, addr_syl, mask) => {
            codegen_double_operand(op, reg, addr_syl, mask, cur_addr, label_table)
        },
        Statement::Generic(op) => codegen_generic(op),
        Statement::ShiftShort(op, reg, dist) => codegen_shift_short(op, reg, *dist),
        Statement::ShiftLong(op, reg, dist) => codegen_shift_long(op, reg, *dist),
    };
    if let Ok(encoded) = &words {
        // the length of a vector is a machine number: the size is not cut short
        let _count = encoded.len();
    }
    words
}

} // verus!
