use vstd::prelude::*;
use crate::assembler::codegen::address_syllable::spec_address_syl_extra_words;
use crate::assembler::codegen::data_definition::spec_data_definition_size;
use crate::assembler::statements::{
    AddressSyllable, BRelativeAddress, BRelativeAddressMode, BranchLocation,
    BranchLocationView, DataDefinitionSize, Statement, StatementView,
};

verus! {

/// Number of words that follow a branch for its location: one for an absolute
/// address or a long displacement, none for a short displacement.
pub open spec fn spec_branchloc_extra_words(branchloc: BranchLocationView) -> nat {
    match branchloc {
        BranchLocationView::Absolute(_) => 1,
        BranchLocationView::LongDisplacement(_) => 1,
        BranchLocationView::ShortDisplacement(_) => 0,
    }
}

/// Number of words that a mask adds: one if there is a mask.
pub open spec fn spec_mask_extra_words(mask: Option<i128>) -> nat {
    match mask {
        None => 0,
        Some(_) => 1,
    }
}

/// Length of a statement in words. It depends on the form of the statement
/// alone: neither on the current address nor on any label.
pub open spec fn spec_statement_size(statement: StatementView) -> nat {
    match statement {
        StatementView::Org(_) => 0,
        StatementView::DataDefinition(size, values) => spec_data_definition_size(
            size,
            values.len(),
        ),
        StatementView::BranchOnIndicators(_, branchloc) => 1 + spec_branchloc_extra_words(
            branchloc,
        ),
        StatementView::BranchOnRegisters(_, _, branchloc) => 1 + spec_branchloc_extra_words(
            branchloc,
        ),
        StatementView::ShortValueImmediate(_, _, _) => 1,
        StatementView::SingleOperand(_, addr_syl, mask) => 1 + spec_address_syl_extra_words(
            addr_syl,
        ) + spec_mask_extra_words(mask),
        StatementView::DoubleOperand(_, _, addr_syl, mask) => 1 + spec_address_syl_extra_words(
            addr_syl,
        ) + spec_mask_extra_words(mask),
        StatementView::Generic(_) => 1,
        StatementView::ShiftShort(_, _, _) => 1,
        StatementView::ShiftLong(_, _, _) => 1,
    }
}

/// A count of words as a 64-bit number; a count beyond 64 bits, which no
/// vector in memory reaches, is held at the largest number.
pub open spec fn spec_saturate_u64(count: nat) -> u64 {
    if count <= u64::MAX {
        count as u64
    } else {
        u64::MAX
    }
}

/// Computes the size of a statement in memory (in words)
pub fn statement_size(statement: &Statement, _cur_addr: u64) -> (size: u64)
    ensures
        size == spec_saturate_u64(spec_statement_size(statement@)),
{
    match statement {
        Statement::Org(_) => 0,
        Statement::DataDefinition(size, chunks) => data_definition_dir_size(size, chunks),
        Statement::BranchOnIndicators(_op, branchloc) => branch_inst_size(branchloc),
        Statement::BranchOnRegisters(_op, _reg, branchloc) => branch_inst_size(branchloc),
        Statement::ShortValueImmediate(_op, _reg, _value) => 1,
        Statement::SingleOperand(_op, addr_syl, mask) => single_operand_inst_size(addr_syl, mask),
        Statement::Generic(_op) => 1,
        Statement::DoubleOperand(_op, _reg, addr_syl, mask) => double_operand_inst_size(
            addr_syl,
            mask,
        ),
        Statement::ShiftShort(_op, _reg, _val) => 1,
        Statement::ShiftLong(_op, _reg, _val) => 1,
    }
}

/// Computes words used by a data definition directive
pub fn data_definition_dir_size(size: &DataDefinitionSize, chunks: &Vec<i128>) -> (words: u64)
    ensures
        words == spec_saturate_u64(spec_data_definition_size(*size, chunks@.len())),
{
    let n_chunks = chunks.len() as u64;
    match size {
        DataDefinitionSize::Byte => n_chunks / 2 + n_chunks % 2,
        DataDefinitionSize::Word => n_chunks,
        DataDefinitionSize::DoubleWord => match n_chunks.checked_mul(2) {
            Some(words) => words,
            None => u64::MAX,
        },
        DataDefinitionSize::QuadWord => match n_chunks.checked_mul(4) {
            Some(words) => words,
            None => u64::MAX,
        },
    }
}

/// Computes the size of a Single Operand instruction
pub fn single_operand_inst_size(addr_syl: &AddressSyllable, mask: &Option<i128>) -> (words: u64)
    ensures
        words == 1 + spec_address_syl_extra_words(addr_syl@) + spec_mask_extra_words(*mask),
{
    1 + address_syl_extra_words(addr_syl) + mask_extra_words(mask)
}

/// Computes the size of a Double Operand instruction
pub fn double_operand_inst_size(addr_syl: &AddressSyllable, mask: &Option<i128>) -> (words: u64)
    ensures
        words == 1 + spec_address_syl_extra_words(addr_syl@) + spec_mask_extra_words(*mask),
{
    1 + address_syl_extra_words(addr_syl) + mask_extra_words(mask)
}

/// Computes amount of extra words used by a Branch location
pub fn branchloc_extra_words(branchloc: &BranchLocation) -> (words: u64)
    ensures
        words == spec_branchloc_extra_words(branchloc@),
{
    match branchloc {
        BranchLocation::Absolute(_) => 1,
        BranchLocation::LongDisplacement(_) => 1,
        BranchLocation::ShortDisplacement(_) => 0,
    }
}

/// Computes the size of a Branch on Indicators instruction
pub fn branch_inst_size(branchloc: &BranchLocation) -> (words: u64)
    ensures
        words == 1 + spec_branchloc_extra_words(branchloc@),
{
    1 + branchloc_extra_words(branchloc)
}

/// Computes amount of extra words used by an Address Syllable
pub fn address_syl_extra_words(address_syllable: &AddressSyllable) -> (words: u64)
    ensures
        words == spec_address_syl_extra_words(address_syllable@),
{
    match address_syllable {
        AddressSyllable::RegisterAddressing(_) => 0,
        AddressSyllable::ImmediateAddressing(_) => 1,
        AddressSyllable::ImmediateOperand(_) => 1,
        AddressSyllable::BRelative(mode) => match mode {
            BRelativeAddressMode::Direct(BRelativeAddress::Displacement(_, _)) => 1,
            BRelativeAddressMode::Indirect(BRelativeAddress::Displacement(_, _)) => 1,
            _ => 0,
        },
        AddressSyllable::PRelative(_) => 1,
    }
}

/// Computes amount of extra words used by a mask
pub fn mask_extra_words(mask: &Option<i128>) -> (words: u64)
    ensures
        words == spec_mask_extra_words(*mask),
{
    match mask {
        None => 0,
        Some(_) => 1,
    }
}

} // verus!
