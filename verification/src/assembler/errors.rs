use vstd::prelude::*;
use crate::assembler::mnemonics::Mnemonic;
use crate::assembler::statements::{BaseRegister, DataRegister};
use crate::preprocessor::LineLocation;

verus! {

/// What went wrong while a line was parsed or encoded, with the offending
/// fragment, mnemonic or value.
#[derive(Debug, Clone, PartialEq)]
pub enum AssemblerErrorKind {
    // Labels
    LabelDoubleDefinition(String),
    // Statement parsing
    MnemonicRequired,
    UnkownMnemonic(String),
    // Argument parsing
    MalformedArgumentList,
    WrongNumberOfArguments(Mnemonic, usize, usize),
    InvalidAddress(String),
    UnexpectedCharactersAtEndOfArgument(String),
    InvalidBranchLocation(String),
    InvalidDataRegister(String),
    InvalidBaseRegister(String),
    InvalidModeControlRegister(String),
    InvalidImmediateValue(String),
    InvalidDataDefinitionChunk(String),
    InvalidAddressSyllable(String),
    WrongRegisterType(String, Mnemonic),
    RegisterAddressingInvalid(Mnemonic),
    ImmediateAddressingInvalid(Mnemonic),
    InvalidMaskWord(String),
    // Code generation
    BranchAddressOutOfRange(u64),
    BranchLongDisplacementOutOfRange(i128),
    BranchShortDisplacementOutOfRange(i128),
    BranchShortDisplacementMustNotBe0Or1,
    WordDisplacementOutOfRange(i128),
    ShortImmediateValueOutOfRange(i128),
    UndefinedLabel(String),
    DataDefinitionValueOutOfRange(i128),
    ImmediateValueOutOfRange(i128),
    InvalidIndexRegister(DataRegister),
    ImmediateAddressOutOfRange(u64),
    DisplacementOutOfRange(i128),
    InvalidBaseRegisterAddrSyl(BaseRegister),
    MaskWordOutOfRange(i128),
    ShiftDistanceOutOfRange(u64),
    ChannelOutOfRange(u64),
    FunctionCodeOutOfRange(u64),
}

/// Mathematical model of an `AssemblerErrorKind`: text fragments are sequences of
/// characters.
pub enum AssemblerErrorKindView {
    LabelDoubleDefinition(Seq<char>),
    MnemonicRequired,
    UnkownMnemonic(Seq<char>),
    MalformedArgumentList,
    WrongNumberOfArguments(Mnemonic, usize, usize),
    InvalidAddress(Seq<char>),
    UnexpectedCharactersAtEndOfArgument(Seq<char>),
    InvalidBranchLocation(Seq<char>),
    InvalidDataRegister(Seq<char>),
    InvalidBaseRegister(Seq<char>),
    InvalidModeControlRegister(Seq<char>),
    InvalidImmediateValue(Seq<char>),
    InvalidDataDefinitionChunk(Seq<char>),
    InvalidAddressSyllable(Seq<char>),
    WrongRegisterType(Seq<char>, Mnemonic),
    RegisterAddressingInvalid(Mnemonic),
    ImmediateAddressingInvalid(Mnemonic),
    InvalidMaskWord(Seq<char>),
    BranchAddressOutOfRange(u64),
    BranchLongDisplacementOutOfRange(i128),
    BranchShortDisplacementOutOfRange(i128),
    BranchShortDisplacementMustNotBe0Or1,
    WordDisplacementOutOfRange(i128),
    ShortImmediateValueOutOfRange(i128),
    UndefinedLabel(Seq<char>),
    DataDefinitionValueOutOfRange(i128),
    ImmediateValueOutOfRange(i128),
    InvalidIndexRegister(DataRegister),
    ImmediateAddressOutOfRange(u64),
    DisplacementOutOfRange(i128),
    InvalidBaseRegisterAddrSyl(BaseRegister),
    MaskWordOutOfRange(i128),
    ShiftDistanceOutOfRange(u64),
    ChannelOutOfRange(u64),
    FunctionCodeOutOfRange(u64),
}

impl View for AssemblerErrorKind {
    type V = AssemblerErrorKindView;

    open spec fn view(&self) -> AssemblerErrorKindView {
        match self {
            AssemblerErrorKind::LabelDoubleDefinition(a) => AssemblerErrorKindView::LabelDoubleDefinition(
                a@,
            ),
            AssemblerErrorKind::MnemonicRequired => AssemblerErrorKindView::MnemonicRequired,
            AssemblerErrorKind::UnkownMnemonic(a) => AssemblerErrorKindView::UnkownMnemonic(
                a@,
            ),
            AssemblerErrorKind::MalformedArgumentList => AssemblerErrorKindView::MalformedArgumentList,
            AssemblerErrorKind::WrongNumberOfArguments(a, b, c) => AssemblerErrorKindView::WrongNumberOfArguments(
                *a, *b, *c,
            ),
            AssemblerErrorKind::InvalidAddress(a) => AssemblerErrorKindView::InvalidAddress(
                a@,
            ),
            AssemblerErrorKind::UnexpectedCharactersAtEndOfArgument(a) => AssemblerErrorKindView::UnexpectedCharactersAtEndOfArgument(
                a@,
            ),
            AssemblerErrorKind::InvalidBranchLocation(a) => AssemblerErrorKindView::InvalidBranchLocation(
                a@,
            ),
            AssemblerErrorKind::InvalidDataRegister(a) => AssemblerErrorKindView::InvalidDataRegister(
                a@,
            ),
            AssemblerErrorKind::InvalidBaseRegister(a) => AssemblerErrorKindView::InvalidBaseRegister(
                a@,
            ),
            AssemblerErrorKind::InvalidModeControlRegister(a) => AssemblerErrorKindView::InvalidModeControlRegister(
                a@,
            ),
            AssemblerErrorKind::InvalidImmediateValue(a) => AssemblerErrorKindView::InvalidImmediateValue(
                a@,
            ),
            AssemblerErrorKind::InvalidDataDefinitionChunk(a) => AssemblerErrorKindView::InvalidDataDefinitionChunk(
                a@,
            ),
            AssemblerErrorKind::InvalidAddressSyllable(a) => AssemblerErrorKindView::InvalidAddressSyllable(
                a@,
            ),
            AssemblerErrorKind::WrongRegisterType(a, b) => AssemblerErrorKindView::WrongRegisterType(
                a@, *b,
            ),
            AssemblerErrorKind::RegisterAddressingInvalid(a) => AssemblerErrorKindView::RegisterAddressingInvalid(
                *a,
            ),
            AssemblerErrorKind::ImmediateAddressingInvalid(a) => AssemblerErrorKindView::ImmediateAddressingInvalid(
                *a,
            ),
            AssemblerErrorKind::InvalidMaskWord(a) => AssemblerErrorKindView::InvalidMaskWord(
                a@,
            ),
            AssemblerErrorKind::BranchAddressOutOfRange(a) => AssemblerErrorKindView::BranchAddressOutOfRange(
                *a,
            ),
            AssemblerErrorKind::BranchLongDisplacementOutOfRange(a) => AssemblerErrorKindView::BranchLongDisplacementOutOfRange(
                *a,
            ),
            AssemblerErrorKind::BranchShortDisplacementOutOfRange(a) => AssemblerErrorKindView::BranchShortDisplacementOutOfRange(
                *a,
            ),
            AssemblerErrorKind::BranchShortDisplacementMustNotBe0Or1 => AssemblerErrorKindView::BranchShortDisplacementMustNotBe0Or1,
            AssemblerErrorKind::WordDisplacementOutOfRange(a) => AssemblerErrorKindView::WordDisplacementOutOfRange(
                *a,
            ),
            AssemblerErrorKind::ShortImmediateValueOutOfRange(a) => AssemblerErrorKindView::ShortImmediateValueOutOfRange(
                *a,
            ),
            AssemblerErrorKind::UndefinedLabel(a) => AssemblerErrorKindView::UndefinedLabel(
                a@,
            ),
            AssemblerErrorKind::DataDefinitionValueOutOfRange(a) => AssemblerErrorKindView::DataDefinitionValueOutOfRange(
                *a,
            ),
            AssemblerErrorKind::ImmediateValueOutOfRange(a) => AssemblerErrorKindView::ImmediateValueOutOfRange(
                *a,
            ),
            AssemblerErrorKind::InvalidIndexRegister(a) => AssemblerErrorKindView::InvalidIndexRegister(
                *a,
            ),
            AssemblerErrorKind::ImmediateAddressOutOfRange(a) => AssemblerErrorKindView::ImmediateAddressOutOfRange(
                *a,
            ),
            AssemblerErrorKind::DisplacementOutOfRange(a) => AssemblerErrorKindView::DisplacementOutOfRange(
                *a,
            ),
            AssemblerErrorKind::InvalidBaseRegisterAddrSyl(a) => AssemblerErrorKindView::InvalidBaseRegisterAddrSyl(
                *a,
            ),
            AssemblerErrorKind::MaskWordOutOfRange(a) => AssemblerErrorKindView::MaskWordOutOfRange(
                *a,
            ),
            AssemblerErrorKind::ShiftDistanceOutOfRange(a) => AssemblerErrorKindView::ShiftDistanceOutOfRange(
                *a,
            ),
            AssemblerErrorKind::ChannelOutOfRange(a) => AssemblerErrorKindView::ChannelOutOfRange(
                *a,
            ),
            AssemblerErrorKind::FunctionCodeOutOfRange(a) => AssemblerErrorKindView::FunctionCodeOutOfRange(
                *a,
            ),
        }
    }
}

/// A diagnostic: what went wrong and, where known, on which line.
#[derive(Debug, Clone, PartialEq)]
pub struct AssemblerError {
    pub kind: AssemblerErrorKind,
    pub location: Option<LineLocation>,
}

/// Mathematical model of an `AssemblerError`.
pub struct AssemblerErrorView {
    pub kind: AssemblerErrorKindView,
    pub location: Option<LineLocation>,
}

impl View for AssemblerError {
    type V = AssemblerErrorView;

    open spec fn view(&self) -> AssemblerErrorView {
        AssemblerErrorView { kind: self.kind@, location: self.location }
    }
}

/// The model of each diagnostic of a list.
pub open spec fn errors_view(errors: Seq<AssemblerError>) -> Seq<AssemblerErrorView> {
    Seq::new(errors.len(), |i: int| errors[i]@)
}

/// Maps the error of a result to its model and leaves the value as it is.
pub open spec fn error_view<T>(r: Result<T, AssemblerErrorKind>) -> Result<T, AssemblerErrorKindView> {
    match r {
        Ok(v) => Ok(v),
        Err(e) => Err(e@),
    }
}

/// Maps both sides of a result to their models.
pub open spec fn value_result_view<T: View>(r: Result<T, AssemblerErrorKind>) -> Result<
    T::V,
    AssemblerErrorKindView,
> {
    match r {
        Ok(v) => Ok(v@),
        Err(e) => Err(e@),
    }
}

} // verus!
