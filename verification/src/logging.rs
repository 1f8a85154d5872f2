use vstd::prelude::*;
use vstd::string::*;
use crate::assembler::errors::{AssemblerError, AssemblerErrorKind, AssemblerErrorKindView};
use crate::assembler::statements::{BaseRegister, DataRegister};
use crate::preprocessor::{LineLocation, LineLocationView};
use crate::text::{
    decimal, prefixed_hex_i128, prefixed_hex_u64, signed_decimal, spec_decimal,
    spec_prefixed_hex_i128, spec_prefixed_hex_u64, spec_signed_decimal,
};

verus! {

/// What the preprocessor can warn of.
#[derive(Debug, Clone, PartialEq)]
pub enum PreprocessorWarningKind {
    GarbageAtEndOfLine(String),
}

/// A warning of the preprocessor, with the line it is about.
#[derive(Debug, Clone, PartialEq)]
pub struct PreprocessorWarning {
    pub line_n: usize,
    pub file_name: String,
    pub line: String,
    pub kind: PreprocessorWarningKind,
}

/// Mathematical model of a `PreprocessorWarning`.
pub struct PreprocessorWarningView {
    pub line_n: usize,
    pub file_name: Seq<char>,
    pub line: Seq<char>,
    pub garbage: Seq<char>,
}

impl View for PreprocessorWarning {
    type V = PreprocessorWarningView;

    open spec fn view(&self) -> PreprocessorWarningView {
        PreprocessorWarningView {
            line_n: self.line_n,
            file_name: self.file_name@,
            line: self.line@,
            garbage: match self.kind {
                PreprocessorWarningKind::GarbageAtEndOfLine(garbage) => garbage@,
            },
        }
    }
}

/// The model of each warning of a list.
pub open spec fn warnings_view(warnings: Seq<PreprocessorWarning>) -> Seq<PreprocessorWarningView> {
    Seq::new(warnings.len(), |i: int| warnings[i]@)
}

/// The text of a warning.
pub open spec fn spec_warning_message(kind: PreprocessorWarningKind) -> Seq<char> {
    match kind {
        PreprocessorWarningKind::GarbageAtEndOfLine(garbage) => "unexpected garbage at end of line: \""@
            + garbage@ + "\""@,
    }
}

impl PreprocessorWarning {
    /// The text of the diagnostic.
    pub fn message(&self) -> (text: String)
        ensures
            text@ == spec_warning_message(self.kind),
    {
        match &self.kind {
            PreprocessorWarningKind::GarbageAtEndOfLine(garbage) => {
                let mut text = String::from_str("unexpected garbage at end of line: \"");
                text.append(garbage.as_str());
                text.append("\"");
                text
            },
        }
    }
}

/// What can go wrong in the preprocessor.
#[derive(Debug, Clone, PartialEq)]
pub enum PreprocessorErrorKind {
    // Lexer
    IncludeMissingFilePath,
    DefineMissingIdentifier,
    DefineMissingValue(String),
    // %include processing
    CannotOpenSourceFile(String),
    DobleInclusion(String),
    // %define processing
    DefineMultipleDefinition(String),
    DefineUndefined(String),
    // Unknown
    Unknown,
}

/// Mathematical model of a `PreprocessorErrorKind`.
pub enum PreprocessorErrorKindView {
    IncludeMissingFilePath,
    DefineMissingIdentifier,
    DefineMissingValue(Seq<char>),
    CannotOpenSourceFile(Seq<char>),
    DobleInclusion(Seq<char>),
    DefineMultipleDefinition(Seq<char>),
    DefineUndefined(Seq<char>),
    Unknown,
}

impl View for PreprocessorErrorKind {
    type V = PreprocessorErrorKindView;

    open spec fn view(&self) -> PreprocessorErrorKindView {
        match self {
            PreprocessorErrorKind::IncludeMissingFilePath => {
                PreprocessorErrorKindView::IncludeMissingFilePath
            },
            PreprocessorErrorKind::DefineMissingIdentifier => {
                PreprocessorErrorKindView::DefineMissingIdentifier
            },
            PreprocessorErrorKind::DefineMissingValue(a) => {
                PreprocessorErrorKindView::DefineMissingValue(a@)
            },
            PreprocessorErrorKind::CannotOpenSourceFile(a) => {
                PreprocessorErrorKindView::CannotOpenSourceFile(a@)
            },
            PreprocessorErrorKind::DobleInclusion(a) => PreprocessorErrorKindView::DobleInclusion(
                a@,
            ),
            PreprocessorErrorKind::DefineMultipleDefinition(a) => {
                PreprocessorErrorKindView::DefineMultipleDefinition(a@)
            },
            PreprocessorErrorKind::DefineUndefined(a) => PreprocessorErrorKindView::DefineUndefined(
                a@,
            ),
            PreprocessorErrorKind::Unknown => PreprocessorErrorKindView::Unknown,
        }
    }
}

/// A diagnostic of the preprocessor: what went wrong and, where known, on
/// which line.
#[derive(Debug, Clone, PartialEq)]
pub struct PreprocessorError {
    pub kind: PreprocessorErrorKind,
    pub location: Option<LineLocation>,
}

/// Mathematical model of a `PreprocessorError`.
pub struct PreprocessorErrorView {
    pub kind: PreprocessorErrorKindView,
    pub location: Option<LineLocationView>,
}

impl View for PreprocessorError {
    type V = PreprocessorErrorView;

    open spec fn view(&self) -> PreprocessorErrorView {
        PreprocessorErrorView {
            kind: self.kind@,
            location: match self.location {
                Some(location) => Some(location@),
                None => None,
            },
        }
    }
}

/// The model of each diagnostic of a list.
pub open spec fn preprocessor_errors_view(errors: Seq<PreprocessorError>) -> Seq<
    PreprocessorErrorView,
> {
    Seq::new(errors.len(), |i: int| errors[i]@)
}

/// The text of a diagnostic of the preprocessor.
pub open spec fn spec_preprocessor_message(kind: PreprocessorErrorKindView) -> Seq<char> {
    match kind {
        PreprocessorErrorKindView::IncludeMissingFilePath => "missing file path for %include"@,
        PreprocessorErrorKindView::DefineMissingIdentifier => "missing identifier for %define"@,
        PreprocessorErrorKindView::DefineMissingValue(a) => "missing value for %define \""@ + a
            + "\""@,
        PreprocessorErrorKindView::CannotOpenSourceFile(a) => "unable to find source file \""@ + a
            + "\": "@,
        PreprocessorErrorKindView::DobleInclusion(a) => "double %include for file \""@ + a
            + "\""@,
        PreprocessorErrorKindView::DefineUndefined(a) => "no %define for identifier \""@ + a
            + "\""@,
        PreprocessorErrorKindView::DefineMultipleDefinition(a) => {
            "multiple %define for identifier \""@ + a + "\""@
        },
        PreprocessorErrorKindView::Unknown => "unkown error"@,
    }
}

fn quoted(before: &str, text: &str, after: &str) -> (message: String)
    ensures
        message@ == before@ + text@ + after@,
{
    let mut message = String::from_str(before);
    message.append(text);
    message.append(after);
    message
}

impl PreprocessorError {
    /// The text of the diagnostic.
    pub fn message(&self) -> (text: String)
        ensures
            text@ == spec_preprocessor_message(self.kind@),
    {
        match &self.kind {
            PreprocessorErrorKind::IncludeMissingFilePath => {
                String::from_str("missing file path for %include")
            },
            PreprocessorErrorKind::DefineMissingIdentifier => {
                String::from_str("missing identifier for %define")
            },
            PreprocessorErrorKind::DefineMissingValue(ident) => {
                quoted("missing value for %define \"", ident.as_str(), "\"")
            },
            PreprocessorErrorKind::CannotOpenSourceFile(file_path) => {
                quoted("unable to find source file \"", file_path.as_str(), "\": ")
            },
            PreprocessorErrorKind::DobleInclusion(file_path) => {
                quoted("double %include for file \"", file_path.as_str(), "\"")
            },
            PreprocessorErrorKind::DefineUndefined(identifier) => {
                quoted("no %define for identifier \"", identifier.as_str(), "\"")
            },
            PreprocessorErrorKind::DefineMultipleDefinition(identifier) => {
                quoted("multiple %define for identifier \"", identifier.as_str(), "\"")
            },
            PreprocessorErrorKind::Unknown => String::from_str("unkown error"),
        }
    }
}

/// A data register as a diagnostic shows it.
pub open spec fn spec_data_register_display_value(reg: DataRegister) -> Seq<char> {
    match reg {
        DataRegister::R1 => "$R1"@,
        DataRegister::R2 => "$R2"@,
        DataRegister::R3 => "$R3"@,
        DataRegister::R4 => "$R4"@,
        DataRegister::R5 => "$R5"@,
        DataRegister::R6 => "$R6"@,
        DataRegister::R7 => "$R7"@,
    }
}

/// A base register as a diagnostic shows it.
pub open spec fn spec_base_register_display_value(reg: BaseRegister) -> Seq<char> {
    match reg {
        BaseRegister::B1 => "$B1"@,
        BaseRegister::B2 => "$B2"@,
        BaseRegister::B3 => "$B3"@,
        BaseRegister::B4 => "$B4"@,
        BaseRegister::B5 => "$B5"@,
        BaseRegister::B6 => "$B6"@,
        BaseRegister::B7 => "$B7"@,
    }
}

/// A data register as a diagnostic shows it.
pub fn get_data_register_display_value(reg: &DataRegister) -> (text: &'static str)
    ensures
        text@ == spec_data_register_display_value(*reg),
{
    match reg {
        DataRegister::R1 => "$R1",
        DataRegister::R2 => "$R2",
        DataRegister::R3 => "$R3",
        DataRegister::R4 => "$R4",
        DataRegister::R5 => "$R5",
        DataRegister::R6 => "$R6",
        DataRegister::R7 => "$R7",
    }
}

/// A base register as a diagnostic shows it.
pub fn get_base_register_display_value(reg: &BaseRegister) -> (text: &'static str)
    ensures
        text@ == spec_base_register_display_value(*reg),
{
    match reg {
        BaseRegister::B1 => "$B1",
        BaseRegister::B2 => "$B2",
        BaseRegister::B3 => "$B3",
        BaseRegister::B4 => "$B4",
        BaseRegister::B5 => "$B5",
        BaseRegister::B6 => "$B6",
        BaseRegister::B7 => "$B7",
    }
}

/// The text of a diagnostic: what went wrong, with the fragment, the mnemonic
/// or the value that it is about. Values are shown in decimal, and those that
/// were checked against a field also by their bit pattern in hexadecimal.
pub open spec fn spec_message(kind: AssemblerErrorKindView) -> Seq<char> {
    match kind {
        AssemblerErrorKindView::LabelDoubleDefinition(a) => {
            "Double definition for label: \""@
                + a
                + "\""@
        },
        AssemblerErrorKindView::MnemonicRequired => "a mnemonic is required"@,
        AssemblerErrorKindView::UnkownMnemonic(a) => "unkown mnemonic: \""@ + a + "\""@,
        AssemblerErrorKindView::MalformedArgumentList => "malformed argument list"@,
        AssemblerErrorKindView::WrongNumberOfArguments(a, b, c) => {
            a.spec_text()
                + " takes "@
                + spec_decimal(b as nat)
                + " arguments, got "@
                + spec_decimal(c as nat)
        },
        AssemblerErrorKindView::InvalidAddress(a) => "invalid address: \""@ + a + "\""@,
        AssemblerErrorKindView::UnexpectedCharactersAtEndOfArgument(a) => {
            "unexpected characters at end of argument: \""@
                + a
                + "\""@
        },
        AssemblerErrorKindView::InvalidBranchLocation(a) => {
            "invalid branch location: \""@
                + a
                + "\""@
        },
        AssemblerErrorKindView::InvalidDataRegister(a) => "invalid data register: \""@ + a + "\""@,
        AssemblerErrorKindView::InvalidBaseRegister(a) => "invalid register: \""@ + a + "\""@,
        AssemblerErrorKindView::InvalidModeControlRegister(a) => {
            "invalid base register: \""@
                + a
                + "\""@
        },
        AssemblerErrorKindView::InvalidImmediateValue(a) => {
            "invalid immediate value: \""@
                + a
                + "\""@
        },
        AssemblerErrorKindView::InvalidDataDefinitionChunk(a) => {
            "invalid definition chunk: \""@
                + a
                + "\""@
        },
        AssemblerErrorKindView::InvalidAddressSyllable(a) => {
            "invalid address syllable: \""@
                + a
                + "\""@
        },
        AssemblerErrorKindView::WrongRegisterType(a, b) => {
            "wrong register type for "@
                + b.spec_text()
                + ": \""@
                + a
                + "\""@
        },
        AssemblerErrorKindView::RegisterAddressingInvalid(a) => {
            "register addressing invalid for "@
                + a.spec_text()
        },
        AssemblerErrorKindView::ImmediateAddressingInvalid(a) => {
            "immediate addressing invalid for "@
                + a.spec_text()
        },
        AssemblerErrorKindView::InvalidMaskWord(a) => "invalid mask word: "@ + a,
        AssemblerErrorKindView::BranchAddressOutOfRange(a) => {
            "address out of range: "@
                + spec_prefixed_hex_u64(a)
        },
        AssemblerErrorKindView::BranchLongDisplacementOutOfRange(a) => {
            "long displacement out of range: "@
                + spec_signed_decimal(a as int)
        },
        AssemblerErrorKindView::BranchShortDisplacementOutOfRange(a) => {
            "short displacement out of range: "@
                + spec_signed_decimal(a as int)
        },
        AssemblerErrorKindView::BranchShortDisplacementMustNotBe0Or1 => {
            "short displacement must not be 0 or 1"@
        },
        AssemblerErrorKindView::WordDisplacementOutOfRange(a) => {
            "word displacement out of range: "@
                + spec_signed_decimal(a as int)
        },
        AssemblerErrorKindView::ShortImmediateValueOutOfRange(a) => {
            "short immediate value out of range: ("@
                + spec_prefixed_hex_i128(a)
                + ") "@
                + spec_signed_decimal(a as int)
        },
        AssemblerErrorKindView::UndefinedLabel(a) => "undefined label: \""@ + a + "\""@,
        AssemblerErrorKindView::DataDefinitionValueOutOfRange(a) => {
            "data definition value out of range: ("@
                + spec_prefixed_hex_i128(a)
                + ") "@
                + spec_signed_decimal(a as int)
        },
        AssemblerErrorKindView::ImmediateValueOutOfRange(a) => {
            "immediate value out of range: ("@
                + spec_prefixed_hex_i128(a)
                + ") "@
                + spec_signed_decimal(a as int)
        },
        AssemblerErrorKindView::InvalidIndexRegister(a) => {
            "invalid index register: "@
                + spec_data_register_display_value(a)
                + " "@
        },
        AssemblerErrorKindView::ImmediateAddressOutOfRange(a) => {
            "immediate address out of range: ("@
                + spec_prefixed_hex_u64(a)
                + ") "@
                + spec_decimal(a as nat)
        },
        AssemblerErrorKindView::DisplacementOutOfRange(a) => {
            "displacement out of range: "@
                + spec_signed_decimal(a as int)
        },
        AssemblerErrorKindView::InvalidBaseRegisterAddrSyl(a) => {
            "invalid base register: "@
                + spec_base_register_display_value(a)
        },
        AssemblerErrorKindView::MaskWordOutOfRange(a) => {
            "mask word out of range: ("@
                + spec_prefixed_hex_i128(a)
                + ") "@
                + spec_signed_decimal(a as int)
        },
        AssemblerErrorKindView::ShiftDistanceOutOfRange(a) => {
            "shift distance out of range: "@
                + spec_decimal(a as nat)
        },
        AssemblerErrorKindView::ChannelOutOfRange(a) => {
            "channel out of range: "@
                + spec_decimal(a as nat)
        },
        AssemblerErrorKindView::FunctionCodeOutOfRange(a) => {
            "function code out of range: "@
                + spec_decimal(a as nat)
        },
    }
}

impl AssemblerError {
    /// The text of the diagnostic.
    pub fn message(&self) -> (text: String)
        ensures
            text@ == spec_message(self.kind@),
    {
        match &self.kind {
            AssemblerErrorKind::LabelDoubleDefinition(a) => {
                let mut text = String::from_str("Double definition for label: \"");
                text.append(a.as_str());
                text.append("\"");
                text
            },
            AssemblerErrorKind::MnemonicRequired => {
                String::from_str("a mnemonic is required")
            },
            AssemblerErrorKind::UnkownMnemonic(a) => {
                let mut text = String::from_str("unkown mnemonic: \"");
                text.append(a.as_str());
                text.append("\"");
                text
            },
            AssemblerErrorKind::MalformedArgumentList => {
                String::from_str("malformed argument list")
            },
            AssemblerErrorKind::WrongNumberOfArguments(a, b, c) => {
                let mut text = String::from_str(a.display_value());
                text.append(" takes ");
                text.append(decimal(*b as u128).as_str());
                text.append(" arguments, got ");
                text.append(decimal(*c as u128).as_str());
                text
            },
            AssemblerErrorKind::InvalidAddress(a) => {
                let mut text = String::from_str("invalid address: \"");
                text.append(a.as_str());
                text.append("\"");
                text
            },
            AssemblerErrorKind::UnexpectedCharactersAtEndOfArgument(a) => {
                let mut text = String::from_str("unexpected characters at end of argument: \"");
                text.append(a.as_str());
                text.append("\"");
                text
            },
            AssemblerErrorKind::InvalidBranchLocation(a) => {
                let mut text = String::from_str("invalid branch location: \"");
                text.append(a.as_str());
                text.append("\"");
                text
            },
            AssemblerErrorKind::InvalidDataRegister(a) => {
                let mut text = String::from_str("invalid data register: \"");
                text.append(a.as_str());
                text.append("\"");
                text
            },
            AssemblerErrorKind::InvalidBaseRegister(a) => {
                let mut text = String::from_str("invalid register: \"");
                text.append(a.as_str());
                text.append("\"");
                text
            },
            AssemblerErrorKind::InvalidModeControlRegister(a) => {
                let mut text = String::from_str("invalid base register: \"");
                text.append(a.as_str());
                text.append("\"");
                text
            },
            AssemblerErrorKind::InvalidImmediateValue(a) => {
                let mut text = String::from_str("invalid immediate value: \"");
                text.append(a.as_str());
                text.append("\"");
                text
            },
            AssemblerErrorKind::InvalidDataDefinitionChunk(a) => {
                let mut text = String::from_str("invalid definition chunk: \"");
                text.append(a.as_str());
                text.append("\"");
                text
            },
            AssemblerErrorKind::InvalidAddressSyllable(a) => {
                let mut text = String::from_str("invalid address syllable: \"");
                text.append(a.as_str());
                text.append("\"");
                text
            },
            AssemblerErrorKind::WrongRegisterType(a, b) => {
                let mut text = String::from_str("wrong register type for ");
                text.append(b.display_value());
                text.append(": \"");
                text.append(a.as_str());
                text.append("\"");
                text
            },
            AssemblerErrorKind::RegisterAddressingInvalid(a) => {
                let mut text = String::from_str("register addressing invalid for ");
                text.append(a.display_value());
                text
            },
            AssemblerErrorKind::ImmediateAddressingInvalid(a) => {
                let mut text = String::from_str("immediate addressing invalid for ");
                text.append(a.display_value());
                text
            },
            AssemblerErrorKind::InvalidMaskWord(a) => {
                let mut text = String::from_str("invalid mask word: ");
                text.append(a.as_str());
                text
            },
            AssemblerErrorKind::BranchAddressOutOfRange(a) => {
                let mut text = String::from_str("address out of range: ");
                text.append(prefixed_hex_u64(*a).as_str());
                text
            },
            AssemblerErrorKind::BranchLongDisplacementOutOfRange(a) => {
                let mut text = String::from_str("long displacement out of range: ");
                text.append(signed_decimal(*a).as_str());
                text
            },
            AssemblerErrorKind::BranchShortDisplacementOutOfRange(a) => {
                let mut text = String::from_str("short displacement out of range: ");
                text.append(signed_decimal(*a).as_str());
                text
            },
            AssemblerErrorKind::BranchShortDisplacementMustNotBe0Or1 => {
                String::from_str("short displacement must not be 0 or 1")
            },
            AssemblerErrorKind::WordDisplacementOutOfRange(a) => {
                let mut text = String::from_str("word displacement out of range: ");
                text.append(signed_decimal(*a).as_str());
                text
            },
            AssemblerErrorKind::ShortImmediateValueOutOfRange(a) => {
                let mut text = String::from_str("short immediate value out of range: (");
                text.append(prefixed_hex_i128(*a).as_str());
                text.append(") ");
                text.append(signed_decimal(*a).as_str());
                text
            },
            AssemblerErrorKind::UndefinedLabel(a) => {
                let mut text = String::from_str("undefined label: \"");
                text.append(a.as_str());
                text.append("\"");
                text
            },
            AssemblerErrorKind::DataDefinitionValueOutOfRange(a) => {
                let mut text = String::from_str("data definition value out of range: (");
                text.append(prefixed_hex_i128(*a).as_str());
                text.append(") ");
                text.append(signed_decimal(*a).as_str());
                text
            },
            AssemblerErrorKind::ImmediateValueOutOfRange(a) => {
                let mut text = String::from_str("immediate value out of range: (");
                text.append(prefixed_hex_i128(*a).as_str());
                text.append(") ");
                text.append(signed_decimal(*a).as_str());
                text
            },
            AssemblerErrorKind::InvalidIndexRegister(a) => {
                let mut text = String::from_str("invalid index register: ");
                text.append(get_data_register_display_value(a));
                text.append(" ");
                text
            },
            AssemblerErrorKind::ImmediateAddressOutOfRange(a) => {
                let mut text = String::from_str("immediate address out of range: (");
                text.append(prefixed_hex_u64(*a).as_str());
                text.append(") ");
                text.append(decimal(*a as u128).as_str());
                text
            },
            AssemblerErrorKind::DisplacementOutOfRange(a) => {
                let mut text = String::from_str("displacement out of range: ");
                text.append(signed_decimal(*a).as_str());
                text
            },
            AssemblerErrorKind::InvalidBaseRegisterAddrSyl(a) => {
                let mut text = String::from_str("invalid base register: ");
                text.append(get_base_register_display_value(a));
                text
            },
            AssemblerErrorKind::MaskWordOutOfRange(a) => {
                let mut text = String::from_str("mask word out of range: (");
                text.append(prefixed_hex_i128(*a).as_str());
                text.append(") ");
                text.append(signed_decimal(*a).as_str());
                text
            },
            AssemblerErrorKind::ShiftDistanceOutOfRange(a) => {
                let mut text = String::from_str("shift distance out of range: ");
                text.append(decimal(*a as u128).as_str());
                text
            },
            AssemblerErrorKind::ChannelOutOfRange(a) => {
                let mut text = String::from_str("channel out of range: ");
                text.append(decimal(*a as u128).as_str());
                text
            },
            AssemblerErrorKind::FunctionCodeOutOfRange(a) => {
                let mut text = String::from_str("function code out of range: ");
                text.append(decimal(*a as u128).as_str());
                text
            },
        }
    }
}

} // verus!
