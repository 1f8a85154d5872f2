use level6::assembler::errors::{AssemblerError, AssemblerErrorKind};
use level6::assembler::mnemonics::{Mnemonic, StatementKind, MNEMONIC_COUNT};
use level6::assembler::statements::{BaseRegister, DataRegister};
use level6::logging::{get_base_register_display_value, get_data_register_display_value};
use level6::text::{
    decimal, digits, hex_upper, prefixed_hex_i128, prefixed_hex_u64, signed_decimal, zero_padded,
};

fn message(kind: AssemblerErrorKind) -> String {
    AssemblerError {
        kind,
        location: None,
    }
    .message()
}

#[test]
fn numbers_as_text() {
    assert_eq!(hex_upper(0), "0");
    assert_eq!(hex_upper(0xABCDEF), "ABCDEF");
    assert_eq!(hex_upper(u128::MAX), "FFFFFFFFFFFFFFFFFFFFFFFFFFFFFFFF");
    assert_eq!(decimal(0), "0");
    assert_eq!(decimal(9), "9");
    assert_eq!(decimal(10), "10");
    assert_eq!(decimal(u128::MAX), u128::MAX.to_string());
    assert_eq!(digits(255, true), "FF");
    assert_eq!(digits(255, false), "255");
    assert_eq!(signed_decimal(0), "0");
    assert_eq!(signed_decimal(-1), "-1");
    assert_eq!(signed_decimal(i128::MIN), i128::MIN.to_string());
    assert_eq!(signed_decimal(i128::MAX), i128::MAX.to_string());
    assert_eq!(prefixed_hex_i128(255), "0xFF");
    assert_eq!(prefixed_hex_i128(-1), format!("{:#X}", -1i128));
    assert_eq!(prefixed_hex_i128(-129), format!("{:#X}", -129i128));
    assert_eq!(prefixed_hex_i128(i128::MIN), format!("{:#X}", i128::MIN));
    assert_eq!(prefixed_hex_i128(i128::MAX), format!("{:#X}", i128::MAX));
    assert_eq!(prefixed_hex_u64(0), "0x0");
    assert_eq!(prefixed_hex_u64(u64::MAX), format!("{:#X}", u64::MAX));
    assert_eq!(zero_padded("1", 4), "0001");
    assert_eq!(zero_padded("1234", 4), "1234");
    assert_eq!(zero_padded("12345", 4), "12345");
    assert_eq!(zero_padded("", 2), "00");
    for value in [0u64, 1, 0xF, 0x10, 0xFFF, 0x1000, 0xFFFF, 0x10000, u64::MAX] {
        assert_eq!(
            zero_padded(&hex_upper(value as u128), 4),
            format!("{:0>4X}", value)
        );
    }
}

#[test]
fn register_display_values() {
    assert_eq!(get_data_register_display_value(&DataRegister::R1), "$R1");
    assert_eq!(get_data_register_display_value(&DataRegister::R7), "$R7");
    assert_eq!(get_base_register_display_value(&BaseRegister::B1), "$B1");
    assert_eq!(get_base_register_display_value(&BaseRegister::B7), "$B7");
}

#[test]
fn mnemonic_table() {
    assert_eq!(Mnemonic::DotORG.display_value(), ".ORG");
    assert_eq!(Mnemonic::DotDQ.display_value(), ".DQ");
    assert_eq!(Mnemonic::BL.display_value(), "BL");
    assert_eq!(Mnemonic::DAR.display_value(), "DAR");
    assert_eq!(Mnemonic::DotORG.get_kind(), StatementKind::Org);
    assert_eq!(Mnemonic::DotDB.get_kind(), StatementKind::DataDefinition);
    assert_eq!(Mnemonic::B.get_kind(), StatementKind::BranchOnIndicators);
    assert_eq!(Mnemonic::NOP.get_kind(), StatementKind::NoOp);
    assert_eq!(Mnemonic::BDEC.get_kind(), StatementKind::BranchOnRegisters);
    assert_eq!(Mnemonic::MLV.get_kind(), StatementKind::ShortValueImmediate);
    assert_eq!(Mnemonic::INC.get_kind(), StatementKind::SingleOperandData);
    assert_eq!(Mnemonic::CMN.get_kind(), StatementKind::SingleOperandBase);
    assert_eq!(Mnemonic::JMP.get_kind(), StatementKind::SingleOperandMemonly);
    assert_eq!(Mnemonic::LEV.get_kind(), StatementKind::SingleOperandDataMasked);
    assert_eq!(Mnemonic::SAVE.get_kind(), StatementKind::SingleOperandMemonlyMasked);
    assert_eq!(Mnemonic::HLT.get_kind(), StatementKind::Generic);
    assert_eq!(Mnemonic::LDR.get_kind(), StatementKind::DoubleOperandData);
    assert_eq!(Mnemonic::SRM.get_kind(), StatementKind::DoubleOperandDataMasked);
    assert_eq!(Mnemonic::STB.get_kind(), StatementKind::DoubleOperandBase);
    assert_eq!(Mnemonic::LAB.get_kind(), StatementKind::DoubleOperandNoreg);
    assert_eq!(Mnemonic::LNJ.get_kind(), StatementKind::DoubleOperandMemonly);
    assert_eq!(Mnemonic::MTM.get_kind(), StatementKind::DoubleOperandMode);
    assert_eq!(Mnemonic::SOL.get_kind(), StatementKind::ShiftShort);
    assert_eq!(Mnemonic::DOL.get_kind(), StatementKind::ShiftLong);
    assert_eq!(Mnemonic::from_index(0), Some(Mnemonic::DotORG));
    assert_eq!(Mnemonic::from_index(MNEMONIC_COUNT - 1), Some(Mnemonic::DAR));
    assert_eq!(Mnemonic::from_index(MNEMONIC_COUNT), None);
    let mut texts = vec![];
    for index in 0..MNEMONIC_COUNT {
        texts.push(Mnemonic::from_index(index).unwrap().display_value());
    }
    let mut sorted = texts.clone();
    sorted.sort();
    sorted.dedup();
    assert_eq!(sorted.len(), MNEMONIC_COUNT);
}

#[test]
fn assembler_error_messages() {
    let text = || "x y".to_owned();
    assert_eq!(
        message(AssemblerErrorKind::LabelDoubleDefinition("LOOP".to_owned())),
        "Double definition for label: \"LOOP\""
    );
    assert_eq!(message(AssemblerErrorKind::MnemonicRequired), "a mnemonic is required");
    assert_eq!(
        message(AssemblerErrorKind::UnkownMnemonic(text())),
        "unkown mnemonic: \"x y\""
    );
    assert_eq!(
        message(AssemblerErrorKind::MalformedArgumentList),
        "malformed argument list"
    );
    assert_eq!(
        message(AssemblerErrorKind::WrongNumberOfArguments(Mnemonic::DotORG, 1, 12)),
        ".ORG takes 1 arguments, got 12"
    );
    assert_eq!(
        message(AssemblerErrorKind::InvalidAddress(text())),
        "invalid address: \"x y\""
    );
    assert_eq!(
        message(AssemblerErrorKind::UnexpectedCharactersAtEndOfArgument(text())),
        "unexpected characters at end of argument: \"x y\""
    );
    assert_eq!(
        message(AssemblerErrorKind::InvalidBranchLocation(text())),
        "invalid branch location: \"x y\""
    );
    assert_eq!(
        message(AssemblerErrorKind::InvalidDataRegister(text())),
        "invalid data register: \"x y\""
    );
    assert_eq!(
        message(AssemblerErrorKind::InvalidBaseRegister(text())),
        "invalid register: \"x y\""
    );
    assert_eq!(
        message(AssemblerErrorKind::InvalidModeControlRegister(text())),
        "invalid base register: \"x y\""
    );
    assert_eq!(
        message(AssemblerErrorKind::InvalidImmediateValue(text())),
        "invalid immediate value: \"x y\""
    );
    assert_eq!(
        message(AssemblerErrorKind::InvalidDataDefinitionChunk(text())),
        "invalid definition chunk: \"x y\""
    );
    assert_eq!(
        message(AssemblerErrorKind::InvalidAddressSyllable(text())),
        "invalid address syllable: \"x y\""
    );
    assert_eq!(
        message(AssemblerErrorKind::WrongRegisterType(text(), Mnemonic::INC)),
        "wrong register type for INC: \"x y\""
    );
    assert_eq!(
        message(AssemblerErrorKind::RegisterAddressingInvalid(Mnemonic::JMP)),
        "register addressing invalid for JMP"
    );
    assert_eq!(
        message(AssemblerErrorKind::ImmediateAddressingInvalid(Mnemonic::LNJ)),
        "immediate addressing invalid for LNJ"
    );
    assert_eq!(
        message(AssemblerErrorKind::InvalidMaskWord(text())),
        "invalid mask word: x y"
    );
    assert_eq!(
        message(AssemblerErrorKind::BranchAddressOutOfRange(0x10000)),
        "address out of range: 0x10000"
    );
    assert_eq!(
        message(AssemblerErrorKind::BranchLongDisplacementOutOfRange(-40000)),
        "long displacement out of range: -40000"
    );
    assert_eq!(
        message(AssemblerErrorKind::BranchShortDisplacementOutOfRange(64)),
        "short displacement out of range: 64"
    );
    assert_eq!(
        message(AssemblerErrorKind::BranchShortDisplacementMustNotBe0Or1),
        "short displacement must not be 0 or 1"
    );
    assert_eq!(
        message(AssemblerErrorKind::WordDisplacementOutOfRange(-5)),
        "word displacement out of range: -5"
    );
    assert_eq!(
        message(AssemblerErrorKind::ShortImmediateValueOutOfRange(-129)),
        "short immediate value out of range: (0xFFFFFFFFFFFFFFFFFFFFFFFFFFFFFF7F) -129"
    );
    assert_eq!(
        message(AssemblerErrorKind::UndefinedLabel("FOO".to_owned())),
        "undefined label: \"FOO\""
    );
    assert_eq!(
        message(AssemblerErrorKind::DataDefinitionValueOutOfRange(256)),
        "data definition value out of range: (0x100) 256"
    );
    assert_eq!(
        message(AssemblerErrorKind::ImmediateValueOutOfRange(65536)),
        "immediate value out of range: (0x10000) 65536"
    );
    assert_eq!(
        message(AssemblerErrorKind::InvalidIndexRegister(DataRegister::R4)),
        "invalid index register: $R4 "
    );
    assert_eq!(
        message(AssemblerErrorKind::ImmediateAddressOutOfRange(0x12345)),
        "immediate address out of range: (0x12345) 74565"
    );
    assert_eq!(
        message(AssemblerErrorKind::DisplacementOutOfRange(32768)),
        "displacement out of range: 32768"
    );
    assert_eq!(
        message(AssemblerErrorKind::InvalidBaseRegisterAddrSyl(BaseRegister::B4)),
        "invalid base register: $B4"
    );
    assert_eq!(
        message(AssemblerErrorKind::MaskWordOutOfRange(-1)),
        "mask word out of range: (0xFFFFFFFFFFFFFFFFFFFFFFFFFFFFFFFF) -1"
    );
    assert_eq!(
        message(AssemblerErrorKind::ShiftDistanceOutOfRange(16)),
        "shift distance out of range: 16"
    );
    assert_eq!(
        message(AssemblerErrorKind::ChannelOutOfRange(1024)),
        "channel out of range: 1024"
    );
    assert_eq!(
        message(AssemblerErrorKind::FunctionCodeOutOfRange(64)),
        "function code out of range: 64"
    );
}
