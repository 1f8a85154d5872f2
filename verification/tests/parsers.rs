use level6::assembler::parsers::arguments::{
    parse_address_syllable_arg, parse_branch_location_arg, parse_data_register_arg,
    parse_definition_chunk_arg, parse_immediate_value_arg, parse_string_to_i128s,
};
use level6::assembler::parsers::numbers::{
    parse_hex_u64, parse_immediate_value, parse_immediate_value_contents,
};
use level6::assembler::parsers::statement::{parse_label, parse_mnemonic_and_args, parse_statement};
use level6::assembler::statements::{
    AddressExpression, AddressSyllable, BRelativeAddress, BRelativeAddressMode, BaseRegister,
    BranchLocation, BranchOnIndicatorsOpCode, DataRegister, ImmediateAddress,
    ImmediateAddressMode, IncDec, PRelativeAddress, Register, Statement,
};

#[test]
fn parse_label_succ() {
    let tests = [
        (
            "loop: ldr, something, something",
            "LOOP",
            " ldr, something, something",
        ),
        ("also_a_valid_label76:", "ALSO_A_VALID_LABEL76", ""),
    ];
    for (input, exp_output, exp_remaining) in tests {
        let (remaining, output) = parse_label(input).unwrap();
        assert_eq!(output, exp_output);
        assert_eq!(remaining, exp_remaining);
    }
}

#[test]
fn parse_label_err() {
    let tests = [("", false), ("abcde", false), ("lab&el:", false)];
    for (input, exp_failure) in tests {
        assert!(!exp_failure);
        assert!(parse_label(input).is_none());
    }
}

#[test]
fn parse_hex_u64_succ() {
    let tests = [("0x00 ciaone", 0, " ciaone"), ("0x11", 17, "")];
    for (input, exp_output, exp_remaining) in tests {
        let (remaining, output) = parse_hex_u64(input).unwrap();
        assert_eq!(output, exp_output);
        assert_eq!(remaining, exp_remaining);
    }
}

#[test]
fn parse_hex_u64_err() {
    let tests = [
        ("", false),
        ("abcde", false),
        ("   0x123", false),
        ("0x999999999999999999999999999999999", false),
    ];
    for (input, exp_failure) in tests {
        assert!(!exp_failure);
        assert!(parse_hex_u64(input).is_none());
    }
}

#[test]
fn parse_mnemonic_and_args_succ() {
    let tests = [
        (
            "mnemo arg1, arg2, arg3",
            (
                "mnemo",
                vec!["arg1".to_owned(), "arg2".to_owned(), "arg3".to_owned()],
            ),
            "",
        ),
        (".ORG", (".ORG", vec![]), ""),
        (".DB \"a,b\"", (".DB", vec!["\"a,b\"".to_owned()]), ""),
        // (".org 0x0", Statement::Org(0x0), ""),
    ];
    for (input, exp_output, exp_remaining) in tests {
        let (remaining, output) = parse_mnemonic_and_args(input).unwrap();
        assert_eq!(output, exp_output);
        assert_eq!(remaining, exp_remaining);
    }
}

#[test]
fn parse_mnemonic_and_args_err() {
    let tests = [(",", true)];
    for (input, exp_failure) in tests {
        assert!(exp_failure);
        parse_mnemonic_and_args(input).unwrap_err();
    }
}

#[test]
fn parse_statement_succ() {
    let tests = [
        // Org
        (".org 0x100", Statement::Org(0x100), ""),
        // BranchOnIndicators
        (
            "BL <0x1234",
            Statement::BranchOnIndicators(
                BranchOnIndicatorsOpCode::BL,
                BranchLocation::Absolute(AddressExpression::Immediate(0x1234)),
            ),
            "",
        ),
        (
            "BG <0x1234",
            Statement::BranchOnIndicators(
                BranchOnIndicatorsOpCode::BG,
                BranchLocation::Absolute(AddressExpression::Immediate(0x1234)),
            ),
            "",
        ),
        (
            "BLE <0x1234",
            Statement::BranchOnIndicators(
                BranchOnIndicatorsOpCode::BLE,
                BranchLocation::Absolute(AddressExpression::Immediate(0x1234)),
            ),
            "",
        ),
        (
            "BOV <0x1234",
            Statement::BranchOnIndicators(
                BranchOnIndicatorsOpCode::BOV,
                BranchLocation::Absolute(AddressExpression::Immediate(0x1234)),
            ),
            "",
        ),
        (
            "BNOV <0x1234",
            Statement::BranchOnIndicators(
                BranchOnIndicatorsOpCode::BNOV,
                BranchLocation::Absolute(AddressExpression::Immediate(0x1234)),
            ),
            "",
        ),
        (
            "BBT <0x1234",
            Statement::BranchOnIndicators(
                BranchOnIndicatorsOpCode::BBT,
                BranchLocation::Absolute(AddressExpression::Immediate(0x1234)),
            ),
            "",
        ),
        (
            "BBF <0x1234",
            Statement::BranchOnIndicators(
                BranchOnIndicatorsOpCode::BBF,
                BranchLocation::Absolute(AddressExpression::Immediate(0x1234)),
            ),
            "",
        ),
        (
            "BCT <0x1234",
            Statement::BranchOnIndicators(
                BranchOnIndicatorsOpCode::BCT,
                BranchLocation::Absolute(AddressExpression::Immediate(0x1234)),
            ),
            "",
        ),
    ];
    for (input, exp_output, exp_remaining) in tests {
        let (remaining, output) = parse_statement(input).unwrap();
        assert_eq!(output, exp_output);
        assert_eq!(remaining, exp_remaining);
    }
}

#[test]
fn parse_branch_location_arg_succ() {
    let tests = [
        (
            "<0x10",
            BranchLocation::Absolute(AddressExpression::Immediate(0x10)),
        ),
        (
            "<LABEL",
            BranchLocation::Absolute(AddressExpression::Label("LABEL".to_owned())),
        ),
        (
            "<+5",
            BranchLocation::Absolute(AddressExpression::WordDisplacement(5)),
        ),
        (
            "0x99",
            BranchLocation::LongDisplacement(AddressExpression::Immediate(0x99)),
        ),
        (
            "loop",
            BranchLocation::LongDisplacement(AddressExpression::Label("LOOP".to_owned())),
        ),
        (
            "-10",
            BranchLocation::LongDisplacement(AddressExpression::WordDisplacement(-10)),
        ),
        (
            ">0x1234",
            BranchLocation::ShortDisplacement(AddressExpression::Immediate(0x1234)),
        ),
        (
            ">DO_THING",
            BranchLocation::ShortDisplacement(AddressExpression::Label("DO_THING".to_owned())),
        ),
        (
            ">+9999",
            BranchLocation::ShortDisplacement(AddressExpression::WordDisplacement(9999)),
        ),
    ];
    for (input, exp_output) in tests {
        let output = parse_branch_location_arg(input).unwrap();
        assert_eq!(output, exp_output);
    }
}

#[test]
fn parse_data_register_arg_succ() {
    let tests = [
        ("$R1", DataRegister::R1),
        ("$R2", DataRegister::R2),
        ("$R3", DataRegister::R3),
        ("$R4", DataRegister::R4),
        ("$r5", DataRegister::R5),
        ("$r6", DataRegister::R6),
        ("$r7", DataRegister::R7),
    ];
    for (input, exp_output) in tests {
        let output = parse_data_register_arg(input).unwrap();
        assert_eq!(output, exp_output);
    }
}

#[test]
fn parse_data_register_arg_err() {
    let tests = ["notaregister", "", "$R1 ciao"];
    for input in tests {
        parse_data_register_arg(input).unwrap_err();
    }
}

#[test]
fn parse_immediate_value_arg_err() {
    let tests = ["notimmediate", "", "=123 ciao"];
    for input in tests {
        parse_immediate_value_arg(input).unwrap_err();
    }
}

#[test]
fn parse_immediate_value_succ() {
    let tests = [("=10", "", 10), ("=0x1234notnumber", "notnumber", 0x1234)];
    for (input, exp_rem, exp_output) in tests {
        let (input, output) = parse_immediate_value(input).unwrap();
        assert_eq!(output, exp_output);
        assert_eq!(input, exp_rem);
    }
}

#[test]
fn parse_immediate_value_err() {
    let tests = ["1234", "0x123"];
    for input in tests {
        assert!(parse_immediate_value(input).is_none());
    }
}

#[test]
fn parse_immediate_value_contents_succ() {
    let tests = [
        ("1", "", 1),
        ("-1", "", -1),
        ("+9999", "", 9999),
        ("0x100", "", 256),
        ("1234ciao", "ciao", 1234),
        ("-1234  ", "  ", -1234),
        ("0x00000000000,test", ",test", 0),
    ];
    for (input, exp_rem, exp_output) in tests {
        let (input, output) = parse_immediate_value_contents(input).unwrap();
        assert_eq!(output, exp_output);
        assert_eq!(input, exp_rem);
    }
}

#[test]
fn parse_immediate_value_contents_err() {
    let tests = ["notimmediate", ""];
    for input in tests {
        assert!(parse_immediate_value_contents(input).is_none());
    }
}

#[test]
fn parse_string_to_i128s_succ() {
    let tests = [
        (
            "\"test\"",
            "",
            vec!['t' as i128, 'e' as i128, 's' as i128, 't' as i128],
        ),
        (
            "\"\\0 hello\n\"",
            "",
            vec![
                '\0' as i128,
                ' ' as i128,
                'h' as i128,
                'e' as i128,
                'l' as i128,
                'l' as i128,
                'o' as i128,
                '\n' as i128,
            ],
        ),
        (
            "\"\\0\\n\\r\\t\\\\\\i\"",
            "",
            vec![
                '\0' as i128,
                '\n' as i128,
                '\r' as i128,
                '\t' as i128,
                '\\' as i128,
                'i' as i128,
            ],
        ),
    ];
    for (input, exp_rem, exp_output) in tests {
        let (input, output) = parse_string_to_i128s(input).unwrap();
        assert_eq!(output, exp_output);
        assert_eq!(input, exp_rem);
    }
}

#[test]
fn parse_string_to_i128s_err() {
    let tests = ["nostring", "", "ciao\\"];
    for input in tests {
        assert!(parse_string_to_i128s(input).is_none());
    }
}

#[test]
fn parse_definition_chunk_arg_succ() {
    let tests = [
        ("100", vec![100i128]),
        ("0x10", vec![16i128]),
        ("\"abc\"", vec!['a' as i128, 'b' as i128, 'c' as i128]),
    ];
    for (input, exp_output) in tests {
        let output = parse_definition_chunk_arg(input).unwrap();
        assert_eq!(output, exp_output);
    }
}

#[test]
fn parse_address_expression_arg_succ() {
    let tests = [
        (
            "=$R1",
            AddressSyllable::RegisterAddressing(Register::Data(DataRegister::R1)),
        ),
        (
            "=$B3",
            AddressSyllable::RegisterAddressing(Register::Base(BaseRegister::B3)),
        ),
        ("=-42", AddressSyllable::ImmediateOperand(-42)),
        (
            "<TEST",
            AddressSyllable::ImmediateAddressing(ImmediateAddressMode::Direct(
                ImmediateAddress::Simple(AddressExpression::Label("TEST".to_owned())),
            )),
        ),
        (
            "*<0x1234",
            AddressSyllable::ImmediateAddressing(ImmediateAddressMode::Indirect(
                ImmediateAddress::Simple(AddressExpression::Immediate(0x1234)),
            )),
        ),
        (
            "<-3.$R1",
            AddressSyllable::ImmediateAddressing(ImmediateAddressMode::Direct(
                ImmediateAddress::Indexed(
                    AddressExpression::WordDisplacement(-3),
                    DataRegister::R1,
                ),
            )),
        ),
        (
            "*<0x0000.$R2",
            AddressSyllable::ImmediateAddressing(ImmediateAddressMode::Indirect(
                ImmediateAddress::Indexed(AddressExpression::Immediate(0), DataRegister::R2),
            )),
        ),
        (
            "LOOP",
            AddressSyllable::PRelative(PRelativeAddress::Direct(AddressExpression::Label(
                "LOOP".to_owned(),
            ))),
        ),
        (
            "0x2000",
            AddressSyllable::PRelative(PRelativeAddress::Direct(AddressExpression::Immediate(
                0x2000,
            ))),
        ),
        (
            "$B1",
            AddressSyllable::BRelative(BRelativeAddressMode::Direct(BRelativeAddress::Simple(
                BaseRegister::B1,
            ))),
        ),
        (
            "*$B2",
            AddressSyllable::BRelative(BRelativeAddressMode::Indirect(
                BRelativeAddress::Simple(BaseRegister::B2),
            )),
        ),
        (
            "$B3.$R1",
            AddressSyllable::BRelative(BRelativeAddressMode::Direct(
                BRelativeAddress::Indexed(BaseRegister::B3, DataRegister::R1),
            )),
        ),
        (
            "*$B4.$R2",
            AddressSyllable::BRelative(BRelativeAddressMode::Indirect(
                BRelativeAddress::Indexed(BaseRegister::B4, DataRegister::R2),
            )),
        ),
        (
            "$B5.+13",
            AddressSyllable::BRelative(BRelativeAddressMode::Direct(
                BRelativeAddress::Displacement(BaseRegister::B5, 13),
            )),
        ),
        (
            "*$B6.-2",
            AddressSyllable::BRelative(BRelativeAddressMode::Indirect(
                BRelativeAddress::Displacement(BaseRegister::B6, -2),
            )),
        ),
        (
            "+$B7",
            AddressSyllable::BRelative(BRelativeAddressMode::PushPop(
                BaseRegister::B7,
                IncDec::Increment,
            )),
        ),
        (
            "-$B1",
            AddressSyllable::BRelative(BRelativeAddressMode::PushPop(
                BaseRegister::B1,
                IncDec::Decrement,
            )),
        ),
        (
            "$B2.+$R1",
            AddressSyllable::BRelative(BRelativeAddressMode::IncDecIndexed(
                BaseRegister::B2,
                DataRegister::R1,
                IncDec::Increment,
            )),
        ),
        (
            "$B3.-$R2",
            AddressSyllable::BRelative(BRelativeAddressMode::IncDecIndexed(
                BaseRegister::B3,
                DataRegister::R2,
                IncDec::Decrement,
            )),
        ),
    ];
    for (input, exp_output) in tests {
        let output = parse_address_syllable_arg(input).unwrap();
        assert_eq!(output, exp_output);
    }
}
