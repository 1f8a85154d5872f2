use level6::assembler::codegen::address_syllable::get_address_syllable_field_value;
use level6::assembler::codegen::codegen;
use level6::assembler::codegen::input_output::{
    codegen_input_output, ChannelExpression, InputOutputOpCode,
};
use level6::assembler::errors::AssemblerErrorKind;
use level6::assembler::labels::LabelTable;
use level6::assembler::mnemonics::Mnemonic;
use level6::assembler::parsers::arguments::{
    parse_address_syllable_arg, parse_base_register_arg, parse_branch_location_arg,
    parse_definition_chunk_arg, parse_escaped_block, parse_escaped_string,
    parse_escaped_string_contents, parse_hex_address_arg, parse_maskword_arg,
    parse_mode_control_register_arg, parse_shift_distance_arg,
};
use level6::assembler::parsers::numbers::{
    parse_bin_u64, parse_dec_i128, parse_dec_u64, parse_hex_u64, parse_immediate_value_contents,
};
use level6::text::scan::trim;
use level6::assembler::parsers::statement::{
    match_mnemonic, parse_code_line, parse_label, parse_mnemonic_and_args, parse_statement,
};
use level6::assembler::statements::{
    AddressExpression, AddressSyllable, BRelativeAddress, BRelativeAddressMode, BaseRegister,
    BranchLocation, BranchOnIndicatorsOpCode, DataDefinitionSize, DataRegister,
    DoubleOperandOpCode, GenericOpCode, ImmediateAddress, ImmediateAddressMode, IncDec,
    ModeControlRegister, Register, ShiftLongOpCode, ShiftShortOpCode, SingleOperandOpCode,
    Statement,
};

fn statement(text: &str) -> Result<Statement, AssemblerErrorKind> {
    parse_statement(text).map(|(rest, statement)| {
        assert_eq!(rest, "");
        statement
    })
}

#[test]
fn numbers_in_three_notations() {
    assert_eq!(parse_hex_u64("0XfF"), Some(("", 255)));
    assert_eq!(parse_hex_u64("0xFFFFFFFFFFFFFFFF"), Some(("", u64::MAX)));
    assert_eq!(parse_hex_u64("0x10000000000000000"), None);
    assert_eq!(parse_hex_u64("0x"), None);
    assert_eq!(parse_hex_u64("0xg"), None);
    assert_eq!(parse_bin_u64("0b101"), Some(("", 5)));
    assert_eq!(parse_bin_u64("0B11 x"), Some((" x", 3)));
    assert_eq!(parse_bin_u64("0b12"), None);
    assert_eq!(parse_bin_u64("0b"), None);
    assert_eq!(parse_dec_u64("18446744073709551615"), Some(("", u64::MAX)));
    assert_eq!(parse_dec_u64("18446744073709551616"), None);
    assert_eq!(parse_dec_u64("007x"), Some(("x", 7)));
    assert_eq!(parse_dec_i128("-18446744073709551615"), Some(("", -(u64::MAX as i128))));
    assert_eq!(parse_dec_i128("+5"), Some(("", 5)));
    assert_eq!(parse_dec_i128("+-5"), None);
    assert_eq!(parse_dec_i128("-"), None);
    // a number that is too long in one notation is read in the next one
    assert_eq!(
        parse_immediate_value_contents("0x10000000000000000"),
        Some(("x10000000000000000", 0))
    );
    assert_eq!(parse_immediate_value_contents("0b102"), Some(("b102", 0)));
}

#[test]
fn strings_and_escapes() {
    assert_eq!(
        parse_escaped_string("\"a\\n\\\"b\" rest"),
        Some((" rest", "a\n\"b".to_owned()))
    );
    assert_eq!(parse_escaped_string("\"\""), Some(("", "".to_owned())));
    assert_eq!(parse_escaped_string("\"open"), None);
    assert_eq!(parse_escaped_string("\"open\\"), None);
    assert_eq!(
        parse_escaped_string_contents("ab\\tc\"d"),
        Some(("\"d", "ab\tc".to_owned()))
    );
    assert_eq!(parse_escaped_string_contents(""), Some(("", "".to_owned())));
    assert_eq!(parse_escaped_string_contents("a\\"), Some(("\\", "a".to_owned())));
    assert_eq!(parse_escaped_block("\\nx"), Some(("x", "\n".to_owned())));
    assert_eq!(parse_escaped_block("\\r"), Some(("", "\r".to_owned())));
    assert_eq!(parse_escaped_block("\\0"), Some(("", "\0".to_owned())));
    assert_eq!(parse_escaped_block("\\q"), Some(("", "q".to_owned())));
    assert_eq!(parse_escaped_block("\\"), None);
    assert_eq!(parse_escaped_block("n"), None);
    assert_eq!(
        parse_definition_chunk_arg("\"\u{e9}\u{1F600}\""),
        Ok(vec![0xE9, 0x1F600])
    );
}

#[test]
fn white_space_and_letters_follow_unicode() {
    assert_eq!(trim("  \t a b \u{a0}\u{2003}\r\n"), "a b");
    assert_eq!(trim(""), "");
    assert_eq!(trim(" \n "), "");
    assert_eq!(trim("x"), "x");
    // letters beyond ASCII are letters, and they are folded to upper case
    assert_eq!(parse_label("s\u{e9}_1:x"), Some(("x", "S\u{c9}_1".to_owned())));
    assert_eq!(parse_label("stra\u{df}e:"), Some(("", "STRASSE".to_owned())));
    // a digit cannot start a label, but a number of any script can follow
    assert_eq!(parse_label("1abc:"), None);
    assert_eq!(parse_label("a\u{664}:"), Some(("", "A\u{664}".to_owned())));
    assert_eq!(parse_label("a-b:"), None);
    assert_eq!(parse_label("abc"), None);
    assert_eq!(parse_label(":"), None);
    assert_eq!(match_mnemonic("BL"), Ok(Mnemonic::BL));
    assert_eq!(match_mnemonic("bl"), Err(()));
    assert_eq!(match_mnemonic(".DQ"), Ok(Mnemonic::DotDQ));
    assert_eq!(match_mnemonic("DAR"), Ok(Mnemonic::DAR));
    assert_eq!(match_mnemonic("DARE"), Err(()));
    assert_eq!(match_mnemonic(""), Err(()));
}

#[test]
fn mnemonic_and_operands_are_split_at_commas() {
    assert_eq!(
        parse_mnemonic_and_args("ldv  $R1 ,=5"),
        Ok(("", ("ldv", vec!["$R1 ".to_owned(), "=5".to_owned()])))
    );
    assert_eq!(
        parse_mnemonic_and_args(".DB \"a,b\" , \"c\\\",d\",5"),
        Ok((
            "",
            (
                ".DB",
                vec![
                    "\"a,b\" ".to_owned(),
                    "\"c\\\",d\"".to_owned(),
                    "5".to_owned()
                ]
            )
        ))
    );
    // a string counts only at the start of a piece
    assert_eq!(
        parse_mnemonic_and_args("X a\"b,c\""),
        Ok(("", ("X", vec!["a\"b".to_owned(), "c\"".to_owned()])))
    );
    assert_eq!(
        parse_mnemonic_and_args("HLT ,"),
        Ok((" ,", ("HLT", vec![])))
    );
    assert_eq!(
        parse_mnemonic_and_args("LDV $R1,, =5"),
        Ok((",, =5", ("LDV", vec!["$R1".to_owned()])))
    );
    assert_eq!(
        parse_mnemonic_and_args("LDV,$R1"),
        Ok((",$R1", ("LDV", vec![])))
    );
    assert_eq!(
        parse_mnemonic_and_args(""),
        Err(AssemblerErrorKind::MnemonicRequired)
    );
    assert_eq!(
        parse_mnemonic_and_args(" HLT"),
        Err(AssemblerErrorKind::MnemonicRequired)
    );
}

#[test]
fn code_lines() {
    assert_eq!(
        parse_code_line("loop:  hlt  "),
        (
            Some("LOOP".to_owned()),
            Ok(Some(Statement::Generic(GenericOpCode::HLT)))
        )
    );
    assert_eq!(parse_code_line("loop:"), (Some("LOOP".to_owned()), Ok(None)));
    assert_eq!(parse_code_line(""), (None, Ok(None)));
    assert_eq!(
        parse_code_line("loop: "),
        (
            Some("LOOP".to_owned()),
            Err(AssemblerErrorKind::MnemonicRequired)
        )
    );
    assert_eq!(
        parse_code_line("nop"),
        (
            None,
            Err(AssemblerErrorKind::WrongNumberOfArguments(Mnemonic::NOP, 1, 0))
        )
    );
}

#[test]
fn statements_of_every_family() {
    assert_eq!(statement(".ORG 0x0"), Ok(Statement::Org(0)));
    assert_eq!(
        statement(".dw 1, -1, \"A\""),
        Ok(Statement::DataDefinition(DataDefinitionSize::Word, vec![1, -1, 65]))
    );
    assert_eq!(
        statement("NOP >+2"),
        Ok(Statement::BranchOnIndicators(
            BranchOnIndicatorsOpCode::NOP,
            BranchLocation::ShortDisplacement(AddressExpression::WordDisplacement(2))
        ))
    );
    assert_eq!(
        statement("CMN =$B1"),
        Ok(Statement::SingleOperand(
            SingleOperandOpCode::CMN,
            AddressSyllable::RegisterAddressing(Register::Base(BaseRegister::B1)),
            None
        ))
    );
    assert_eq!(
        statement("SAVE -$B2"),
        Ok(Statement::SingleOperand(
            SingleOperandOpCode::SAVE,
            AddressSyllable::BRelative(BRelativeAddressMode::PushPop(
                BaseRegister::B2,
                IncDec::Decrement
            )),
            Some(0)
        ))
    );
    assert_eq!(
        statement("LEV =$R1, 0b11"),
        Ok(Statement::SingleOperand(
            SingleOperandOpCode::LEV,
            AddressSyllable::RegisterAddressing(Register::Data(DataRegister::R1)),
            Some(3)
        ))
    );
    assert_eq!(
        statement("add $r3, <0x10.$R2"),
        Ok(Statement::DoubleOperand(
            DoubleOperandOpCode::ADD,
            Register::Data(DataRegister::R3),
            AddressSyllable::ImmediateAddressing(ImmediateAddressMode::Direct(
                ImmediateAddress::Indexed(AddressExpression::Immediate(0x10), DataRegister::R2)
            )),
            None
        ))
    );
    assert_eq!(
        statement("SRM $R1, $B1.+2"),
        Ok(Statement::DoubleOperand(
            DoubleOperandOpCode::SRM,
            Register::Data(DataRegister::R1),
            AddressSyllable::BRelative(BRelativeAddressMode::Direct(
                BRelativeAddress::Displacement(BaseRegister::B1, 2)
            )),
            Some(0)
        ))
    );
    assert_eq!(
        statement("STM $m7, =$R1"),
        Ok(Statement::DoubleOperand(
            DoubleOperandOpCode::STM,
            Register::ModeControl(ModeControlRegister::M7),
            AddressSyllable::RegisterAddressing(Register::Data(DataRegister::R1)),
            None
        ))
    );
    assert_eq!(
        statement("SWB $B3, =$B4"),
        Ok(Statement::DoubleOperand(
            DoubleOperandOpCode::SWB,
            Register::Base(BaseRegister::B3),
            AddressSyllable::RegisterAddressing(Register::Base(BaseRegister::B4)),
            None
        ))
    );
    assert_eq!(
        statement("SAR $R2, =0xF"),
        Ok(Statement::ShiftShort(ShiftShortOpCode::SAR, DataRegister::R2, 15))
    );
    assert_eq!(
        statement("DOR $R2, =17"),
        Ok(Statement::ShiftLong(ShiftLongOpCode::DOR, DataRegister::R2, 17))
    );
    // what follows the operands is not looked at
    assert_eq!(statement("HLT , junk"), Ok(Statement::Generic(GenericOpCode::HLT)));
}

#[test]
fn every_fault_of_the_parser() {
    let text = |s: &str| s.to_owned();
    assert_eq!(statement(""), Err(AssemblerErrorKind::MnemonicRequired));
    assert_eq!(
        statement("foo $R1"),
        Err(AssemblerErrorKind::UnkownMnemonic(text("foo")))
    );
    assert_eq!(
        statement(".org"),
        Err(AssemblerErrorKind::WrongNumberOfArguments(Mnemonic::DotORG, 1, 0))
    );
    assert_eq!(
        statement(".DB"),
        Err(AssemblerErrorKind::WrongNumberOfArguments(Mnemonic::DotDB, 0, 0))
    );
    assert_eq!(
        statement("BL"),
        Err(AssemblerErrorKind::WrongNumberOfArguments(Mnemonic::BL, 1, 0))
    );
    assert_eq!(
        statement("BLZ $R1"),
        Err(AssemblerErrorKind::WrongNumberOfArguments(Mnemonic::BLZ, 2, 1))
    );
    assert_eq!(
        statement("LEV"),
        Err(AssemblerErrorKind::WrongNumberOfArguments(Mnemonic::LEV, 1, 0))
    );
    assert_eq!(
        statement("LEV =$R1, 1, 2"),
        Err(AssemblerErrorKind::WrongNumberOfArguments(Mnemonic::LEV, 1, 3))
    );
    assert_eq!(
        statement("HLT 1"),
        Err(AssemblerErrorKind::WrongNumberOfArguments(Mnemonic::HLT, 0, 1))
    );
    assert_eq!(
        statement("LDR $R1"),
        Err(AssemblerErrorKind::WrongNumberOfArguments(Mnemonic::LDR, 2, 1))
    );
    assert_eq!(
        statement("LDR $R1, =1, 2"),
        Err(AssemblerErrorKind::WrongNumberOfArguments(Mnemonic::LDR, 2, 3))
    );
    assert_eq!(
        statement("SRM $R1, =1, 2, 3"),
        Err(AssemblerErrorKind::WrongNumberOfArguments(Mnemonic::SRM, 2, 4))
    );
    assert_eq!(
        statement("SOL $R1"),
        Err(AssemblerErrorKind::WrongNumberOfArguments(Mnemonic::SOL, 2, 1))
    );
    assert_eq!(
        statement(".org 100"),
        Err(AssemblerErrorKind::InvalidAddress(text("100")))
    );
    assert_eq!(
        statement(".org 0x10 x"),
        Err(AssemblerErrorKind::UnexpectedCharactersAtEndOfArgument(text(" x")))
    );
    assert_eq!(
        statement("BL <"),
        Err(AssemblerErrorKind::InvalidBranchLocation(text("<")))
    );
    assert_eq!(
        statement("BLZ R1, <0x0"),
        Err(AssemblerErrorKind::InvalidDataRegister(text("R1")))
    );
    assert_eq!(
        statement("BLZ $R8, <0x0"),
        Err(AssemblerErrorKind::InvalidDataRegister(text("$R8")))
    );
    assert_eq!(
        statement("STB $R1, <0x0"),
        Err(AssemblerErrorKind::InvalidBaseRegister(text("$R1")))
    );
    assert_eq!(
        statement("MTM $B1, <0x0"),
        Err(AssemblerErrorKind::InvalidModeControlRegister(text("$B1")))
    );
    assert_eq!(
        statement("LDV $R1, 5"),
        Err(AssemblerErrorKind::InvalidImmediateValue(text("5")))
    );
    assert_eq!(
        statement("SOL $R1, =-1"),
        Err(AssemblerErrorKind::InvalidImmediateValue(text("=-1")))
    );
    assert_eq!(
        statement(".DB $R1"),
        Err(AssemblerErrorKind::InvalidDataDefinitionChunk(text("$R1")))
    );
    assert_eq!(
        statement(".DB 1, \"open"),
        Err(AssemblerErrorKind::InvalidDataDefinitionChunk(text("\"open")))
    );
    assert_eq!(
        statement("INC ?"),
        Err(AssemblerErrorKind::InvalidAddressSyllable(text("?")))
    );
    assert_eq!(
        statement("INC =$B1"),
        Err(AssemblerErrorKind::WrongRegisterType(text("=$B1"), Mnemonic::INC))
    );
    assert_eq!(
        statement("CMN =$R1"),
        Err(AssemblerErrorKind::WrongRegisterType(text("=$R1"), Mnemonic::CMN))
    );
    assert_eq!(
        statement("LDR $R1, =$B1"),
        Err(AssemblerErrorKind::WrongRegisterType(text("=$B1"), Mnemonic::LDR))
    );
    assert_eq!(
        statement("STB $B1, =$R1"),
        Err(AssemblerErrorKind::WrongRegisterType(text("=$R1"), Mnemonic::STB))
    );
    assert_eq!(
        statement("JMP =$R1"),
        Err(AssemblerErrorKind::RegisterAddressingInvalid(Mnemonic::JMP))
    );
    assert_eq!(
        statement("SAVE =$B1, 0xFF"),
        Err(AssemblerErrorKind::RegisterAddressingInvalid(Mnemonic::SAVE))
    );
    assert_eq!(
        statement("LAB $B1, =$B2"),
        Err(AssemblerErrorKind::RegisterAddressingInvalid(Mnemonic::LAB))
    );
    assert_eq!(
        statement("LNJ $B1, =$B2"),
        Err(AssemblerErrorKind::RegisterAddressingInvalid(Mnemonic::LNJ))
    );
    assert_eq!(
        statement("LEV =$R1, x"),
        Err(AssemblerErrorKind::InvalidMaskWord(text("x")))
    );
    // the mask is judged before the address syllable
    assert_eq!(
        statement("LEV ?, x"),
        Err(AssemblerErrorKind::InvalidMaskWord(text("x")))
    );
    assert_eq!(
        parse_hex_address_arg(""),
        Err(AssemblerErrorKind::InvalidAddress(text("")))
    );
    assert_eq!(
        parse_branch_location_arg("<0x10 "),
        Err(AssemblerErrorKind::UnexpectedCharactersAtEndOfArgument(text(" ")))
    );
    assert_eq!(
        parse_address_syllable_arg("<0x10.$R9"),
        Err(AssemblerErrorKind::UnexpectedCharactersAtEndOfArgument(text(".$R9")))
    );
    assert_eq!(parse_base_register_arg("$b7"), Ok(BaseRegister::B7));
    assert_eq!(
        parse_base_register_arg("$B0"),
        Err(AssemblerErrorKind::InvalidBaseRegister(text("$B0")))
    );
    assert_eq!(
        parse_mode_control_register_arg("$M1"),
        Ok(ModeControlRegister::M1)
    );
    assert_eq!(parse_maskword_arg("-1"), Ok(-1));
    assert_eq!(parse_shift_distance_arg("=0b11"), Ok(3));
}

#[test]
fn every_fault_of_the_code_generator() {
    let mut table = LabelTable::new();
    table.define("FAR".to_owned(), 0x12345).unwrap();
    let generate = |text: &str| codegen(&statement(text).unwrap(), 0x100, &table);
    assert_eq!(
        generate("BL <FAR"),
        Err(AssemblerErrorKind::BranchAddressOutOfRange(0x12345))
    );
    assert_eq!(
        generate("BL FAR"),
        Err(AssemblerErrorKind::BranchLongDisplacementOutOfRange(0x12245))
    );
    assert_eq!(
        generate("BL >FAR"),
        Err(AssemblerErrorKind::BranchShortDisplacementOutOfRange(0x12245))
    );
    assert_eq!(
        generate("BL >0x100"),
        Err(AssemblerErrorKind::BranchShortDisplacementMustNotBe0Or1)
    );
    assert_eq!(
        generate("BL <-257"),
        Err(AssemblerErrorKind::WordDisplacementOutOfRange(-257))
    );
    assert_eq!(
        generate("LDV $R1, =256"),
        Err(AssemblerErrorKind::ShortImmediateValueOutOfRange(256))
    );
    assert_eq!(
        generate("LDV $R1, =-129"),
        Err(AssemblerErrorKind::ShortImmediateValueOutOfRange(-129))
    );
    assert_eq!(
        generate("BL <nowhere"),
        Err(AssemblerErrorKind::UndefinedLabel("NOWHERE".to_owned()))
    );
    assert_eq!(
        generate(".DB 1, 256, 999"),
        Err(AssemblerErrorKind::DataDefinitionValueOutOfRange(256))
    );
    assert_eq!(
        generate(".DW 65536"),
        Err(AssemblerErrorKind::DataDefinitionValueOutOfRange(65536))
    );
    assert_eq!(
        generate(".DD -2147483649"),
        Err(AssemblerErrorKind::DataDefinitionValueOutOfRange(-2147483649))
    );
    assert_eq!(
        generate("INC =65536"),
        Err(AssemblerErrorKind::ImmediateValueOutOfRange(65536))
    );
    assert_eq!(
        generate("INC =-32769"),
        Err(AssemblerErrorKind::ImmediateValueOutOfRange(-32769))
    );
    assert_eq!(generate("INC =-1"), Ok(vec![0b1000_1010_1111_0000, 0xFFFF]));
    assert_eq!(
        generate("INC <0x0.$R4"),
        Err(AssemblerErrorKind::InvalidIndexRegister(DataRegister::R4))
    );
    // the index register is judged before the address
    assert_eq!(
        generate("INC <FAR.$R4"),
        Err(AssemblerErrorKind::InvalidIndexRegister(DataRegister::R4))
    );
    assert_eq!(
        generate("INC <FAR"),
        Err(AssemblerErrorKind::ImmediateAddressOutOfRange(0x12345))
    );
    assert_eq!(
        generate("INC FAR"),
        Err(AssemblerErrorKind::DisplacementOutOfRange(0x12245))
    );
    assert_eq!(
        generate("INC $B1.+32768"),
        Err(AssemblerErrorKind::DisplacementOutOfRange(32768))
    );
    assert_eq!(
        generate("INC $B4.+$R1"),
        Err(AssemblerErrorKind::InvalidBaseRegisterAddrSyl(BaseRegister::B4))
    );
    assert_eq!(
        generate("INC $B4.+$R4"),
        Err(AssemblerErrorKind::InvalidIndexRegister(DataRegister::R4))
    );
    assert_eq!(
        generate("LEV $B1, 65536"),
        Err(AssemblerErrorKind::MaskWordOutOfRange(65536))
    );
    assert_eq!(
        generate("LEV $B1, -1"),
        Err(AssemblerErrorKind::MaskWordOutOfRange(-1))
    );
    // the address syllable is judged before the mask
    assert_eq!(
        generate("LEV <FAR, -1"),
        Err(AssemblerErrorKind::ImmediateAddressOutOfRange(0x12345))
    );
    assert_eq!(
        generate("SOL $R1, =16"),
        Err(AssemblerErrorKind::ShiftDistanceOutOfRange(16))
    );
    assert_eq!(
        generate("SOL $R1, =256"),
        Err(AssemblerErrorKind::ShiftDistanceOutOfRange(256))
    );
    assert_eq!(
        generate("DOL $R1, =32"),
        Err(AssemblerErrorKind::ShiftDistanceOutOfRange(32))
    );
    let register = AddressSyllable::RegisterAddressing(Register::Data(DataRegister::R1));
    assert_eq!(
        codegen_input_output(
            &InputOutputOpCode::IO,
            &register,
            &ChannelExpression::Immediate(1024, 64),
            0,
            &table
        ),
        Err(AssemblerErrorKind::ChannelOutOfRange(1024))
    );
    assert_eq!(
        codegen_input_output(
            &InputOutputOpCode::IO,
            &register,
            &ChannelExpression::Immediate(0x10000, 0),
            0,
            &table
        ),
        Err(AssemblerErrorKind::ChannelOutOfRange(0x10000))
    );
    assert_eq!(
        codegen_input_output(
            &InputOutputOpCode::IO,
            &register,
            &ChannelExpression::Immediate(1023, 64),
            0,
            &table
        ),
        Err(AssemblerErrorKind::FunctionCodeOutOfRange(64))
    );
    assert_eq!(
        codegen_input_output(
            &InputOutputOpCode::IOH,
            &register,
            &ChannelExpression::Immediate(1023, 63),
            0,
            &table
        ),
        Ok(vec![0b1000_0001_0101_0001, 0xFFFF])
    );
    assert_eq!(
        get_address_syllable_field_value(
            &AddressSyllable::BRelative(BRelativeAddressMode::PushPop(
                BaseRegister::B7,
                IncDec::Decrement
            )),
            0,
            &table
        ),
        Ok((0b1100111, vec![]))
    );
}
