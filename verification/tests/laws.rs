use level6::assembler::codegen::codegen;
use level6::assembler::codegen::common::{
    from_twos_complement_u16, get_base_register_value, get_branch_location_field_value,
    get_generic_register_value, get_maskword_value, get_mode_control_register_value,
    pack_field_value, resolve_address_expression, twos_complement_u16, twos_complement_u8,
};
use level6::assembler::codegen::shift::{codegen_shift_long, codegen_shift_short};
use level6::assembler::errors::AssemblerErrorKind;
use level6::assembler::labels::LabelTable;
use level6::assembler::parsers::statement::parse_statement;
use level6::assembler::size::{
    address_syl_extra_words, branch_inst_size, branchloc_extra_words, data_definition_dir_size,
    double_operand_inst_size, mask_extra_words, single_operand_inst_size, statement_size,
};
use level6::assembler::statements::{
    AddressExpression, AddressSyllable, BRelativeAddress, BRelativeAddressMode, BaseRegister,
    BranchLocation, DataDefinitionSize, DataRegister, ImmediateAddress, ImmediateAddressMode,
    IncDec, ModeControlRegister, PRelativeAddress, Register, ShiftLongOpCode, ShiftShortOpCode,
    Statement,
};

#[test]
fn twos_complement_round_trip_over_the_whole_range() {
    for v in i16::MIN..=i16::MAX {
        assert_eq!(from_twos_complement_u16(twos_complement_u16(v)), v);
    }
    for w in 0..=u16::MAX {
        assert_eq!(twos_complement_u16(from_twos_complement_u16(w)), w);
    }
    assert_eq!(twos_complement_u16(-1), 0xFFFF);
    assert_eq!(twos_complement_u16(-12345), 0b1100111111000111);
    assert_eq!(twos_complement_u8(-1), 0xFF);
    assert_eq!(twos_complement_u8(-128), 0x80);
}

#[test]
fn pack_field_value_edges() {
    assert_eq!(pack_field_value(0, 0x100), Some(0));
    assert_eq!(pack_field_value(255, 0x100), Some(255));
    assert_eq!(pack_field_value(256, 0x100), None);
    assert_eq!(pack_field_value(-1, 0x100), Some(0xFF));
    assert_eq!(pack_field_value(-128, 0x100), Some(0x80));
    assert_eq!(pack_field_value(-129, 0x100), None);
    assert_eq!(pack_field_value(-1, 0x1_0000_0000_0000_0000), Some(u64::MAX));
    assert_eq!(
        pack_field_value(i64::MIN as i128, 0x1_0000_0000_0000_0000),
        Some(0x8000_0000_0000_0000)
    );
    assert_eq!(pack_field_value(i64::MIN as i128 - 1, 0x1_0000_0000_0000_0000), None);
    assert_eq!(pack_field_value(u64::MAX as i128, 0x1_0000_0000_0000_0000), Some(u64::MAX));
    assert_eq!(pack_field_value(u64::MAX as i128 + 1, 0x1_0000_0000_0000_0000), None);
    assert_eq!(pack_field_value(i128::MIN, 0x100), None);
    assert_eq!(pack_field_value(i128::MAX, 0x100), None);
}

fn short_branch(displacement: i128) -> Result<(i8, Vec<u16>), AssemblerErrorKind> {
    get_branch_location_field_value(
        &BranchLocation::ShortDisplacement(AddressExpression::WordDisplacement(displacement)),
        1000,
        &LabelTable::new(),
    )
}

#[test]
fn short_displacement_edges() {
    assert_eq!(
        short_branch(0),
        Err(AssemblerErrorKind::BranchShortDisplacementMustNotBe0Or1)
    );
    assert_eq!(
        short_branch(1),
        Err(AssemblerErrorKind::BranchShortDisplacementMustNotBe0Or1)
    );
    assert_eq!(short_branch(63), Ok((63, vec![])));
    assert_eq!(short_branch(-64), Ok((-64, vec![])));
    assert_eq!(short_branch(2), Ok((2, vec![])));
    assert_eq!(short_branch(-1), Ok((-1, vec![])));
    assert_eq!(
        short_branch(64),
        Err(AssemblerErrorKind::BranchShortDisplacementOutOfRange(64))
    );
    assert_eq!(
        short_branch(-65),
        Err(AssemblerErrorKind::BranchShortDisplacementOutOfRange(-65))
    );
}

#[test]
fn branch_location_errors() {
    let table = LabelTable::new();
    assert_eq!(
        get_branch_location_field_value(
            &BranchLocation::Absolute(AddressExpression::Immediate(0x10000)),
            0,
            &table
        ),
        Err(AssemblerErrorKind::BranchAddressOutOfRange(0x10000))
    );
    assert_eq!(
        get_branch_location_field_value(
            &BranchLocation::Absolute(AddressExpression::Immediate(0xFFFF)),
            0,
            &table
        ),
        Ok((0, vec![0xFFFF]))
    );
    assert_eq!(
        get_branch_location_field_value(
            &BranchLocation::LongDisplacement(AddressExpression::Immediate(0x8000)),
            0,
            &table
        ),
        Err(AssemblerErrorKind::BranchLongDisplacementOutOfRange(0x8000))
    );
    assert_eq!(
        get_branch_location_field_value(
            &BranchLocation::LongDisplacement(AddressExpression::Immediate(0)),
            0x8000,
            &table
        ),
        Ok((1, vec![0x8000]))
    );
    assert_eq!(
        get_branch_location_field_value(
            &BranchLocation::LongDisplacement(AddressExpression::Immediate(0)),
            0x8001,
            &table
        ),
        Err(AssemblerErrorKind::BranchLongDisplacementOutOfRange(-0x8001))
    );
    assert_eq!(
        get_branch_location_field_value(
            &BranchLocation::LongDisplacement(AddressExpression::Immediate(u64::MAX)),
            0,
            &table
        ),
        Err(AssemblerErrorKind::BranchLongDisplacementOutOfRange(u64::MAX as i128))
    );
}

#[test]
fn label_table_refuses_a_second_definition() {
    let mut table = LabelTable::new();
    assert_eq!(table.get(&"LOOP".to_owned()), None);
    assert!(!table.contains_key(&"LOOP".to_owned()));
    assert_eq!(table.define("LOOP".to_owned(), 10), Ok(()));
    assert_eq!(
        table.define("LOOP".to_owned(), 20),
        Err(AssemblerErrorKind::LabelDoubleDefinition("LOOP".to_owned()))
    );
    assert_eq!(table.get(&"LOOP".to_owned()), Some(10));
    assert!(table.contains_key(&"LOOP".to_owned()));
    assert_eq!(table.define("OTHER".to_owned(), 20), Ok(()));
    assert_eq!(table.get(&"OTHER".to_owned()), Some(20));
    assert_eq!(table.get(&"loop".to_owned()), None);
    assert_eq!(
        resolve_address_expression(&AddressExpression::Label("NONE".to_owned()), 0, &table),
        Err(AssemblerErrorKind::UndefinedLabel("NONE".to_owned()))
    );
    assert_eq!(
        resolve_address_expression(&AddressExpression::Label("OTHER".to_owned()), 0, &table),
        Ok(20)
    );
}

#[test]
fn word_displacement_must_stay_in_the_address_space() {
    let table = LabelTable::new();
    assert_eq!(
        resolve_address_expression(&AddressExpression::WordDisplacement(-1), 0, &table),
        Err(AssemblerErrorKind::WordDisplacementOutOfRange(-1))
    );
    assert_eq!(
        resolve_address_expression(&AddressExpression::WordDisplacement(1), u64::MAX, &table),
        Err(AssemblerErrorKind::WordDisplacementOutOfRange(1))
    );
    assert_eq!(
        resolve_address_expression(&AddressExpression::WordDisplacement(i128::MAX), 5, &table),
        Err(AssemblerErrorKind::WordDisplacementOutOfRange(i128::MAX))
    );
    assert_eq!(
        resolve_address_expression(&AddressExpression::WordDisplacement(i128::MIN), 5, &table),
        Err(AssemblerErrorKind::WordDisplacementOutOfRange(i128::MIN))
    );
}

#[test]
fn register_codes() {
    assert_eq!(get_base_register_value(&BaseRegister::B1), 1);
    assert_eq!(get_base_register_value(&BaseRegister::B7), 7);
    assert_eq!(get_mode_control_register_value(&ModeControlRegister::M4), 4);
    assert_eq!(get_generic_register_value(&Register::Data(DataRegister::R6)), 6);
    assert_eq!(get_generic_register_value(&Register::Base(BaseRegister::B5)), 5);
    assert_eq!(
        get_generic_register_value(&Register::ModeControl(ModeControlRegister::M2)),
        2
    );
}

#[test]
fn mask_word_range() {
    assert_eq!(get_maskword_value(0), Ok(0));
    assert_eq!(get_maskword_value(0xFFFF), Ok(0xFFFF));
    assert_eq!(
        get_maskword_value(-1),
        Err(AssemblerErrorKind::MaskWordOutOfRange(-1))
    );
    assert_eq!(
        get_maskword_value(0x10000),
        Err(AssemblerErrorKind::MaskWordOutOfRange(0x10000))
    );
}

#[test]
fn shift_words_and_ranges() {
    assert_eq!(
        codegen_shift_short(&ShiftShortOpCode::SCL, &DataRegister::R3, 15),
        Ok(vec![0b0011_0000_0001_1111])
    );
    assert_eq!(
        codegen_shift_short(&ShiftShortOpCode::DCR, &DataRegister::R7, 0),
        Ok(vec![0b0111_0000_0111_0000])
    );
    assert_eq!(
        codegen_shift_short(&ShiftShortOpCode::SOL, &DataRegister::R1, 16),
        Err(AssemblerErrorKind::ShiftDistanceOutOfRange(16))
    );
    assert_eq!(
        codegen_shift_long(&ShiftLongOpCode::DOL, &DataRegister::R2, 31),
        Ok(vec![0b0010_0000_1001_1111])
    );
    assert_eq!(
        codegen_shift_long(&ShiftLongOpCode::DAR, &DataRegister::R1, 1),
        Ok(vec![0b0001_0000_1110_0001])
    );
    assert_eq!(
        codegen_shift_long(&ShiftLongOpCode::DAR, &DataRegister::R1, 32),
        Err(AssemblerErrorKind::ShiftDistanceOutOfRange(32))
    );
}

#[test]
fn sizes_by_formula() {
    assert_eq!(data_definition_dir_size(&DataDefinitionSize::Byte, &vec![]), 0);
    assert_eq!(data_definition_dir_size(&DataDefinitionSize::Byte, &vec![1]), 1);
    assert_eq!(data_definition_dir_size(&DataDefinitionSize::Byte, &vec![1, 2]), 1);
    assert_eq!(data_definition_dir_size(&DataDefinitionSize::Byte, &vec![1, 2, 3]), 2);
    assert_eq!(data_definition_dir_size(&DataDefinitionSize::Word, &vec![1, 2, 3]), 3);
    assert_eq!(
        data_definition_dir_size(&DataDefinitionSize::DoubleWord, &vec![1, 2, 3]),
        6
    );
    assert_eq!(
        data_definition_dir_size(&DataDefinitionSize::QuadWord, &vec![1, 2, 3]),
        12
    );
    let absolute = BranchLocation::Absolute(AddressExpression::Immediate(0));
    let long = BranchLocation::LongDisplacement(AddressExpression::Immediate(0));
    let short = BranchLocation::ShortDisplacement(AddressExpression::Immediate(0));
    assert_eq!(branchloc_extra_words(&absolute), 1);
    assert_eq!(branchloc_extra_words(&long), 1);
    assert_eq!(branchloc_extra_words(&short), 0);
    assert_eq!(branch_inst_size(&absolute), 2);
    assert_eq!(branch_inst_size(&short), 1);
    assert_eq!(mask_extra_words(&None), 0);
    assert_eq!(mask_extra_words(&Some(0)), 1);
    let register = AddressSyllable::RegisterAddressing(Register::Data(DataRegister::R1));
    let operand = AddressSyllable::ImmediateOperand(1);
    let displaced = AddressSyllable::BRelative(BRelativeAddressMode::Indirect(
        BRelativeAddress::Displacement(BaseRegister::B1, 4),
    ));
    let pushed = AddressSyllable::BRelative(BRelativeAddressMode::PushPop(
        BaseRegister::B1,
        IncDec::Increment,
    ));
    assert_eq!(address_syl_extra_words(&register), 0);
    assert_eq!(address_syl_extra_words(&operand), 1);
    assert_eq!(address_syl_extra_words(&displaced), 1);
    assert_eq!(address_syl_extra_words(&pushed), 0);
    assert_eq!(
        address_syl_extra_words(&AddressSyllable::PRelative(PRelativeAddress::Direct(
            AddressExpression::Immediate(0)
        ))),
        1
    );
    assert_eq!(
        address_syl_extra_words(&AddressSyllable::ImmediateAddressing(
            ImmediateAddressMode::Direct(ImmediateAddress::Simple(AddressExpression::Immediate(
                0
            )))
        )),
        1
    );
    assert_eq!(single_operand_inst_size(&register, &None), 1);
    assert_eq!(single_operand_inst_size(&displaced, &Some(1)), 3);
    assert_eq!(double_operand_inst_size(&operand, &None), 2);
    assert_eq!(double_operand_inst_size(&pushed, &Some(1)), 2);
    assert_eq!(statement_size(&Statement::Org(100), 0), 0);
}

#[test]
fn size_agrees_with_codegen_on_parsed_statements() {
    let mut table = LabelTable::new();
    table.define("TARGET".to_owned(), 0x20).unwrap();
    let sources = [
        ".org 0x10",
        ".DB \"hello\", 0",
        ".DW -1, 0xFFFF",
        ".DD -1",
        ".DQ -1, 1",
        "BL <TARGET",
        "BGE TARGET",
        "BG >TARGET",
        "NOP >TARGET",
        "BLZ $R1, <TARGET",
        "BINC $R7, >+2",
        "LDV $R1, =-128",
        "INC =$R1",
        "DEC =-1",
        "NEG <TARGET",
        "CPL *<TARGET.$R3",
        "CL TARGET",
        "CLH *TARGET",
        "CMZ $B1",
        "CAD *$B2.$R1",
        "STS $B3.-4",
        "JMP +$B7",
        "ENT $B1.+$R2",
        "LEV =$R1",
        "SAVE $B1, 0xFFFF",
        "LB $B1.+1, 0",
        "LDR $R1, =$R2",
        "SRM $R1, <TARGET, 0b1010",
        "STB $B1, $B2",
        "LAB $B1, <TARGET",
        "LNJ $B1, TARGET",
        "MTM $M1, =$R2",
        "HLT",
        "SOL $R1, =0",
        "DAR $R1, =0x1F",
    ];
    for source in sources {
        let (_, statement) = parse_statement(source).unwrap();
        for address in [0u64, 0x10, 0x30] {
            match codegen(&statement, address, &table) {
                Ok(words) => {
                    assert_eq!(
                        statement_size(&statement, address),
                        words.len() as u64,
                        "{}",
                        source
                    );
                }
                Err(kind) => panic!("{}: {:?}", source, kind),
            }
        }
    }
}
