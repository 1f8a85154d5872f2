use level6::assembler::codegen::address_syllable::get_address_syllable_field_value;
use level6::assembler::codegen::branch_on_indicators::codegen_branch_on_indicators;
use level6::assembler::codegen::branch_on_registers::codegen_branch_on_registers;
use level6::assembler::codegen::common::{
    get_data_register_value, resolve_address_expression, twos_complement_u16, twos_complement_u8,
};
use level6::assembler::codegen::double_operand::codegen_double_operand;
use level6::assembler::codegen::generic::codegen_generic;
use level6::assembler::codegen::short_value_immediate::codegen_short_value_immediate;
use level6::assembler::codegen::single_operand::codegen_single_operand;
use level6::assembler::labels::LabelTable;
use level6::assembler::statements::{
    AddressExpression, AddressSyllable, BRelativeAddress, BRelativeAddressMode, BaseRegister,
    BranchLocation, BranchOnIndicatorsOpCode, BranchOnRegistersOpCode, DataRegister,
    DoubleOperandOpCode, GenericOpCode, ImmediateAddress, ImmediateAddressMode, IncDec,
    ModeControlRegister, PRelativeAddress, Register, ShortValueImmediateOpCode,
    SingleOperandOpCode,
};

#[test]
fn codegen_resolve_address_expression_succ() {
    let tests = [
        (AddressExpression::Immediate(1234), 0, 1234),
        (AddressExpression::Immediate(u64::MAX), 1000, u64::MAX),
        (AddressExpression::WordDisplacement(10), 100, 110),
        (AddressExpression::WordDisplacement(-30), 5000, 4970),
        (
            AddressExpression::WordDisplacement(1),
            u64::MAX - 1,
            u64::MAX,
        ),
        (AddressExpression::WordDisplacement(-1), 1, 0),
        (AddressExpression::Label("LABEL1".to_owned()), 123, 1000),
        (
            AddressExpression::Label("albatross".to_owned()),
            0,
            0x9999999999999999,
        ),
    ];

    let mut label_table = LabelTable::new();
    label_table.define("LABEL1".to_owned(), 1000).unwrap();
    label_table.define("albatross".to_owned(), 0x9999999999999999).unwrap();

    for (input, cur_addr, expected) in tests {
        assert_eq!(
            resolve_address_expression(&input, cur_addr, &label_table).unwrap(),
            expected
        );
    }
}

#[test]
fn codegen_resolve_address_expression_err() {
    let tests = [
        (AddressExpression::WordDisplacement(-1), 0),
        (AddressExpression::WordDisplacement(1), u64::MAX),
        (AddressExpression::Label("notexist".to_owned()), 0),
    ];

    let mut label_table = LabelTable::new();
    label_table.define("LABEL1".to_owned(), 1000).unwrap();
    label_table.define("albatross".to_owned(), 0x9999999999999999).unwrap();

    for (input, cur_addr) in tests {
        resolve_address_expression(&input, cur_addr, &label_table).unwrap_err();
    }
}

#[test]
fn codegen_twos_complement_u16_succ() {
    let tests = [
        (0, 0b0000000000000000),
        (12345, 0b0011000000111001),
        (-12345, 0b1100111111000111),
        (i16::MAX, 0b0111111111111111),
        (i16::MIN, 0b1000000000000000),
    ];

    for (input, exp) in tests {
        assert_eq!(twos_complement_u16(input), exp);
    }
}

#[test]
fn twos_complement_u8_succ() {
    let tests = [
        (0, 0b00000000),
        (12, 0b000001100),
        (-12, 0b11110100),
        (i8::MAX, 0b01111111),
        (i8::MIN, 0b10000000),
    ];

    for (input, exp) in tests {
        assert_eq!(twos_complement_u8(input), exp);
    }
}

#[test]
fn codegen_codegen_branch_on_indicators_instructions_succ() {
    let tests = [
        (
            (
                BranchOnIndicatorsOpCode::BL,
                BranchLocation::Absolute(AddressExpression::Immediate(1234)),
                0,
            ),
            vec![0b0000001000000000, 1234],
        ),
        (
            (
                BranchOnIndicatorsOpCode::BL,
                BranchLocation::ShortDisplacement(AddressExpression::Immediate(112)),
                100,
            ),
            vec![0b0000001000001100],
        ),
        (
            (
                BranchOnIndicatorsOpCode::BL,
                BranchLocation::ShortDisplacement(AddressExpression::Immediate(100)),
                112,
            ),
            vec![0b0000001001110100],
        ),
    ];

    let label_table = LabelTable::new();

    for ((op, branchloc, cur_addr), exp) in tests {
        assert_eq!(
            codegen_branch_on_indicators(&op, &branchloc, cur_addr, &label_table).unwrap(),
            exp
        );
    }
}

#[test]
fn get_address_syllable_field_value_succ() {
    let tests = [
        (
            AddressSyllable::RegisterAddressing(Register::Data(DataRegister::R1)),
            0,
            0b1010001,
            vec![],
        ),
        (
            AddressSyllable::RegisterAddressing(Register::Base(BaseRegister::B2)),
            0,
            0b1010010,
            vec![],
        ),
        (
            AddressSyllable::ImmediateOperand(0x1234),
            0,
            0b1110000,
            vec![0x1234],
        ),
        (
            AddressSyllable::ImmediateAddressing(ImmediateAddressMode::Direct(
                ImmediateAddress::Simple(AddressExpression::Immediate(0x1234)),
            )),
            0,
            0b0000000,
            vec![0x1234],
        ),
        (
            AddressSyllable::ImmediateAddressing(ImmediateAddressMode::Indirect(
                ImmediateAddress::Indexed(
                    AddressExpression::Immediate(0x4000),
                    DataRegister::R3,
                ),
            )),
            100,
            0b0111000,
            vec![0x4000],
        ),
        (
            AddressSyllable::BRelative(BRelativeAddressMode::Direct(BRelativeAddress::Simple(
                BaseRegister::B1,
            ))),
            0,
            0b0000001,
            vec![],
        ),
        (
            AddressSyllable::BRelative(BRelativeAddressMode::Indirect(
                BRelativeAddress::Simple(BaseRegister::B2),
            )),
            0,
            0b0001010,
            vec![],
        ),
        (
            AddressSyllable::BRelative(BRelativeAddressMode::Direct(
                BRelativeAddress::Indexed(BaseRegister::B3, DataRegister::R1),
            )),
            0,
            0b0010011,
            vec![],
        ),
        (
            AddressSyllable::BRelative(BRelativeAddressMode::Indirect(
                BRelativeAddress::Indexed(BaseRegister::B4, DataRegister::R2),
            )),
            0,
            0b0101100,
            vec![],
        ),
        (
            AddressSyllable::BRelative(BRelativeAddressMode::Direct(
                BRelativeAddress::Displacement(BaseRegister::B5, -10),
            )),
            0,
            0b1000101,
            vec![u16::from_be_bytes((-10 as i16).to_be_bytes())],
        ),
        (
            AddressSyllable::BRelative(BRelativeAddressMode::Indirect(
                BRelativeAddress::Displacement(BaseRegister::B6, 0x2000),
            )),
            0,
            0b1001110,
            vec![0x2000],
        ),
        (
            AddressSyllable::BRelative(BRelativeAddressMode::PushPop(
                BaseRegister::B7,
                IncDec::Increment,
            )),
            0,
            0b1110111,
            vec![],
        ),
        (
            AddressSyllable::BRelative(BRelativeAddressMode::PushPop(
                BaseRegister::B1,
                IncDec::Decrement,
            )),
            0,
            0b1100001,
            vec![],
        ),
        (
            AddressSyllable::BRelative(BRelativeAddressMode::IncDecIndexed(
                BaseRegister::B2,
                DataRegister::R3,
                IncDec::Increment,
            )),
            0,
            0b1111110,
            vec![],
        ),
        (
            AddressSyllable::BRelative(BRelativeAddressMode::IncDecIndexed(
                BaseRegister::B3,
                DataRegister::R1,
                IncDec::Decrement,
            )),
            0,
            0b1011011,
            vec![],
        ),
        (
            AddressSyllable::PRelative(PRelativeAddress::Direct(AddressExpression::Immediate(
                0x1234,
            ))),
            0x1000,
            0b1000000,
            vec![0x0234],
        ),
        (
            AddressSyllable::PRelative(PRelativeAddress::Indirect(
                AddressExpression::WordDisplacement(-100),
            )),
            0x3834,
            0b1001000,
            vec![u16::from_be_bytes((-100 as i16).to_be_bytes())],
        ),
    ];

    let label_table = LabelTable::new();

    for (input, cur_addr, field_exp, ew_exp) in tests {
        let (field, ew) =
            get_address_syllable_field_value(&input, cur_addr, &label_table).unwrap();

        assert_eq!(field, field_exp);
        assert_eq!(ew, ew_exp);
    }
}

#[test]
fn branch_on_indicators_codegen_branch_on_indicators_instructions_succ() {
    let tests = [
        (
            (
                BranchOnIndicatorsOpCode::BL,
                BranchLocation::Absolute(AddressExpression::Immediate(0x1234)),
                0,
            ),
            vec![0b0000001000000000, 0x1234],
        ),
        (
            (
                BranchOnIndicatorsOpCode::BGE,
                BranchLocation::LongDisplacement(AddressExpression::Immediate(0x1234)),
                0,
            ),
            vec![0b0000001010000001, 0x1234],
        ),
        (
            (
                BranchOnIndicatorsOpCode::BG,
                BranchLocation::ShortDisplacement(AddressExpression::Immediate(0x1234)),
                0x1230,
            ),
            vec![0b0000001100000100],
        ),
        (
            (
                BranchOnIndicatorsOpCode::BLE,
                BranchLocation::Absolute(AddressExpression::Immediate(0x1234)),
                1000,
            ),
            vec![0b0000001110000000, 0x1234],
        ),
        (
            (
                BranchOnIndicatorsOpCode::BOV,
                BranchLocation::LongDisplacement(AddressExpression::Immediate(500)),
                1000,
            ),
            vec![0b0000010000000001, 0xFE0C],
        ),
        (
            (
                BranchOnIndicatorsOpCode::BOV,
                BranchLocation::ShortDisplacement(AddressExpression::Immediate(999)),
                1000,
            ),
            vec![0b0000010001111111],
        ),
        (
            (
                BranchOnIndicatorsOpCode::BNOV,
                BranchLocation::ShortDisplacement(AddressExpression::Immediate(112)),
                100,
            ),
            vec![0b0000010010001100],
        ),
        (
            (
                BranchOnIndicatorsOpCode::BBT,
                BranchLocation::LongDisplacement(AddressExpression::Immediate(100)),
                112,
            ),
            vec![0b0000010100000001, 0xFFF4],
        ),
        (
            (
                BranchOnIndicatorsOpCode::BBF,
                BranchLocation::ShortDisplacement(AddressExpression::WordDisplacement(-1)),
                1000,
            ),
            vec![0b0000010111111111],
        ),
        (
            (
                BranchOnIndicatorsOpCode::BCT,
                BranchLocation::ShortDisplacement(AddressExpression::WordDisplacement(-1)),
                1000,
            ),
            vec![0b0000011001111111],
        ),
        (
            (
                BranchOnIndicatorsOpCode::BCF,
                BranchLocation::ShortDisplacement(AddressExpression::WordDisplacement(-1)),
                1000,
            ),
            vec![0b0000011011111111],
        ),
        (
            (
                BranchOnIndicatorsOpCode::BIOT,
                BranchLocation::ShortDisplacement(AddressExpression::WordDisplacement(-1)),
                1000,
            ),
            vec![0b0000011101111111],
        ),
        (
            (
                BranchOnIndicatorsOpCode::BIOF,
                BranchLocation::ShortDisplacement(AddressExpression::WordDisplacement(-1)),
                1000,
            ),
            vec![0b0000011111111111],
        ),
        (
            (
                BranchOnIndicatorsOpCode::BIOF,
                BranchLocation::ShortDisplacement(AddressExpression::WordDisplacement(-1)),
                1000,
            ),
            vec![0b0000011111111111],
        ),
        (
            (
                BranchOnIndicatorsOpCode::BAL,
                BranchLocation::ShortDisplacement(AddressExpression::WordDisplacement(-1)),
                1000,
            ),
            vec![0b0000100001111111],
        ),
        (
            (
                BranchOnIndicatorsOpCode::BAGE,
                BranchLocation::ShortDisplacement(AddressExpression::WordDisplacement(-1)),
                1000,
            ),
            vec![0b0000100011111111],
        ),
        (
            (
                BranchOnIndicatorsOpCode::BE,
                BranchLocation::ShortDisplacement(AddressExpression::WordDisplacement(-1)),
                1000,
            ),
            vec![0b0000100101111111],
        ),
        (
            (
                BranchOnIndicatorsOpCode::BNE,
                BranchLocation::ShortDisplacement(AddressExpression::WordDisplacement(-1)),
                1000,
            ),
            vec![0b0000100111111111],
        ),
        (
            (
                BranchOnIndicatorsOpCode::BAG,
                BranchLocation::ShortDisplacement(AddressExpression::WordDisplacement(-1)),
                1000,
            ),
            vec![0b0000101001111111],
        ),
        (
            (
                BranchOnIndicatorsOpCode::BALE,
                BranchLocation::ShortDisplacement(AddressExpression::WordDisplacement(-1)),
                1000,
            ),
            vec![0b0000101011111111],
        ),
        (
            (
                BranchOnIndicatorsOpCode::BSU,
                BranchLocation::ShortDisplacement(AddressExpression::WordDisplacement(-1)),
                1000,
            ),
            vec![0b0000101101111111],
        ),
        (
            (
                BranchOnIndicatorsOpCode::BSE,
                BranchLocation::ShortDisplacement(AddressExpression::WordDisplacement(-1)),
                1000,
            ),
            vec![0b0000101111111111],
        ),
        (
            (
                BranchOnIndicatorsOpCode::B,
                BranchLocation::ShortDisplacement(AddressExpression::WordDisplacement(-1)),
                1000,
            ),
            vec![0b0000111111111111],
        ),
        (
            (
                BranchOnIndicatorsOpCode::NOP,
                BranchLocation::ShortDisplacement(AddressExpression::WordDisplacement(-1)),
                1000,
            ),
            vec![0b0000111101111111],
        ),
    ];

    let label_table = LabelTable::new();

    for ((op, branchloc, cur_addr), exp) in tests {
        assert_eq!(
            codegen_branch_on_indicators(&op, &branchloc, cur_addr, &label_table).unwrap(),
            exp
        );
    }
}

#[test]
fn branch_on_registers_codegen_branch_on_indicators_instructions_succ() {
    let tests = [
        (
            (
                BranchOnRegistersOpCode::BLZ,
                DataRegister::R1,
                BranchLocation::Absolute(AddressExpression::Immediate(0x1234)),
                0,
            ),
            vec![0b0001100000000000, 0x1234],
        ),
        (
            (
                BranchOnRegistersOpCode::BGEZ,
                DataRegister::R2,
                BranchLocation::LongDisplacement(AddressExpression::Immediate(0x1234)),
                0x100,
            ),
            vec![0b0010100010000001, 0x1134],
        ),
        (
            (
                BranchOnRegistersOpCode::BEZ,
                DataRegister::R3,
                BranchLocation::ShortDisplacement(AddressExpression::Immediate(0x102)),
                0x100,
            ),
            vec![0b0011100100000010],
        ),
        (
            (
                BranchOnRegistersOpCode::BNEZ,
                DataRegister::R4,
                BranchLocation::ShortDisplacement(AddressExpression::WordDisplacement(-10)),
                0xFFF,
            ),
            vec![0b0100100111110110],
        ),
        (
            (
                BranchOnRegistersOpCode::BGZ,
                DataRegister::R4,
                BranchLocation::ShortDisplacement(AddressExpression::WordDisplacement(-10)),
                0xFFF,
            ),
            vec![0b0100101001110110],
        ),
        (
            (
                BranchOnRegistersOpCode::BLEZ,
                DataRegister::R5,
                BranchLocation::ShortDisplacement(AddressExpression::WordDisplacement(-10)),
                0xFFF,
            ),
            vec![0b0101101011110110],
        ),
        (
            (
                BranchOnRegistersOpCode::BEVN,
                DataRegister::R6,
                BranchLocation::ShortDisplacement(AddressExpression::WordDisplacement(-10)),
                0xFFF,
            ),
            vec![0b0110101101110110],
        ),
        (
            (
                BranchOnRegistersOpCode::BODD,
                DataRegister::R7,
                BranchLocation::ShortDisplacement(AddressExpression::WordDisplacement(-10)),
                0xFFF,
            ),
            vec![0b0111101111110110],
        ),
        (
            (
                BranchOnRegistersOpCode::BDEC,
                DataRegister::R7,
                BranchLocation::ShortDisplacement(AddressExpression::WordDisplacement(-10)),
                0xFFF,
            ),
            vec![0b0111011101110110],
        ),
        (
            (
                BranchOnRegistersOpCode::BINC,
                DataRegister::R7,
                BranchLocation::ShortDisplacement(AddressExpression::WordDisplacement(-10)),
                0xFFF,
            ),
            vec![0b0111011111110110],
        ),
    ];

    let label_table = LabelTable::new();

    for ((op, branchloc, reg, cur_addr), exp) in tests {
        assert_eq!(
            codegen_branch_on_registers(&op, &branchloc, &reg, cur_addr, &label_table).unwrap(),
            exp
        );
    }
}

#[test]
fn branch_on_registers_get_data_register_value_succ() {
    let tests = [
        (DataRegister::R1, 0b001),
        (DataRegister::R2, 0b010),
        (DataRegister::R3, 0b011),
        (DataRegister::R4, 0b100),
        (DataRegister::R5, 0b101),
        (DataRegister::R6, 0b110),
        (DataRegister::R7, 0b111),
    ];

    for (input, exp) in tests {
        assert_eq!(get_data_register_value(&input), exp);
    }
}

#[test]
fn common_resolve_address_expression_succ() {
    let tests = [
        (AddressExpression::Immediate(1234), 0, 1234),
        (AddressExpression::Immediate(u64::MAX), 1000, u64::MAX),
        (AddressExpression::WordDisplacement(10), 100, 110),
        (AddressExpression::WordDisplacement(-30), 5000, 4970),
        (
            AddressExpression::WordDisplacement(1),
            u64::MAX - 1,
            u64::MAX,
        ),
        (AddressExpression::WordDisplacement(-1), 1, 0),
        (AddressExpression::Label("LABEL1".to_owned()), 123, 1000),
        (
            AddressExpression::Label("albatross".to_owned()),
            0,
            u64::MAX,
        ),
    ];

    let mut label_table = LabelTable::new();
    label_table.define("LABEL1".to_owned(), 1000).unwrap();
    label_table.define("albatross".to_owned(), u64::MAX).unwrap();

    for (input, cur_addr, expected) in tests {
        assert_eq!(
            resolve_address_expression(&input, cur_addr, &label_table).unwrap(),
            expected
        );
    }
}

#[test]
fn common_resolve_address_expression_err() {
    let tests = [
        (AddressExpression::WordDisplacement(-1), 0),
        (AddressExpression::WordDisplacement(1), u64::MAX),
        (AddressExpression::Label("notexist".to_owned()), 0),
    ];

    let mut label_table = LabelTable::new();
    label_table.define("LABEL1".to_owned(), 1000).unwrap();
    label_table.define("albatross".to_owned(), 0x9999999999999999).unwrap();

    for (input, cur_addr) in tests {
        resolve_address_expression(&input, cur_addr, &label_table).unwrap_err();
    }
}

#[test]
fn common_twos_complement_u16_succ() {
    let tests = [
        (0, 0b0000000000000000),
        (12345, 0b0011000000111001),
        (-12345, 0b1100111111000111),
        (i16::MAX, 0b0111111111111111),
        (i16::MIN, 0b1000000000000000),
    ];

    for (input, exp) in tests {
        assert_eq!(twos_complement_u16(input), exp);
    }
}

#[test]
fn common_get_data_register_value_succ() {
    let tests = [
        (DataRegister::R1, 0b001),
        (DataRegister::R2, 0b010),
        (DataRegister::R3, 0b011),
        (DataRegister::R4, 0b100),
        (DataRegister::R5, 0b101),
        (DataRegister::R6, 0b110),
        (DataRegister::R7, 0b111),
    ];

    for (input, exp) in tests {
        assert_eq!(get_data_register_value(&input), exp);
    }
}

#[test]
fn double_operand_codegen_branch_on_indicators_instructions_succ() {
    let tests = [
        (
            (
                DoubleOperandOpCode::LDR,
                Register::Data(DataRegister::R1),
                AddressSyllable::RegisterAddressing(Register::Data(DataRegister::R2)),
                None,
                100,
            ),
            vec![0b1001100001010010],
        ),
        (
            (
                DoubleOperandOpCode::STR,
                Register::Data(DataRegister::R3),
                AddressSyllable::ImmediateAddressing(ImmediateAddressMode::Direct(
                    ImmediateAddress::Simple(AddressExpression::Immediate(0x1234)),
                )),
                None,
                100,
            ),
            vec![0b1011111100000000, 0x1234],
        ),
        (
            (
                DoubleOperandOpCode::SRM,
                Register::Data(DataRegister::R1),
                AddressSyllable::RegisterAddressing(Register::Data(DataRegister::R2)),
                Some(0xAAAA),
                100,
            ),
            vec![0b1001101011010010, 0xAAAA],
        ),
        (
            (
                DoubleOperandOpCode::SWR,
                Register::Data(DataRegister::R1),
                AddressSyllable::RegisterAddressing(Register::Data(DataRegister::R2)),
                None,
                100,
            ),
            vec![0b1001111001010010],
        ),
        (
            (
                DoubleOperandOpCode::CMR,
                Register::Data(DataRegister::R1),
                AddressSyllable::RegisterAddressing(Register::Data(DataRegister::R2)),
                None,
                100,
            ),
            vec![0b1001100101010010],
        ),
        (
            (
                DoubleOperandOpCode::ADD,
                Register::Data(DataRegister::R1),
                AddressSyllable::RegisterAddressing(Register::Data(DataRegister::R2)),
                None,
                100,
            ),
            vec![0b1001101001010010],
        ),
        (
            (
                DoubleOperandOpCode::SUB,
                Register::Data(DataRegister::R1),
                AddressSyllable::RegisterAddressing(Register::Data(DataRegister::R2)),
                None,
                100,
            ),
            vec![0b1001001001010010],
        ),
        (
            (
                DoubleOperandOpCode::MUL,
                Register::Data(DataRegister::R1),
                AddressSyllable::RegisterAddressing(Register::Data(DataRegister::R2)),
                None,
                100,
            ),
            vec![0b1001101101010010],
        ),
        (
            (
                DoubleOperandOpCode::DIV,
                Register::Data(DataRegister::R1),
                AddressSyllable::RegisterAddressing(Register::Data(DataRegister::R2)),
                None,
                100,
            ),
            vec![0b1001001101010010],
        ),
        (
            (
                DoubleOperandOpCode::OR,
                Register::Data(DataRegister::R1),
                AddressSyllable::RegisterAddressing(Register::Data(DataRegister::R2)),
                None,
                100,
            ),
            vec![0b1001010001010010],
        ),
        (
            (
                DoubleOperandOpCode::XOR,
                Register::Data(DataRegister::R1),
                AddressSyllable::RegisterAddressing(Register::Data(DataRegister::R2)),
                None,
                100,
            ),
            vec![0b1001011001010010],
        ),
        (
            (
                DoubleOperandOpCode::AND,
                Register::Data(DataRegister::R1),
                AddressSyllable::RegisterAddressing(Register::Data(DataRegister::R2)),
                None,
                100,
            ),
            vec![0b1001010101010010],
        ),
        (
            (
                DoubleOperandOpCode::LDH,
                Register::Data(DataRegister::R1),
                AddressSyllable::RegisterAddressing(Register::Data(DataRegister::R2)),
                None,
                100,
            ),
            vec![0b1001000011010010],
        ),
        (
            (
                DoubleOperandOpCode::STH,
                Register::Data(DataRegister::R1),
                AddressSyllable::RegisterAddressing(Register::Data(DataRegister::R2)),
                None,
                100,
            ),
            vec![0b1001011111010010],
        ),
        (
            (
                DoubleOperandOpCode::CMH,
                Register::Data(DataRegister::R1),
                AddressSyllable::RegisterAddressing(Register::Data(DataRegister::R2)),
                None,
                100,
            ),
            vec![0b1001000111010010],
        ),
        (
            (
                DoubleOperandOpCode::ORH,
                Register::Data(DataRegister::R1),
                AddressSyllable::RegisterAddressing(Register::Data(DataRegister::R2)),
                None,
                100,
            ),
            vec![0b1001010011010010],
        ),
        (
            (
                DoubleOperandOpCode::XOH,
                Register::Data(DataRegister::R1),
                AddressSyllable::RegisterAddressing(Register::Data(DataRegister::R2)),
                None,
                100,
            ),
            vec![0b1001011011010010],
        ),
        (
            (
                DoubleOperandOpCode::ANH,
                Register::Data(DataRegister::R1),
                AddressSyllable::RegisterAddressing(Register::Data(DataRegister::R2)),
                None,
                100,
            ),
            vec![0b1001010111010010],
        ),
        (
            (
                DoubleOperandOpCode::LLH,
                Register::Data(DataRegister::R1),
                AddressSyllable::RegisterAddressing(Register::Data(DataRegister::R2)),
                None,
                100,
            ),
            vec![0b1001001011010010],
        ),
        (
            (
                DoubleOperandOpCode::MTM,
                Register::ModeControl(ModeControlRegister::M1),
                AddressSyllable::RegisterAddressing(Register::Data(DataRegister::R2)),
                None,
                100,
            ),
            vec![0b1001000001010010],
        ),
        (
            (
                DoubleOperandOpCode::STM,
                Register::ModeControl(ModeControlRegister::M1),
                AddressSyllable::RegisterAddressing(Register::Data(DataRegister::R2)),
                None,
                100,
            ),
            vec![0b1001011101010010],
        ),
        (
            (
                DoubleOperandOpCode::LDB,
                Register::Base(BaseRegister::B1),
                AddressSyllable::RegisterAddressing(Register::Data(DataRegister::R2)),
                None,
                100,
            ),
            vec![0b1001110011010010],
        ),
        (
            (
                DoubleOperandOpCode::STB,
                Register::Base(BaseRegister::B1),
                AddressSyllable::RegisterAddressing(Register::Data(DataRegister::R2)),
                None,
                100,
            ),
            vec![0b1001111111010010],
        ),
        (
            (
                DoubleOperandOpCode::CMB,
                Register::Base(BaseRegister::B1),
                AddressSyllable::RegisterAddressing(Register::Data(DataRegister::R2)),
                None,
                100,
            ),
            vec![0b1001110111010010],
        ),
        (
            (
                DoubleOperandOpCode::SWB,
                Register::Base(BaseRegister::B1),
                AddressSyllable::RegisterAddressing(Register::Data(DataRegister::R2)),
                None,
                100,
            ),
            vec![0b1001111011010010],
        ),
        (
            (
                DoubleOperandOpCode::LAB,
                Register::Base(BaseRegister::B1),
                AddressSyllable::ImmediateAddressing(ImmediateAddressMode::Direct(
                    ImmediateAddress::Simple(AddressExpression::Immediate(0x0000)),
                )),
                None,
                100,
            ),
            vec![0b1001101110000000, 0x0000],
        ),
        (
            (
                DoubleOperandOpCode::LNJ,
                Register::Base(BaseRegister::B1),
                AddressSyllable::ImmediateAddressing(ImmediateAddressMode::Direct(
                    ImmediateAddress::Simple(AddressExpression::Immediate(0x0000)),
                )),
                None,
                100,
            ),
            vec![0b1001001110000000, 0x0000],
        ),
    ];

    let label_table = LabelTable::new();

    for ((op, reg, addr_syl, mask, cur_addr), exp) in tests {
        assert_eq!(
            codegen_double_operand(&op, &reg, &addr_syl, &mask, cur_addr, &label_table)
                .unwrap(),
            exp
        );
    }
}

#[test]
fn codegen_generic_instructions_succ() {
    let tests = [
        (GenericOpCode::HLT, vec![0b0000000000000000]),
        (GenericOpCode::MCL, vec![0b0000000000000001]),
        (GenericOpCode::RTT, vec![0b0000000000000011]),
        (GenericOpCode::RTCN, vec![0b0000000000000100]),
        (GenericOpCode::RTCF, vec![0b0000000000000101]),
        (GenericOpCode::WDTN, vec![0b0000000000000110]),
        (GenericOpCode::WDTF, vec![0b0000000000000111]),
        (GenericOpCode::BRK, vec![0b0000000000000010]),
        (GenericOpCode::MMM, vec![0b0000000000001000]),
        (GenericOpCode::ASD, vec![0b0000000000001010]),
        (GenericOpCode::VLD, vec![0b0000000000001011]),
        (GenericOpCode::QOH, vec![0b0000000001100000]),
        (GenericOpCode::QOT, vec![0b0000000001100001]),
        (GenericOpCode::DQH, vec![0b0000000001100010]),
        (GenericOpCode::DQA, vec![0b0000000001100011]),
        (GenericOpCode::RSC, vec![0b0000000000010001]),
    ];

    for (op, exp) in tests {
        assert_eq!(codegen_generic(&op).unwrap(), exp);
    }
}

#[test]
fn short_value_immediate_codegen_branch_on_indicators_instructions_succ() {
    let tests = [
        (
            (ShortValueImmediateOpCode::LDV, DataRegister::R1, 0),
            vec![0b0001110000000000],
        ),
        (
            (ShortValueImmediateOpCode::CMV, DataRegister::R2, 0xFF),
            vec![0b0010110111111111],
        ),
        (
            (ShortValueImmediateOpCode::ADV, DataRegister::R3, -1),
            vec![0b0011111011111111],
        ),
        (
            (ShortValueImmediateOpCode::MLV, DataRegister::R4, 170),
            vec![0b0100111110101010],
        ),
    ];

    for ((op, branchloc, val), exp) in tests {
        assert_eq!(
            codegen_short_value_immediate(&op, &branchloc, val).unwrap(),
            exp
        );
    }
}

#[test]
fn single_operand_codegen_branch_on_indicators_instructions_succ() {
    let tests = [
        (
            (
                SingleOperandOpCode::INC,
                AddressSyllable::RegisterAddressing(Register::Data(DataRegister::R1)),
                None,
                100,
            ),
            vec![0b1000101011010001],
        ),
        (
            (
                SingleOperandOpCode::CMN,
                AddressSyllable::RegisterAddressing(Register::Base(BaseRegister::B2)),
                None,
                0,
            ),
            vec![0b1000110111010010],
        ),
        (
            (
                SingleOperandOpCode::DEC,
                AddressSyllable::ImmediateOperand(0x1234),
                None,
                0,
            ),
            vec![0b1000100011110000, 0x1234],
        ),
        (
            (
                SingleOperandOpCode::NEG,
                AddressSyllable::ImmediateAddressing(ImmediateAddressMode::Direct(
                    ImmediateAddress::Simple(AddressExpression::Immediate(0x4567)),
                )),
                None,
                0,
            ),
            vec![0b1000001000000000, 0x4567],
        ),
        (
            (
                SingleOperandOpCode::CPL,
                AddressSyllable::ImmediateAddressing(ImmediateAddressMode::Indirect(
                    ImmediateAddress::Simple(AddressExpression::Immediate(0x2939)),
                )),
                None,
                100,
            ),
            vec![0b1000011000001000, 0x2939],
        ),
        (
            (
                SingleOperandOpCode::CL,
                AddressSyllable::ImmediateAddressing(ImmediateAddressMode::Direct(
                    ImmediateAddress::Indexed(
                        AddressExpression::Immediate(0x2000),
                        DataRegister::R1,
                    ),
                )),
                None,
                100,
            ),
            vec![0b1000011100010000, 0x2000],
        ),
        (
            (
                SingleOperandOpCode::CLH,
                AddressSyllable::ImmediateAddressing(ImmediateAddressMode::Indirect(
                    ImmediateAddress::Indexed(
                        AddressExpression::Immediate(0x2000),
                        DataRegister::R2,
                    ),
                )),
                None,
                0,
            ),
            vec![0b1000011110101000, 0x2000],
        ),
        (
            (
                SingleOperandOpCode::CMZ,
                AddressSyllable::BRelative(BRelativeAddressMode::Direct(
                    BRelativeAddress::Simple(BaseRegister::B1),
                )),
                None,
                0,
            ),
            vec![0b1000100110000001],
        ),
        (
            (
                SingleOperandOpCode::CAD,
                AddressSyllable::BRelative(BRelativeAddressMode::Indirect(
                    BRelativeAddress::Simple(BaseRegister::B2),
                )),
                None,
                0,
            ),
            vec![0b1000111010001010],
        ),
        (
            (
                SingleOperandOpCode::STS,
                AddressSyllable::BRelative(BRelativeAddressMode::Direct(
                    BRelativeAddress::Displacement(BaseRegister::B3, 100),
                )),
                None,
                200,
            ),
            vec![0b1000110001000011, 100],
        ),
        (
            (
                SingleOperandOpCode::JMP,
                AddressSyllable::BRelative(BRelativeAddressMode::Indirect(
                    BRelativeAddress::Displacement(BaseRegister::B4, -50),
                )),
                None,
                200,
            ),
            vec![
                0b1000001111001100,
                u16::from_be_bytes((-50 as i16).to_be_bytes()),
            ],
        ),
        (
            (
                SingleOperandOpCode::ENT,
                AddressSyllable::BRelative(BRelativeAddressMode::Direct(
                    BRelativeAddress::Indexed(BaseRegister::B5, DataRegister::R3),
                )),
                None,
                200,
            ),
            vec![0b1000101110110101],
        ),
        (
            (
                SingleOperandOpCode::LEV,
                AddressSyllable::BRelative(BRelativeAddressMode::Indirect(
                    BRelativeAddress::Indexed(BaseRegister::B6, DataRegister::R1),
                )),
                Some(0xAAAA),
                200,
            ),
            vec![0b1000111000011110, 0xAAAA],
        ),
        (
            (
                SingleOperandOpCode::SAVE,
                AddressSyllable::BRelative(BRelativeAddressMode::PushPop(
                    BaseRegister::B7,
                    IncDec::Increment,
                )),
                Some(0xBBBB),
                300,
            ),
            vec![0b1000111101110111, 0xBBBB],
        ),
        (
            (
                SingleOperandOpCode::RSTR,
                AddressSyllable::BRelative(BRelativeAddressMode::PushPop(
                    BaseRegister::B1,
                    IncDec::Decrement,
                )),
                Some(0xCCCC),
                300,
            ),
            vec![0b1000111111100001, 0xCCCC],
        ),
        (
            (
                SingleOperandOpCode::LB,
                AddressSyllable::BRelative(BRelativeAddressMode::IncDecIndexed(
                    BaseRegister::B2,
                    DataRegister::R2,
                    IncDec::Increment,
                )),
                Some(0x1234),
                300,
            ),
            vec![0b1000001011101110, 0x1234],
        ),
        (
            (
                SingleOperandOpCode::LBF,
                AddressSyllable::BRelative(BRelativeAddressMode::IncDecIndexed(
                    BaseRegister::B3,
                    DataRegister::R3,
                    IncDec::Decrement,
                )),
                Some(0x1234),
                300,
            ),
            vec![0b1000100001111011, 0x1234],
        ),
        (
            (
                SingleOperandOpCode::LBT,
                AddressSyllable::PRelative(PRelativeAddress::Direct(
                    AddressExpression::Immediate(0x1234),
                )),
                Some(0x5555),
                0x1000,
            ),
            vec![0b1000100101000000, 0x0234, 0x5555],
        ),
        (
            (
                SingleOperandOpCode::LBC,
                AddressSyllable::PRelative(PRelativeAddress::Indirect(
                    AddressExpression::Immediate(200),
                )),
                Some(0x5555),
                1000,
            ),
            vec![
                0b1000101101001000,
                u16::from_be_bytes((-800 as i16).to_be_bytes()),
                0x5555,
            ],
        ),
        (
            (
                SingleOperandOpCode::LBS,
                AddressSyllable::RegisterAddressing(Register::Data(DataRegister::R1)),
                Some(0x0000),
                0,
            ),
            vec![0b1000101001010001, 0x0000],
        ),
        (
            (
                SingleOperandOpCode::AID,
                AddressSyllable::ImmediateAddressing(ImmediateAddressMode::Direct(
                    ImmediateAddress::Simple(AddressExpression::Immediate(0x1000)),
                )),
                None,
                0,
            ),
            vec![0b1000010000000000, 0x1000],
        ),
        (
            (
                SingleOperandOpCode::LDI,
                AddressSyllable::ImmediateAddressing(ImmediateAddressMode::Direct(
                    ImmediateAddress::Simple(AddressExpression::Immediate(0x1000)),
                )),
                None,
                0,
            ),
            vec![0b1000110010000000, 0x1000],
        ),
        (
            (
                SingleOperandOpCode::SDI,
                AddressSyllable::ImmediateAddressing(ImmediateAddressMode::Direct(
                    ImmediateAddress::Simple(AddressExpression::Immediate(0x1000)),
                )),
                None,
                0,
            ),
            vec![0b1000110100000000, 0x1000],
        ),
        (
            (
                SingleOperandOpCode::SID,
                AddressSyllable::ImmediateAddressing(ImmediateAddressMode::Direct(
                    ImmediateAddress::Simple(AddressExpression::Immediate(0x1000)),
                )),
                None,
                0,
            ),
            vec![0b1000010010000000, 0x1000],
        ),
    ];

    let label_table = LabelTable::new();

    for ((op, addr_syl, mask, cur_addr), exp) in tests {
        assert_eq!(
            codegen_single_operand(&op, &addr_syl, &mask, cur_addr, &label_table).unwrap(),
            exp
        );
    }
}
