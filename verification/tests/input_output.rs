use level6::assembler::codegen::input_output::{
    codegen_input_output, codegen_input_output_load, ChannelExpression, InputOutputOpCode,
};
use level6::assembler::labels::LabelTable;
use level6::assembler::statements::{
    AddressExpression, AddressSyllable, BRelativeAddress, BRelativeAddressMode, BaseRegister,
    DataRegister, ImmediateAddress, ImmediateAddressMode, Register,
};

#[test]
fn codegen_input_output_instructions_succ() {
    let tests = [
        (
            (
                InputOutputOpCode::IO,
                AddressSyllable::RegisterAddressing(Register::Data(DataRegister::R1)),
                ChannelExpression::Immediate(0x20, 0x18),
                100,
            ),
            vec![0b1000000001010001, 0b0000100000011000],
        ),
        (
            (
                InputOutputOpCode::IOH,
                AddressSyllable::ImmediateAddressing(ImmediateAddressMode::Direct(
                    ImmediateAddress::Simple(AddressExpression::Immediate(0x1234)),
                )),
                ChannelExpression::AddressSyllable(AddressSyllable::ImmediateOperand(0xAAAA)),
                100,
            ),
            vec![0b1000000100000000, 0x1234, 0b0000000001110000, 0xAAAA],
        ),
        (
            (
                InputOutputOpCode::IO,
                AddressSyllable::ImmediateAddressing(ImmediateAddressMode::Direct(
                    ImmediateAddress::Simple(AddressExpression::Immediate(0x1234)),
                )),
                ChannelExpression::AddressSyllable(AddressSyllable::RegisterAddressing(
                    Register::Data(DataRegister::R2),
                )),
                100,
            ),
            vec![0b1000000000000000, 0x1234, 0b0000000001010010],
        ),
    ];

    let label_table = LabelTable::new();

    for ((op, addr_syl, chan_expr, cur_addr), exp) in tests {
        assert_eq!(
            codegen_input_output(&op, &addr_syl, &chan_expr, cur_addr, &label_table).unwrap(),
            exp
        );
    }
}

#[test]
fn codegen_input_output_load_instructions_succ() {
    let tests = [
        (
            (
                AddressSyllable::BRelative(BRelativeAddressMode::Direct(
                    BRelativeAddress::Simple(BaseRegister::B1),
                )),
                ChannelExpression::Immediate(0x42, 0x09),
                AddressSyllable::RegisterAddressing(Register::Data(DataRegister::R3)),
                100,
            ),
            vec![0b1000000110000001, 0b0001000010001001, 0b0000000001010011],
        ),
        (
            (
                AddressSyllable::ImmediateAddressing(ImmediateAddressMode::Direct(
                    ImmediateAddress::Simple(AddressExpression::Immediate(0xBBBB)),
                )),
                ChannelExpression::AddressSyllable(AddressSyllable::ImmediateAddressing(
                    ImmediateAddressMode::Direct(ImmediateAddress::Simple(
                        AddressExpression::Immediate(0xCCCC),
                    )),
                )),
                AddressSyllable::ImmediateAddressing(ImmediateAddressMode::Direct(
                    ImmediateAddress::Simple(AddressExpression::Immediate(0xDDDD)),
                )),
                100,
            ),
            vec![
                0b1000000110000000,
                0xBBBB,
                0b0000000000000000,
                0xCCCC,
                0b0000000000000000,
                0xDDDD,
            ],
        ),
    ];

    let label_table = LabelTable::new();

    for ((buffer_addr_syl, chan_expr, range_addr_syl, cur_addr), exp) in tests {
        assert_eq!(
            codegen_input_output_load(
                &buffer_addr_syl,
                &chan_expr,
                &range_addr_syl,
                cur_addr,
                &label_table
            )
            .unwrap(),
            exp
        );
    }
}
