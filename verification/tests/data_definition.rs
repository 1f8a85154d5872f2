use level6::assembler::codegen::data_definition::codegen_data_definition;
use level6::assembler::statements::DataDefinitionSize;

#[test]
fn data_definition_codegen_branch_on_indicators_instructions_succ() {
    let tests = [
        ((DataDefinitionSize::Byte, vec![0x12, 0x89]), vec![0x1289]),
        ((DataDefinitionSize::Byte, vec![0x23]), vec![0x2300]),
        (
            (DataDefinitionSize::Byte, vec![0x00, 0xFF, 0x12]),
            vec![0x00FF, 0x1200],
        ),
        (
            (DataDefinitionSize::Word, vec![0x1234, 0xABCD, 0, 12, -12]),
            vec![0x1234, 0xABCD, 0x0000, 12, 0xFFF4],
        ),
        (
            (DataDefinitionSize::DoubleWord, vec![0x12345678, 0]),
            vec![0x1234, 0x5678, 0x0000, 0x0000],
        ),
        (
            (DataDefinitionSize::QuadWord, vec![0x12345678ABCD9876, 0]),
            vec![
                0x1234, 0x5678, 0xABCD, 0x9876, 0x0000, 0x0000, 0x0000, 0x0000,
            ],
        ),
    ];

    for ((size, chunks), exp) in tests {
        assert_eq!(codegen_data_definition(&size, &chunks).unwrap(), exp);
    }
}
