pub mod arguments;
pub mod numbers;
pub mod opcodes;
pub mod operands;
pub mod statement;
