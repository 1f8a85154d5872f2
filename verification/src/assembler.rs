pub mod assemble;
pub mod codegen;
pub mod errors;
pub mod labels;
pub mod mnemonics;
pub mod parsers;
pub mod size;
pub mod statements;
