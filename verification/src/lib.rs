pub mod assembler;
pub mod disk_image;
pub mod logging;
pub mod output;
pub mod preprocessor;
pub mod text;
