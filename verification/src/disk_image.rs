pub mod conversion;
pub mod convert;
pub mod crc16;
pub mod disk_parameters;
pub mod encode;
pub mod errors;
pub mod fm;
pub mod hfe;
pub mod ibm3470;
pub mod level6;
