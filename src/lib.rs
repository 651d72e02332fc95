pub mod signature;
pub mod file_format;
pub mod assembler;
pub mod store;
pub mod harness;
pub mod args;
pub mod fixtures;
