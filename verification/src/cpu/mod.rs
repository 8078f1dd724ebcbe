//! The 6502 CPU: its opcode table, its registers and its instructions.
pub mod cpu6502;
pub mod decode;
pub mod inst_enum;
pub mod model;
pub mod processor;
pub mod laws;

pub use cpu6502::{Cpu, CoreView};
