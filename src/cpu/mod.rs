//! The 6502 interpreter.
pub mod addressing;
pub mod bus;
pub mod cpu;
pub mod instruction;
pub mod opcode;
pub mod operand;
pub mod registers;

pub use cpu::Cpu;
