//! An instruction-stepped interpreter for the Intel 8080 microprocessor.
//!
//! The executable code is verified against a mathematical model of the
//! processor: a register file, a 64 KiB byte store, and the state that each
//! instruction leaves.
//!
//! - [`bit`] and [`word`]: bits of a byte, bytes of a word.
//! - [`register`]: the register file and the condition flags.
//! - [`memory`]: the byte store that the processor drives.
//! - [`alu`]: what the arithmetic and logical instructions do to the
//!   registers.
//! - [`instruction`]: the instruction set and the opcode map.
//! - [`machine`]: the model of the whole processor.
//! - [`cpu`]: the processor itself.
//! - [`disassembler`]: instructions as text.
//! - [`laws`]: what holds of every state and every instruction.

pub mod bit;
pub mod word;
pub mod register;
pub mod memory;
pub mod alu;
pub mod instruction;
pub mod machine;
pub mod cpu;
pub mod disassembler;
pub mod laws;

pub use cpu::Cpu;
pub use memory::{Linear, Memory};
