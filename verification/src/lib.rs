//! A virtual machine for an 8-bit architecture with sixteen registers, 4 KiB
//! of memory, a sixteen-slot call stack, two countdown timers, a 64x32
//! monochrome display and a sixteen-key keypad.

pub mod cpu;
pub mod display;
pub mod input;
pub mod instruction;
pub mod interpreter;
pub mod laws;
pub mod machine;
pub mod schedule;

pub use crate::interpreter::Interpreter;
