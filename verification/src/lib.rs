//! A verified interpreter core for the CHIP-8 virtual machine.
//!
//! The machine is a 4 KiB memory, sixteen byte registers, an index register,
//! a call stack, a 64x32 monochrome display, a sixteen-key keypad and two
//! countdown timers. Every operation carries a contract over a mathematical
//! model of the machine, and the instruction set is specified as a step
//! function on that model.

pub mod chip;
pub mod display;
pub mod instruction;
pub mod keyboard;
pub mod laws;
pub mod machine;
pub mod memory;
pub mod registers;
pub mod render;
pub mod sprites;
pub mod timers;
