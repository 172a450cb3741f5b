//! A virtual machine for an 8-bit instruction set with 16-bit big-endian
//! opcodes: 4 KiB of memory, sixteen byte registers, a bounded call stack,
//! a delay timer, a 64x32 monochrome display and a 16-key keypad.

pub mod emulator;
pub mod instruction;
pub mod keyboard;
pub mod laws;
pub mod memory;
pub mod processor;
pub mod renderer;
