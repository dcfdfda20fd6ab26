//! A CHIP-8 interpreter core: memory, registers, call stack, timers, a
//! monochrome framebuffer and a keypad, driven one instruction per tick.

pub mod chip8;
pub mod display;
pub mod fault;
pub mod instruction;
pub mod keypad;
pub mod laws;
pub mod machine;
pub mod opcodes;
mod random;
pub mod stack;
