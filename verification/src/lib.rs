//! A CHIP-8 interpreter core: memory, registers, the instruction set, the
//! timers and the key-wait halt, each with a machine-checked contract.

pub mod cpu;
pub mod cycle;
pub mod decode;
pub mod display;
pub mod execute;
pub mod fonts;
pub mod keypad;
pub mod laws;
