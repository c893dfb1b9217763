//! A CHIP-8 interpreter core: machine state, instruction decoding, the
//! execution of each instruction and the sprite blitter, with the behaviour
//! of every function stated as a contract and proved.

pub mod cpu;
pub mod graphic;
pub mod instructions;
pub mod keyboard;
pub mod opcodes;
