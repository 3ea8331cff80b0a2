//! An interpreter for the CHIP-8 instruction set: memory, registers, call
//! stack, timers, a monochrome framebuffer and a sixteen-key keypad, driven one
//! fetch-decode-execute cycle at a time.
use vstd::prelude::*;

pub mod instruction;
pub mod laws;
pub mod machine;
pub mod state;

pub use instruction::{decode, Instruction};
pub use machine::Chip8;
pub use state::{
    Chip8Error, FONTSET, GLYPH_BYTES, MEMORY_SIZE, PROGRAM_START, SCREEN_HEIGHT, SCREEN_SIZE,
    SCREEN_WIDTH, STACK_DEPTH,
};

verus! {

} // verus!
