//! An interpreter for an 8-bit virtual machine with 4 KiB of memory, sixteen
//! registers, a 64x32 monochrome framebuffer and a sixteen-key keypad.

pub mod error;
pub mod instruction;
pub mod state;
pub mod semantics;
pub mod machine;
mod random;
pub mod laws;
