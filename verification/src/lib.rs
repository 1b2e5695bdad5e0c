//! An emulator for a small 64-bit load/store architecture: a register file
//! with condition codes, a flat byte-addressable memory, and an engine that
//! executes one encoded instruction per step.

use vstd::prelude::*;

pub mod laws;
pub mod memory;
pub mod model;
pub mod opcode;
pub mod region;
pub mod register;
pub mod vm;
pub mod word;

verus! {

/// The machine word: register values, memory blocks, immediates and addresses.
pub type Word = i64;

/// The unit of memory access.
pub type Block = Word;

/// The number of bytes in a block.
pub const BLOCK_SIZE: usize = 8;

} // verus!
