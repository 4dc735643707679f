//! A CHIP-8 virtual machine: instruction decoding and execution, the
//! monochrome display with its XOR sprites, and the small deterministic
//! generator behind the random-byte instruction.

pub mod chip8;
pub mod disassembler;
pub mod display;
pub mod engine;
pub mod engines;
pub mod inspect;
pub mod instruction;
pub mod laws;
pub mod machine;
pub mod nibbles;
pub mod rng;
pub mod text;

pub use chip8::{Chip8, Quircks, Request, FONTSET};
pub use disassembler::disassemble_file;
pub use display::PixelBuf;
pub use engine::Engine;
pub use engines::{CliEngine, MinifbEngine};
pub use instruction::{decode, Instruction};
pub use machine::{Fault, Machine};
pub use nibbles::{word_to_nibbles, MergeNibbles};
pub use rng::RngState;
