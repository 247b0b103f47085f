//! A CHIP-8 virtual machine core: decoding, per-instruction state transitions
//! and the fetch-decode-execute cycle, each stated against a mathematical model.
pub mod font;
pub mod instruction;
pub mod model;
pub mod state;
pub mod laws;

pub use font::Sprite;
pub use instruction::{Instruction, decode};
pub use model::ExecError;
pub use state::{State, lowest_held};
