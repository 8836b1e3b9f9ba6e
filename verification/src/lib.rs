//! An interpreter core for the CHIP-8 virtual machine: instruction decoding,
//! the machine state and the semantics of every instruction.

pub mod opcode;
pub mod prng;
pub mod screen;
pub mod state;
pub mod sprite;
pub mod machine;
pub mod debugger;
pub mod laws;
pub mod listing;

pub use machine::Chip8;
pub use opcode::{Instruction, Opcode};
pub use screen::Screen;
pub use state::{Fault, Outcome, State};
