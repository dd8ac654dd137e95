//! An interpreter for a small self-modifying tape language.
//!
//! The program is a buffer of bytes, one instruction per byte. It runs against
//! a tape of 128 signed cells and may overwrite its own bytes while it runs.

pub mod interpreter;
pub mod laws;
pub mod machine;
pub mod ops;

pub use interpreter::Interpreter;
pub use machine::{Machine, Outcome, DATA_LENGTH};
pub use ops::{Fault, Operations, NUM_COMMANDS};
