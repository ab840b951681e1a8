//! The example programs for the computer, as lists of instructions.
pub mod common;
pub mod font;
pub mod programs;
