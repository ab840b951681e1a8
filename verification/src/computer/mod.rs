//! The parts of the computer outside the CPU.
pub mod iobus;

pub use iobus::{IOBus, Mode};
pub mod machine;

pub use machine::{Computer, PrintStateConfig, CODE_REGION_START};
