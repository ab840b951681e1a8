//! A gate-level simulation of a simple 16-bit computer, together with an
//! assembler for its instruction set and a generator of example programs.
pub mod assembler;
pub mod bits;
pub mod gates;
pub mod generator;
pub mod memory;
pub mod components;
pub mod computer;
pub mod cpu;
pub mod io;
