//! An emulator core for an Intel 8080 arcade machine: the processor, its
//! memory and port map, the frame scheduler that drives it, and the state
//! shared with a presentation layer.
//!
//! Every executable function carries a contract stated over a mathematical
//! model of the machine, and every contract is proved.

pub mod bits;
pub mod error;
pub mod flags;
pub mod alu;
pub mod memory;
pub mod instruction;
pub mod cpu;
pub mod state;
pub mod emulator;
pub mod display;
pub mod controls;
