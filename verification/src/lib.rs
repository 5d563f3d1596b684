//! An interpreter for the 8-bit CPU of a handheld game console and the
//! memory-mapped address space it runs on.
//!
//! The crate is split in two layers. `machine` says what the console does, as
//! functions on mathematical states; `laws` proves what follows from that.
//! `cpu`, `memory` and `gameboy` are the code that runs, each operation
//! proved to do what `machine` says.

pub mod alu;
pub mod cpu;
pub mod error;
pub mod gameboy;
pub mod instruction;
pub mod laws;
pub mod machine;
pub mod memory;
pub mod registers;
pub mod utils;

pub use crate::gameboy::Gameboy;
