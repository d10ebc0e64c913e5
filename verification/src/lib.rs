//! An interpreter for the processing core of a classic 8-bit handheld
//! console: register file, opcode catalogue, memory bus and the
//! fetch/decode/dispatch/flag-commit cycle, with the display's register
//! block and tile composition.

pub mod bus;
pub mod consts;
pub mod cpu;
pub mod error;
pub mod laws;
pub mod loader;
pub mod opcodes;
pub mod param;
pub mod ppu;
pub mod ram_memory;
pub mod registers;
pub mod rom_parser;
pub mod semantics;
pub mod text;
pub mod trace;
