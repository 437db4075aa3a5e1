//! A Commodore 64 core: the 6502 interpreter, the banked memory bus with its
//! keyboard bridge, and the VIC-II raster and frame logic.

pub mod bits;
pub mod text;
pub mod opcodes;
pub mod utils;
pub mod keyboard;
pub mod memory;
pub mod memc64;
pub mod cpu;
pub mod dasm;
pub mod emu;
pub mod vic;
pub mod monitor;
