//! A verified execution core for a Nintendo Entertainment System emulator.
//!
//! The crate models the 6502 CPU interpreter, the PPU dot-clock state
//! machine, the address bus that joins them, the NROM cartridge mapper and
//! the CPU/PPU timing coupling.  Every state transition is specified
//! against a mathematical model of the machine state and proved by Verus:
//! each component carries a view into plain sequences and integers, every
//! public operation states its exact effect on that view, and the laws
//! module proves the properties that relate several operations.

pub mod bus;
pub mod cartridge;
pub mod cpu;
pub mod errors;
pub mod hardware;
pub mod inspect;
pub mod instructions;
pub mod laws;
pub mod memory;
pub mod opcode;
pub mod ppu;
pub mod utils;
