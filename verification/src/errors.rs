//! The error surface of the engine.

use vstd::prelude::*;

verus! {

/// Everything the engine can report: the three load-time failures, the
/// decode-time failure with the offending program counter and opcode byte,
/// and a cartridge address that decodes to no mapped window.
#[derive(Clone, Copy, Debug, PartialEq, Eq, Structural)]
pub enum EmuError {
    /// The file does not begin with the iNES magic bytes.
    InvalidMagic,
    /// The header names a mapper other than NROM.
    UnsupportedMapper,
    /// The file ends before the header-announced data does.
    TruncatedFile,
    /// The byte at the program counter is no documented opcode.
    InvalidOpcode(u16, u8),
    /// A cartridge-window address that the mapper does not serve.
    MapperOutOfRange(u16),
}

} // verus!
