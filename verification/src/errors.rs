use vstd::prelude::*;

verus! {

/// A read or write into a prohibited address range, or a write into a
/// read-only ROM range. The bus rejects the access rather than silently
/// substituting a value.
#[derive(Clone, Copy, Debug, PartialEq, Eq, Structural)]
pub enum MemoryError {
    IllegalAccess { address: u16 },
}

/// A fatal condition raised by the instruction engine.
#[derive(Clone, Copy, Debug, PartialEq, Eq, Structural)]
pub enum CpuError {
    /// A fetched byte matched no decode template. Carries the offending
    /// byte and the program counter at which it was fetched.
    IllegalOpcode { opcode: u8, pc: u16 },
    /// A memory access performed while executing an instruction was
    /// rejected by the bus.
    IllegalAccess { address: u16 },
}

/// A cartridge image that fails validation before execution starts.
#[derive(Clone, Copy, Debug, PartialEq, Eq, Structural)]
pub enum CartridgeError {
    /// The image is not exactly 32 KiB long.
    WrongLength { actual: usize },
    /// The 48-byte logo in the header does not match the reference constant.
    LogoMismatch,
    /// The header checksum byte does not match the checksum computed over
    /// the header range.
    HeaderChecksumMismatch { expected: u8, actual: u8 },
    /// The big-endian global checksum does not match the sum computed over
    /// the whole image.
    GlobalChecksumMismatch { expected: u16, actual: u16 },
}

/// Everything that can stop the machine: a cartridge rejected before
/// execution begins, or a fatal condition met while executing.
#[derive(Clone, Copy, Debug, PartialEq, Eq, Structural)]
pub enum GameBoyError {
    Cartridge(CartridgeError),
    Execution(CpuError),
}

} // verus!
