//! Operations that the runner asks the bus driver to perform.

use vstd::prelude::*;

verus! {

/// One operation on the bus, or a pause between two of them. A read is
/// answered with the value read; anything else with nothing.
#[allow(inconsistent_fields)]
#[derive(Clone, Copy, Debug, PartialEq, Eq)]
pub enum BusOp {
    /// Bring up the bus link.
    Init,
    /// Read an 8-bit register of a function.
    Read8 { func: u32, addr: u32 },
    /// Read a 16-bit register of a function.
    Read16 { func: u32, addr: u32 },
    /// Read a 32-bit register of a function.
    Read32 { func: u32, addr: u32 },
    /// Write an 8-bit register of a function.
    Write8 { func: u32, addr: u32, val: u8 },
    /// Write a 16-bit register of a function.
    Write16 { func: u32, addr: u32, val: u16 },
    /// Read 8 bits at a backplane address.
    BpRead8 { addr: u32 },
    /// Read 16 bits at a backplane address.
    BpRead16 { addr: u32 },
    /// Read 32 bits at a backplane address.
    BpRead32 { addr: u32 },
    /// Write 8 bits at a backplane address.
    BpWrite8 { addr: u32, val: u8 },
    /// Write 32 bits at a backplane address.
    BpWrite32 { addr: u32, val: u32 },
    /// Read `len` bytes from a backplane address on.
    BpRead { addr: u32, len: usize },
    /// Write the firmware image from a backplane address on.
    BpWriteFirmware { addr: u32 },
    /// Write the calibration blob from a backplane address on.
    BpWriteNvram { addr: u32 },
    /// Keep the processor busy for a while.
    BlockFor(embassy_time::Duration),
    /// Let other tasks run for a while.
    Delay(embassy_time::Duration),
}

} // verus!
