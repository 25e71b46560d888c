//! Control requests that the runner carries to the firmware.

use vstd::prelude::*;

verus! {

/// Direction of a control request.
#[allow(non_camel_case_types)]
#[derive(Clone, Copy, Debug, PartialEq, Eq, Structural)]
pub enum IoctlType {
    /// Reads a value from the firmware.
    GET,
    /// Writes a value to the firmware.
    SET,
}

impl IoctlType {
    /// The kind bits of the control header's flags.
    pub open spec fn spec_code(&self) -> u16 {
        match self {
            IoctlType::GET => 0,
            IoctlType::SET => 2,
        }
    }

    /// The kind bits of the control header's flags.
    #[verifier::when_used_as_spec(spec_code)]
    pub fn code(&self) -> (c: u16)
        ensures
            c == self.spec_code(),
    {
        match self {
            IoctlType::GET => 0,
            IoctlType::SET => 2,
        }
    }
}

/// A control request that waits to be sent.
#[derive(Clone, Debug, PartialEq, Eq)]
pub struct PendingIoctl {
    /// Data of the request.
    pub buf: Vec<u8>,
    /// Direction of the request.
    pub kind: IoctlType,
    /// Command number.
    pub cmd: u32,
    /// Interface the request is for.
    pub iface: u32,
}

} // verus!
