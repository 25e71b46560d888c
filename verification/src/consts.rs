//! Register addresses, bit masks and chip parameters of the CYW43439.

use vstd::prelude::*;

verus! {

/// SPI function that addresses the bus configuration registers.
pub const FUNC_BUS: u32 = 0;

/// SPI function that addresses the backplane.
pub const FUNC_BACKPLANE: u32 = 1;

/// SPI function that carries WLAN packets.
pub const FUNC_WLAN: u32 = 2;

/// Interrupt status register (16 bits).
pub const REG_BUS_INTERRUPT: u32 = 0x04;

/// Interrupt mask register (16 bits).
pub const REG_BUS_INTERRUPT_ENABLE: u32 = 0x06;

/// Bus status register (32 bits).
pub const REG_BUS_STATUS: u32 = 0x08;

pub const STATUS_F2_RX_READY: u32 = 0x0000_0020;

pub const STATUS_F2_PKT_AVAILABLE: u32 = 0x0000_0100;

pub const STATUS_F2_PKT_LEN_MASK: u32 = 0x000F_FE00;

pub const STATUS_F2_PKT_LEN_SHIFT: u32 = 9;

pub const REG_BACKPLANE_FUNCTION2_WATERMARK: u32 = 0x10008;

pub const REG_BACKPLANE_CHIP_CLOCK_CSR: u32 = 0x1000E;

pub const REG_BACKPLANE_PULL_UP: u32 = 0x1000F;

/// Request for the active-low-power clock.
pub const BACKPLANE_ALP_AVAIL_REQ: u8 = 0x08;

/// The active-low-power clock is available.
pub const BACKPLANE_ALP_AVAIL: u8 = 0x40;

/// The high-throughput clock is available.
pub const BACKPLANE_HT_AVAIL: u8 = 0x80;

/// Watermark written to function 2 during boot.
pub const F2_WATERMARK: u8 = 32;

/// Backplane address of the chip identification register.
pub const CHIP_ID_ADDRESS: u32 = 0x1800_0000;

pub const AI_IOCTRL_OFFSET: u32 = 0x408;

pub const AI_IOCTRL_BIT_FGC: u8 = 0x02;

pub const AI_IOCTRL_BIT_CLOCK_EN: u8 = 0x01;

pub const AI_RESETCTRL_OFFSET: u32 = 0x800;

pub const AI_RESETCTRL_BIT_RESET: u8 = 0x01;

/// Requested data was not available; cleared by writing a one.
pub const IRQ_DATA_UNAVAILABLE: u16 = 0x0001;

pub const IRQ_F2_PACKET_AVAILABLE: u16 = 0x0020;

pub const CHANNEL_TYPE_CONTROL: u8 = 0;

pub const CHANNEL_TYPE_EVENT: u8 = 1;

pub const CHANNEL_TYPE_DATA: u8 = 2;

pub const BDC_VERSION: u8 = 2;

pub const BDC_VERSION_SHIFT: u8 = 4;

/// Largest frame the host network stack hands over or accepts.
pub const MTU: usize = 1514;

/// Bytes in the scratch buffer that every frame is built and received in
/// (512 words).
pub const SCRATCH_BYTES: usize = 2048;

/// Offset between a core's registers and its wrapper registers.
pub const WRAPPER_REGISTER_OFFSET: u32 = 0x10_0000;

pub const ARM_CORE_BASE_ADDRESS: u32 = 0x1800_3000 + WRAPPER_REGISTER_OFFSET;

pub const SOCSRAM_BASE_ADDRESS: u32 = 0x1800_4000;

pub const SOCSRAM_WRAPPER_BASE_ADDRESS: u32 = 0x1800_4000 + WRAPPER_REGISTER_OFFSET;

pub const CHIP_RAM_SIZE: u32 = 512 * 1024;

pub const ATCM_RAM_BASE_ADDRESS: u32 = 0;

pub const SOCRAM_SRMEM_SIZE: u32 = 64 * 1024;

/// A core of the chip that the boot sequence resets.
#[derive(Clone, Copy, Debug, PartialEq, Eq, Structural)]
pub enum Core {
    /// The ARM core that runs the WLAN firmware.
    WLAN,
    /// The on-chip RAM controller.
    SOCSRAM,
}

impl Core {
    /// Base address of the core's wrapper registers on the backplane.
    pub open spec fn spec_base_addr(self) -> u32 {
        match self {
            Core::WLAN => ARM_CORE_BASE_ADDRESS,
            Core::SOCSRAM => SOCSRAM_WRAPPER_BASE_ADDRESS,
        }
    }

    /// Base address of the core's wrapper registers on the backplane.
    #[verifier::when_used_as_spec(spec_base_addr)]
    pub fn base_addr(self) -> (addr: u32)
        ensures
            addr == self.spec_base_addr(),
            addr + AI_RESETCTRL_OFFSET <= u32::MAX,
    {
        match self {
            Core::WLAN => ARM_CORE_BASE_ADDRESS,
            Core::SOCSRAM => SOCSRAM_WRAPPER_BASE_ADDRESS,
        }
    }
}

} // verus!
