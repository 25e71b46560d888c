//! Core of a driver for CYW43-class Wi-Fi radios on a 32-bit SPI bus, free of
//! I/O: it says which bus operation comes next and what a received packet
//! asks for, and leaves the transfers, the waits and the queues to the task
//! that drives it.
//!
//! - [`boot`] holds the boot sequence as a script and the sequencer that walks
//!   through it.
//! - [`runner`] frames what is sent, keeps the transmit credit and dispatches
//!   what is received; [`run`] is its loop, one step at a time.
//! - [`structs`] holds the headers of the chip's framing and their encodings.
//! - [`log`] cuts the firmware's log ring into lines.

pub mod boot;
pub mod bus;
pub mod bytes;
pub mod consts;
pub mod credit;
pub mod events;
pub mod ioctl;
pub mod log;
pub mod nvram;
pub mod run;
pub mod runner;
pub mod structs;
pub mod time;
