//! Placement of the calibration blob at the top of the chip's RAM.

use vstd::prelude::*;
use crate::bytes::{round_up4, spec_round_up4};
use crate::consts::{ATCM_RAM_BASE_ADDRESS, CHIP_RAM_SIZE};

verus! {

/// Longest calibration blob that fits below the trailer word.
pub const NVRAM_MAX_LEN: usize = 0x7_fffc;

/// The trailer word for a blob of `words` 32-bit words: the count in the low
/// half, its complement in the high half.
pub open spec fn spec_nvram_magic(words: u32) -> u32 {
    (!words << 16) | words
}

/// Computes the trailer word for a blob of `words` 32-bit words.
#[verifier::when_used_as_spec(spec_nvram_magic)]
pub fn nvram_magic(words: u32) -> (magic: u32)
    ensures
        magic == spec_nvram_magic(words),
{
    (!words << 16) | words
}

/// Address of the trailer word: the last word of the chip's RAM.
pub open spec fn spec_nvram_magic_addr() -> u32 {
    (ATCM_RAM_BASE_ADDRESS + CHIP_RAM_SIZE - 4) as u32
}

/// Address at which a blob of `len` bytes is placed: it ends, padded to whole
/// words, at the trailer word.
pub open spec fn spec_nvram_addr(len: int) -> u32 {
    (ATCM_RAM_BASE_ADDRESS + CHIP_RAM_SIZE - 4 - spec_round_up4(len)) as u32
}

/// Where a calibration blob goes and what its trailer is.
#[derive(Clone, Copy, Debug, PartialEq, Eq, Structural)]
pub struct NvramPlacement {
    /// Address of the blob.
    pub addr: u32,
    /// Address of the trailer word.
    pub magic_addr: u32,
    /// The trailer word.
    pub magic: u32,
}

/// Works out where a calibration blob of `len` bytes goes and what its
/// trailer is.
pub fn nvram_placement(len: usize) -> (p: NvramPlacement)
    requires
        len <= NVRAM_MAX_LEN,
    ensures
        p.addr == spec_nvram_addr(len as int),
        p.magic_addr == spec_nvram_magic_addr(),
        p.magic == spec_nvram_magic((spec_round_up4(len as int) / 4) as u32),
        p.addr + spec_round_up4(len as int) == p.magic_addr,
{
    let padded = round_up4(len) as u32;
    let magic_addr = ATCM_RAM_BASE_ADDRESS + CHIP_RAM_SIZE - 4;
    NvramPlacement { addr: magic_addr - padded, magic_addr, magic: nvram_magic(padded / 4) }
}

/// The low half of the trailer is the word count and the high half its
/// complement, for every blob that fits into the chip's RAM.
pub proof fn lemma_nvram_magic_halves(words: u32)
    requires
        words <= 0xffff,
    ensures
        spec_nvram_magic(words) & 0xffff == words,
        spec_nvram_magic(words) >> 16 == !words & 0xffff,
{
    assert(((!words << 16) | words) & 0xffff == words) by (bit_vector)
        requires
            words <= 0xffff,
    ;
    assert(((!words << 16) | words) >> 16 == !words & 0xffff) by (bit_vector)
        requires
            words <= 0xffff,
    ;
}

} // verus!
