//! The PPU's memory-mapped registers, 0xFF40-0xFF4B without DMA.
//!
//! `stat_select` holds the writable bits 6 to 3 of STAT; its other bits are
//! made up on read.

use vstd::prelude::*;

verus! {

pub struct Registers {
    pub lcdc: u8,
    pub stat_select: u8,
    pub scy: u8,
    pub scx: u8,
    pub ly: u8,
    pub lyc: u8,
    pub bgp: u8,
    pub obp0: u8,
    pub obp1: u8,
    pub wy: u8,
    pub wx: u8,
}

impl Registers {
    pub open spec fn reset() -> Registers {
        Registers {
            lcdc: 0,
            stat_select: 0,
            scy: 0,
            scx: 0,
            ly: 0,
            lyc: 0,
            bgp: 0,
            obp0: 0,
            obp1: 0,
            wy: 0,
            wx: 0,
        }
    }

    /// All zero.
    pub fn new() -> (r: Self)
        ensures
            r == Self::reset(),
    {
        Self {
            lcdc: 0,
            stat_select: 0,
            scy: 0,
            scx: 0,
            ly: 0,
            lyc: 0,
            bgp: 0,
            obp0: 0,
            obp1: 0,
            wy: 0,
            wx: 0,
        }
    }
}

impl Default for Registers {
    fn default() -> (r: Self)
        ensures
            r == Self::reset(),
    {
        Self::new()
    }
}

} // verus!
