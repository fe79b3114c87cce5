//! The four states of the PPU and how STAT encodes them.

use vstd::prelude::*;

verus! {

#[derive(Debug, Copy, Clone, PartialEq, Eq, Structural)]
pub enum PpuMode {
    HBlank,
    VBlank,
    OamSearch,
    Drawing,
}

impl PpuMode {
    /// The low two bits of STAT.
    pub open spec fn code(self) -> u8 {
        match self {
            PpuMode::HBlank => 0,
            PpuMode::VBlank => 1,
            PpuMode::OamSearch => 2,
            PpuMode::Drawing => 3,
        }
    }

    /// The low two bits of STAT (0xFF41).
    pub fn stat_bits(self) -> (r: u8)
        ensures
            r == self.code(),
    {
        match self {
            PpuMode::HBlank => 0,
            PpuMode::VBlank => 1,
            PpuMode::OamSearch => 2,
            PpuMode::Drawing => 3,
        }
    }
}

} // verus!
