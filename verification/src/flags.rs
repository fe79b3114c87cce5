//! The CPU's F register.
//!
//! Bit 7 is Z (zero), bit 6 N (subtract), bit 5 H (half-carry) and bit 4 C
//! (carry). The low nibble does not exist in hardware: it always reads as
//! zero, and no operation here can make it anything else.

use crate::bits;
use vstd::prelude::*;

verus! {

/// The four condition flags, as contracts speak of them.
pub struct FlagState {
    pub z: bool,
    pub n: bool,
    pub h: bool,
    pub c: bool,
}

impl FlagState {
    /// No flag set.
    pub open spec fn clear() -> FlagState {
        FlagState { z: false, n: false, h: false, c: false }
    }

    /// The byte whose upper nibble holds the flags, Z topmost.
    pub open spec fn packed(self) -> u8 {
        ((if self.z { 0x80int } else { 0 }) + (if self.n { 0x40int } else { 0 }) + (if self.h {
            0x20int
        } else {
            0
        }) + (if self.c { 0x10int } else { 0 })) as u8
    }

    /// The flags that the upper nibble of `byte` names; the lower is ignored.
    pub open spec fn of_byte(byte: u8) -> FlagState {
        FlagState {
            z: (byte / 0x80) % 2 == 1,
            n: (byte / 0x40) % 2 == 1,
            h: (byte / 0x20) % 2 == 1,
            c: (byte / 0x10) % 2 == 1,
        }
    }
}

/// The F register, packed into one byte.
#[derive(Debug, Copy, Clone, PartialEq, Eq)]
pub struct Flags(u8);

impl View for Flags {
    type V = FlagState;

    closed spec fn view(&self) -> FlagState {
        FlagState::of_byte(self.0)
    }
}

pub const FLAG_Z: u8 = 0x80;

pub const FLAG_N: u8 = 0x40;

pub const FLAG_H: u8 = 0x20;

pub const FLAG_C: u8 = 0x10;

impl Flags {
    #[verifier::type_invariant]
    closed spec fn low_nibble_is_zero(self) -> bool {
        self.0 % 16 == 0
    }

    pub fn z(self) -> (r: bool)
        ensures
            r == self@.z,
    {
        proof {
            bits::lemma_byte_bits(self.0);
        }
        self.0 & FLAG_Z != 0
    }

    pub fn n(self) -> (r: bool)
        ensures
            r == self@.n,
    {
        proof {
            bits::lemma_byte_bits(self.0);
        }
        self.0 & FLAG_N != 0
    }

    pub fn h(self) -> (r: bool)
        ensures
            r == self@.h,
    {
        proof {
            bits::lemma_byte_bits(self.0);
        }
        self.0 & FLAG_H != 0
    }

    pub fn c(self) -> (r: bool)
        ensures
            r == self@.c,
    {
        proof {
            bits::lemma_byte_bits(self.0);
        }
        self.0 & FLAG_C != 0
    }

    pub fn set_z(&mut self, v: bool)
        ensures
            final(self)@ == (FlagState { z: v, ..old(self)@ }),
    {
        self.set(FLAG_Z, v);
    }

    pub fn set_n(&mut self, v: bool)
        ensures
            final(self)@ == (FlagState { n: v, ..old(self)@ }),
    {
        self.set(FLAG_N, v);
    }

    pub fn set_h(&mut self, v: bool)
        ensures
            final(self)@ == (FlagState { h: v, ..old(self)@ }),
    {
        self.set(FLAG_H, v);
    }

    pub fn set_c(&mut self, v: bool)
        ensures
            final(self)@ == (FlagState { c: v, ..old(self)@ }),
    {
        self.set(FLAG_C, v);
    }

    fn set(&mut self, mask: u8, v: bool)
        requires
            mask == FLAG_Z || mask == FLAG_N || mask == FLAG_H || mask == FLAG_C,
        ensures
            final(self)@ == (FlagState {
                z: if mask == FLAG_Z { v } else { old(self)@.z },
                n: if mask == FLAG_N { v } else { old(self)@.n },
                h: if mask == FLAG_H { v } else { old(self)@.h },
                c: if mask == FLAG_C { v } else { old(self)@.c },
            }),
    {
        proof {
            bits::lemma_flag_update(self.0, mask);
        }
        let updated: u8 = if v {
            self.0 | mask
        } else {
            self.0 & !mask
        };
        self.0 = updated & 0xf0;
    }

    /// The register as a byte.
    pub fn bits(self) -> (r: u8)
        ensures
            r == self@.packed(),
            r % 16 == 0,
    {
        proof {
            use_type_invariant(self);
            bits::lemma_byte_bits(self.0);
        }
        self.0
    }

    /// The register with the upper nibble of `bits`; the lower is dropped.
    pub fn from_bits(bits: u8) -> (r: Self)
        ensures
            r@ == FlagState::of_byte(bits),
    {
        proof {
            bits::lemma_byte_bits(bits);
        }
        Self(bits & 0xf0)
    }
}

impl Default for Flags {
    fn default() -> (r: Self)
        ensures
            r@ == FlagState::clear(),
    {
        Self(0)
    }
}

/// Packing the flags and reading them back changes nothing, and packing what
/// a byte names keeps its upper nibble and clears its lower one.
pub proof fn law_flags_roundtrip(flags: FlagState, byte: u8)
    ensures
        FlagState::of_byte(flags.packed()) == flags,
        flags.packed() % 16 == 0,
        FlagState::of_byte(byte).packed() == byte - byte % 16,
{
}

// ----- in numbers -----

/// F holds Z in bit 7, N in bit 6, H in bit 5, C in bit 4, and zeros below; and
/// the flags of a byte are those four bits of it.
pub proof fn law_flags_bit_by_bit(flags: FlagState, byte: u8, k: u8)
    requires
        k < 8,
    ensures
        bits::has_bit(flags.packed(), k) <==> (k == 7 && flags.z) || (k == 6 && flags.n) || (k == 5
            && flags.h) || (k == 4 && flags.c),
        FlagState::of_byte(byte).z == bits::has_bit(byte, 7),
        FlagState::of_byte(byte).n == bits::has_bit(byte, 6),
        FlagState::of_byte(byte).h == bits::has_bit(byte, 5),
        FlagState::of_byte(byte).c == bits::has_bit(byte, 4),
        !FlagState::clear().z,
        !FlagState::clear().n,
        !FlagState::clear().h,
        !FlagState::clear().c,
{
    bits::lemma_byte_bits(byte);
    bits::lemma_masks_are_bits(byte);
    bits::lemma_byte_bits(flags.packed());
    bits::lemma_masks_are_bits(flags.packed());
    bits::lemma_low_nibble_bits(flags.packed());
    law_flags_roundtrip(flags, byte);
    assert(k == 0 || k == 1 || k == 2 || k == 3 || k == 4 || k == 5 || k == 6 || k == 7);
}

} // verus!
