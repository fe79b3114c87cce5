//! The register file of the DMG sound unit.
//!
//! What the CPU sees of it: the read-back masks of NR10-NR52, the power switch
//! in NR52, and the wave RAM. No sound is made.

use vstd::prelude::*;

verus! {

pub const REG_START: u16 = 0xff10;

pub const REG_END: u16 = 0xff26;

pub const WAVE_START: u16 = 0xff30;

pub const WAVE_END: u16 = 0xff3f;

pub const NR52: u16 = 0xff26;

/// The unit as contracts speak of it.
pub struct ApuState {
    /// NR10-NR52, without their unreadable bits.
    pub regs: Seq<u8>,
    pub wave_ram: Seq<u8>,
    pub powered: bool,
}

impl ApuState {
    pub open spec fn reset() -> ApuState {
        ApuState {
            regs: Seq::new(23, |i: int| 0u8),
            wave_ram: Seq::new(16, |i: int| 0u8),
            powered: false,
        }
    }

    /// The bits of register `i` (counted from NR10) that read as one whatever
    /// was written: those that are write-only or do not exist.
    pub open spec fn read_mask(i: int) -> u8 {
        seq![
            0x80u8, 0x3f, 0x00, 0xff, 0xbf,
            0xff, 0x3f, 0x00, 0xff, 0xbf,
            0x7f, 0xff, 0x9f, 0xff, 0xbf,
            0xff, 0xff, 0x00, 0x00, 0xbf,
            0x00, 0x00, 0x70,
        ][i]
    }

    pub open spec fn read(self, addr: u16) -> u8 {
        if addr == NR52 {
            if self.powered {
                0xf0
            } else {
                0x70
            }
        } else if REG_START <= addr <= REG_END {
            let mask = Self::read_mask(addr - REG_START);
            if self.powered {
                self.regs[addr - REG_START] | mask
            } else {
                mask
            }
        } else if WAVE_START <= addr <= WAVE_END {
            self.wave_ram[addr - WAVE_START]
        } else {
            0xff
        }
    }

    pub open spec fn write(self, addr: u16, value: u8) -> ApuState {
        if addr == NR52 {
            if value < 0x80 {
                // Power off: every register is cleared, the wave RAM is not.
                ApuState { powered: false, regs: Seq::new(23, |i: int| 0u8), ..self }
            } else {
                ApuState { powered: true, ..self }
            }
        } else if REG_START <= addr <= REG_END {
            if self.powered {
                let i = addr - REG_START;
                ApuState { regs: self.regs.update(i, value & !Self::read_mask(i)), ..self }
            } else {
                self
            }
        } else if WAVE_START <= addr <= WAVE_END {
            ApuState { wave_ram: self.wave_ram.update(addr - WAVE_START, value), ..self }
        } else {
            self
        }
    }
}

pub struct Apu {
    regs: [u8; 23],
    wave_ram: [u8; 16],
    powered: bool,
}

impl View for Apu {
    type V = ApuState;

    closed spec fn view(&self) -> ApuState {
        ApuState { regs: self.regs@, wave_ram: self.wave_ram@, powered: self.powered }
    }
}

impl Apu {
    /// Powered off, everything clear.
    pub fn new() -> (r: Self)
        ensures
            r@ == ApuState::reset(),
    {
        let r = Self { regs: [0; 23], wave_ram: [0; 16], powered: false };
        assert(r@.regs =~= ApuState::reset().regs);
        assert(r@.wave_ram =~= ApuState::reset().wave_ram);
        r
    }

    fn read_mask(i: u16) -> (r: u8)
        requires
            i < 23,
        ensures
            r == ApuState::read_mask(i as int),
    {
        match i {
            0 => 0x80,
            1 | 6 => 0x3f,
            2 | 7 | 17 | 18 | 20 | 21 => 0x00,
            4 | 9 | 14 | 19 => 0xbf,
            10 => 0x7f,
            12 => 0x9f,
            22 => 0x70,
            _ => 0xff,
        }
    }

    /// Read a register or a byte of wave RAM; any other address reads 0xFF.
    pub fn read(&self, addr: u16) -> (r: u8)
        ensures
            r == self@.read(addr),
    {
        if addr == NR52 {
            if self.powered {
                0xf0
            } else {
                0x70
            }
        } else if REG_START <= addr && addr <= REG_END {
            let mask: u8 = Self::read_mask(addr - REG_START);
            if self.powered {
                self.regs[(addr - REG_START) as usize] | mask
            } else {
                mask
            }
        } else if WAVE_START <= addr && addr <= WAVE_END {
            self.wave_ram[(addr - WAVE_START) as usize]
        } else {
            0xff
        }
    }

    /// Write a register or a byte of wave RAM. While the unit is off only NR52
    /// and the wave RAM take writes.
    pub fn write(&mut self, addr: u16, value: u8)
        ensures
            final(self)@ == old(self)@.write(addr, value),
    {
        if addr == NR52 {
            if value < 0x80 {
                self.powered = false;
                self.regs = [0; 23];
                assert(self@.regs =~= Seq::new(23, |i: int| 0u8));
            } else {
                self.powered = true;
            }
        } else if REG_START <= addr && addr <= REG_END {
            if self.powered {
                let i: u16 = addr - REG_START;
                self.regs[i as usize] = value & !Self::read_mask(i);
            }
        } else if WAVE_START <= addr && addr <= WAVE_END {
            self.wave_ram[(addr - WAVE_START) as usize] = value;
        }
    }

    /// Let `cycles` T-cycles go by. The register file has no clocked part.
    pub fn tick(&mut self, cycles: u8)
        ensures
            final(self)@ == old(self)@,
    {
    }
}

impl Default for Apu {
    fn default() -> (r: Self)
        ensures
            r@ == ApuState::reset(),
    {
        Self::new()
    }
}

/// While the unit is powered a register reads back what was written, with its
/// unreadable bits set; the other registers and the wave RAM keep theirs.
pub proof fn law_powered_register_reads_back(s: ApuState, addr: u16, other: u16, value: u8)
    requires
        s.powered,
        s.regs.len() == 23,
        REG_START <= addr < NR52,
        other != addr,
    ensures
        s.write(addr, value).read(addr) == value | ApuState::read_mask(addr - REG_START),
        s.write(addr, value).read(other) == s.read(other),
{
    crate::bits::lemma_masked_readback(value, ApuState::read_mask(addr - REG_START));
}

/// Without power no register but NR52 takes a write; the wave RAM does.
pub proof fn law_unpowered_registers_ignore_writes(s: ApuState, addr: u16, value: u8)
    requires
        !s.powered,
        s.wave_ram.len() == 16,
    ensures
        REG_START <= addr < NR52 ==> s.write(addr, value) == s,
        WAVE_START <= addr <= WAVE_END ==> s.write(addr, value).read(addr) == value,
{
}

/// Powering off clears the registers and keeps the wave RAM.
pub proof fn law_power_off_keeps_wave_ram(s: ApuState, value: u8, addr: u16)
    requires
        value < 0x80,
    ensures
        s.write(NR52, value).wave_ram == s.wave_ram,
        s.write(NR52, value).read(NR52) == 0x70,
        REG_START <= addr < NR52 ==> s.write(NR52, value).read(addr) == ApuState::read_mask(
            addr - REG_START,
        ),
{
}

/// A sound unit always holds 23 registers and 16 bytes of wave RAM.
pub proof fn law_apu_sizes(apu: Apu)
    ensures
        apu@.regs.len() == 23,
        apu@.wave_ram.len() == 16,
{
}

} // verus!
