//! Cartridges: plain ROM (MBC0) and the MBC1 mapper.

use vstd::prelude::*;

verus! {

/// A cartridge as the address decoder sees it: a ROM window at 0x0000-0x7FFF
/// and a RAM window at 0xA000-0xBFFF, whose addresses count from 0.
///
/// A cartridge is modelled by a value of its `State` type, as a bus is.
pub trait Cartridge {
    /// Everything that the answers of this cartridge depend on.
    type State;

    spec fn state(&self) -> Self::State;

    /// The byte that a read of the ROM window yields.
    spec fn rom_of(s: Self::State, addr: u16) -> u8;

    /// The byte that a read of the RAM window yields.
    spec fn ram_of(s: Self::State, addr: u16) -> u8;

    /// The state that a write to the ROM window leaves.
    spec fn after_rom_write(s: Self::State, addr: u16, value: u8) -> Self::State;

    /// The state that a write to the RAM window leaves.
    spec fn after_ram_write(s: Self::State, addr: u16, value: u8) -> Self::State;

    fn read_rom(&self, addr: u16) -> (r: u8)
        ensures
            r == Self::rom_of(self.state(), addr),
    ;

    fn write_rom(&mut self, addr: u16, value: u8)
        ensures
            final(self).state() == Self::after_rom_write(old(self).state(), addr, value),
    ;

    fn read_ram(&self, addr: u16) -> (r: u8)
        ensures
            r == Self::ram_of(self.state(), addr),
    ;

    fn write_ram(&mut self, addr: u16, value: u8)
        ensures
            final(self).state() == Self::after_ram_write(old(self).state(), addr, value),
    ;
}

/// The cartridge header's byte for the size of the external RAM.
pub const HEADER_RAM_SIZE: u16 = 0x0149;

/// The cartridge header's byte for the mapper.
pub const HEADER_MAPPER: u16 = 0x0147;

/// The size in bytes of the external RAM that a header byte stands for.
pub open spec fn ram_size(byte: u8) -> nat {
    if byte == 0x01 {
        2 * 1024
    } else if byte == 0x02 {
        8 * 1024
    } else if byte == 0x03 {
        32 * 1024
    } else if byte == 0x04 {
        128 * 1024
    } else if byte == 0x05 {
        64 * 1024
    } else {
        0
    }
}

/// Element `i`, or `default` past the end.
pub open spec fn get_or(bytes: Seq<u8>, i: int, default: u8) -> u8 {
    if 0 <= i < bytes.len() {
        bytes[i]
    } else {
        default
    }
}

/// The external RAM that a ROM image asks for in its header, cleared. An image
/// too short for a header asks for none.
pub open spec fn fresh_ram(rom: Seq<u8>) -> Seq<u8> {
    Seq::new(ram_size(get_or(rom, HEADER_RAM_SIZE as int, 0)), |i: int| 0u8)
}

fn ram_size_from_header(byte: u8) -> (r: usize)
    ensures
        r == ram_size(byte),
{
    match byte {
        0x01 => 2 * 1024,
        0x02 => 8 * 1024,
        0x03 => 32 * 1024,
        0x04 => 128 * 1024,
        0x05 => 64 * 1024,
        _ => 0,
    }
}

fn byte_or(bytes: &Vec<u8>, i: usize, default: u8) -> (r: u8)
    ensures
        r == get_or(bytes@, i as int, default),
{
    if i < bytes.len() {
        bytes[i]
    } else {
        default
    }
}

fn ram_for(rom: &Vec<u8>) -> (r: Vec<u8>)
    ensures
        r@ == fresh_ram(rom@),
{
    let size: usize = ram_size_from_header(byte_or(rom, HEADER_RAM_SIZE as usize, 0));
    let ram: Vec<u8> = vec![0u8; size];
    assert(ram@ =~= fresh_ram(rom@));
    ram
}

/// A cartridge without a mapper, as contracts speak of it.
pub struct Mbc0State {
    pub rom: Seq<u8>,
    pub ram: Seq<u8>,
}

/// A cartridge without a mapper: ROM, and perhaps RAM, at fixed addresses.
pub struct Mbc0 {
    rom: Vec<u8>,
    ram: Vec<u8>,
}

impl Mbc0 {
    pub fn new(rom: Vec<u8>) -> (r: Self)
        ensures
            r.state() == (Mbc0State { rom: rom@, ram: fresh_ram(rom@) }),
    {
        let ram: Vec<u8> = ram_for(&rom);
        Self { rom, ram }
    }
}

impl Cartridge for Mbc0 {
    type State = Mbc0State;

    closed spec fn state(&self) -> Mbc0State {
        Mbc0State { rom: self.rom@, ram: self.ram@ }
    }

    open spec fn rom_of(s: Mbc0State, addr: u16) -> u8 {
        get_or(s.rom, addr as int, 0xff)
    }

    open spec fn ram_of(s: Mbc0State, addr: u16) -> u8 {
        get_or(s.ram, addr as int, 0xff)
    }

    open spec fn after_rom_write(s: Mbc0State, addr: u16, value: u8) -> Mbc0State {
        s
    }

    open spec fn after_ram_write(s: Mbc0State, addr: u16, value: u8) -> Mbc0State {
        if addr < s.ram.len() {
            Mbc0State { ram: s.ram.update(addr as int, value), ..s }
        } else {
            s
        }
    }

    fn read_rom(&self, addr: u16) -> u8 {
        byte_or(&self.rom, addr as usize, 0xff)
    }

    fn write_rom(&mut self, addr: u16, value: u8) {
    }

    fn read_ram(&self, addr: u16) -> u8 {
        byte_or(&self.ram, addr as usize, 0xff)
    }

    fn write_ram(&mut self, addr: u16, value: u8) {
        if (addr as usize) < self.ram.len() {
            self.ram[addr as usize] = value;
        }
    }
}

/// An MBC1 cartridge, as contracts speak of it.
pub struct Mbc1State {
    pub rom: Seq<u8>,
    pub ram: Seq<u8>,
    pub ram_enabled: bool,
    /// Five bits; a written zero counts as one.
    pub bank_lo: u8,
    /// Two bits.
    pub bank_hi: u8,
    /// One bit: whether `bank_hi` applies to the low ROM window and the RAM.
    pub mode: u8,
}

/// The number of whole banks of `size` bytes in `len`, at least one.
pub open spec fn bank_count(len: nat, size: nat) -> nat {
    if len / size == 0 {
        1
    } else {
        len / size
    }
}

impl Mbc1State {
    pub open spec fn fresh(rom: Seq<u8>) -> Mbc1State {
        Mbc1State {
            rom,
            ram: fresh_ram(rom),
            ram_enabled: false,
            bank_lo: 1,
            bank_hi: 0,
            mode: 0,
        }
    }

    /// That the registers hold no more than their bits, and no zero bank.
    pub open spec fn in_range(self) -> bool {
        1 <= self.bank_lo <= 31 && self.bank_hi < 4 && self.mode < 2
    }

    /// The ROM bank that the bank registers select for a window.
    pub open spec fn rom_bank(self, addr: u16) -> nat {
        if addr < 0x4000 {
            if self.mode == 1 {
                (self.bank_hi * 32) as nat
            } else {
                0
            }
        } else {
            (self.bank_hi * 32 + self.bank_lo) as nat
        }
    }

    /// Where in the ROM an address of the ROM window lies. Bank numbers are
    /// cut down to the address lines that a ROM of this size has.
    pub open spec fn rom_offset(self, addr: u16) -> int {
        (self.rom_bank(addr) as usize & (bank_count(self.rom.len(), 0x4000) - 1) as usize) * 0x4000
            + addr % 0x4000
    }

    /// Where in the RAM an address of the RAM window lies.
    pub open spec fn ram_offset(self, addr: u16) -> int {
        let bank = if self.mode == 1 {
            self.bank_hi as usize
        } else {
            0usize
        };
        (bank & (bank_count(self.ram.len(), 0x2000) - 1) as usize) * 0x2000 + addr % 0x2000
    }
}

/// MBC1: up to 2 MiB of ROM in 128 banks and 32 KiB of RAM in 4.
///
/// The bank number has seven bits, `bank_hi` above `bank_lo`. Since a zero
/// written to `bank_lo` counts as one, the window at 0x4000-0x7FFF cannot show
/// banks 0x00, 0x20, 0x40 and 0x60; it shows the ones after them.
pub struct Mbc1 {
    rom: Vec<u8>,
    ram: Vec<u8>,
    ram_enabled: bool,
    bank_lo: u8,
    bank_hi: u8,
    mode: u8,
}

impl Mbc1 {
    pub fn new(rom: Vec<u8>) -> (r: Self)
        ensures
            r.state() == Mbc1State::fresh(rom@),
    {
        let ram: Vec<u8> = ram_for(&rom);
        Self { rom, ram, ram_enabled: false, bank_lo: 1, bank_hi: 0, mode: 0 }
    }

    fn rom_bank_count(&self) -> (r: usize)
        ensures
            r == bank_count(self.state().rom.len(), 0x4000),
            r >= 1,
    {
        let banks: usize = self.rom.len() / 0x4000;
        if banks == 0 {
            1
        } else {
            banks
        }
    }

    fn ram_bank_count(&self) -> (r: usize)
        ensures
            r == bank_count(self.state().ram.len(), 0x2000),
            r >= 1,
    {
        let banks: usize = self.ram.len() / 0x2000;
        if banks == 0 {
            1
        } else {
            banks
        }
    }

    fn ram_offset(&self, addr: u16) -> (r: usize)
        ensures
            r == self.state().ram_offset(addr),
    {
        let bank: usize = if self.mode == 1 {
            self.bank_hi as usize
        } else {
            0
        };
        let last: usize = self.ram_bank_count() - 1;
        proof {
            crate::bits::lemma_and_is_no_more(bank, last);
        }
        (bank & last) * 0x2000 + addr as usize % 0x2000
    }
}

impl Cartridge for Mbc1 {
    type State = Mbc1State;

    closed spec fn state(&self) -> Mbc1State {
        Mbc1State {
            rom: self.rom@,
            ram: self.ram@,
            ram_enabled: self.ram_enabled,
            bank_lo: self.bank_lo,
            bank_hi: self.bank_hi,
            mode: self.mode,
        }
    }

    open spec fn rom_of(s: Mbc1State, addr: u16) -> u8 {
        if addr < 0x8000 {
            get_or(s.rom, s.rom_offset(addr), 0xff)
        } else {
            0xff
        }
    }

    open spec fn ram_of(s: Mbc1State, addr: u16) -> u8 {
        if s.ram_enabled {
            get_or(s.ram, s.ram_offset(addr), 0xff)
        } else {
            0xff
        }
    }

    open spec fn after_rom_write(s: Mbc1State, addr: u16, value: u8) -> Mbc1State {
        if addr < 0x2000 {
            Mbc1State { ram_enabled: value % 16 == 0x0a, ..s }
        } else if addr < 0x4000 {
            Mbc1State {
                bank_lo: if value % 32 == 0 {
                    1
                } else {
                    value % 32
                },
                ..s
            }
        } else if addr < 0x6000 {
            Mbc1State { bank_hi: value % 4, ..s }
        } else if addr < 0x8000 {
            Mbc1State { mode: value % 2, ..s }
        } else {
            s
        }
    }

    open spec fn after_ram_write(s: Mbc1State, addr: u16, value: u8) -> Mbc1State {
        if s.ram_enabled && s.ram_offset(addr) < s.ram.len() {
            Mbc1State { ram: s.ram.update(s.ram_offset(addr), value), ..s }
        } else {
            s
        }
    }

    fn read_rom(&self, addr: u16) -> u8 {
        if addr >= 0x8000 {
            return 0xff;
        }
        let bank: usize = if addr < 0x4000 {
            if self.mode == 1 {
                self.bank_hi as usize * 32
            } else {
                0
            }
        } else {
            self.bank_hi as usize * 32 + self.bank_lo as usize
        };
        let last: usize = self.rom_bank_count() - 1;
        proof {
            crate::bits::lemma_and_is_no_more(bank, last);
        }
        let offset: usize = (bank & last) * 0x4000 + addr as usize % 0x4000;
        byte_or(&self.rom, offset, 0xff)
    }

    fn write_rom(&mut self, addr: u16, value: u8) {
        if addr < 0x2000 {
            self.ram_enabled = value % 16 == 0x0a;
        } else if addr < 0x4000 {
            let low: u8 = value % 32;
            self.bank_lo = if low == 0 {
                1
            } else {
                low
            };
        } else if addr < 0x6000 {
            self.bank_hi = value % 4;
        } else if addr < 0x8000 {
            self.mode = value % 2;
        }
    }

    fn read_ram(&self, addr: u16) -> u8 {
        if !self.ram_enabled || self.ram.len() == 0 {
            return 0xff;
        }
        byte_or(&self.ram, self.ram_offset(addr), 0xff)
    }

    fn write_ram(&mut self, addr: u16, value: u8) {
        if !self.ram_enabled || self.ram.len() == 0 {
            return ;
        }
        let offset: usize = self.ram_offset(addr);
        if offset < self.ram.len() {
            self.ram[offset] = value;
        }
    }
}

/// What [`load_cartridge`] makes of a ROM image, as contracts speak of it.
pub enum LoadedState {
    Mbc0(Mbc0State),
    Mbc1(Mbc1State),
}

/// A cartridge whose mapper was read from the ROM's header.
pub enum LoadedCartridge {
    Mbc0(Mbc0),
    Mbc1(Mbc1),
}

impl Cartridge for LoadedCartridge {
    type State = LoadedState;

    open spec fn state(&self) -> LoadedState {
        match self {
            LoadedCartridge::Mbc0(c) => LoadedState::Mbc0(c.state()),
            LoadedCartridge::Mbc1(c) => LoadedState::Mbc1(c.state()),
        }
    }

    open spec fn rom_of(s: LoadedState, addr: u16) -> u8 {
        match s {
            LoadedState::Mbc0(c) => Mbc0::rom_of(c, addr),
            LoadedState::Mbc1(c) => Mbc1::rom_of(c, addr),
        }
    }

    open spec fn ram_of(s: LoadedState, addr: u16) -> u8 {
        match s {
            LoadedState::Mbc0(c) => Mbc0::ram_of(c, addr),
            LoadedState::Mbc1(c) => Mbc1::ram_of(c, addr),
        }
    }

    open spec fn after_rom_write(s: LoadedState, addr: u16, value: u8) -> LoadedState {
        match s {
            LoadedState::Mbc0(c) => LoadedState::Mbc0(Mbc0::after_rom_write(c, addr, value)),
            LoadedState::Mbc1(c) => LoadedState::Mbc1(Mbc1::after_rom_write(c, addr, value)),
        }
    }

    open spec fn after_ram_write(s: LoadedState, addr: u16, value: u8) -> LoadedState {
        match s {
            LoadedState::Mbc0(c) => LoadedState::Mbc0(Mbc0::after_ram_write(c, addr, value)),
            LoadedState::Mbc1(c) => LoadedState::Mbc1(Mbc1::after_ram_write(c, addr, value)),
        }
    }

    fn read_rom(&self, addr: u16) -> u8 {
        match self {
            LoadedCartridge::Mbc0(c) => c.read_rom(addr),
            LoadedCartridge::Mbc1(c) => c.read_rom(addr),
        }
    }

    fn write_rom(&mut self, addr: u16, value: u8) {
        match self {
            LoadedCartridge::Mbc0(c) => c.write_rom(addr, value),
            LoadedCartridge::Mbc1(c) => c.write_rom(addr, value),
        }
    }

    fn read_ram(&self, addr: u16) -> u8 {
        match self {
            LoadedCartridge::Mbc0(c) => c.read_ram(addr),
            LoadedCartridge::Mbc1(c) => c.read_ram(addr),
        }
    }

    fn write_ram(&mut self, addr: u16, value: u8) {
        match self {
            LoadedCartridge::Mbc0(c) => c.write_ram(addr, value),
            LoadedCartridge::Mbc1(c) => c.write_ram(addr, value),
        }
    }
}

/// That a ROM image has a header that names a supported mapper.
pub open spec fn loadable(rom: Seq<u8>) -> bool {
    rom.len() > HEADER_MAPPER && rom[HEADER_MAPPER as int] <= 0x03
}

/// Whether [`load_cartridge`] takes this ROM image.
pub fn is_loadable(rom: &Vec<u8>) -> (r: bool)
    ensures
        r == loadable(rom@),
{
    rom.len() > HEADER_MAPPER as usize && rom[HEADER_MAPPER as usize] <= 0x03
}

/// The cartridge for a ROM image: without a mapper for header byte 0x00, MBC1
/// for 0x01 to 0x03.
pub fn load_cartridge(rom: Vec<u8>) -> (r: Box<LoadedCartridge>)
    requires
        loadable(rom@),
    ensures
        r.state() == (if rom@[HEADER_MAPPER as int] == 0x00 {
            LoadedState::Mbc0(Mbc0State { rom: rom@, ram: fresh_ram(rom@) })
        } else {
            LoadedState::Mbc1(Mbc1State::fresh(rom@))
        }),
{
    if rom[HEADER_MAPPER as usize] == 0x00 {
        Box::new(LoadedCartridge::Mbc0(Mbc0::new(rom)))
    } else {
        Box::new(LoadedCartridge::Mbc1(Mbc1::new(rom)))
    }
}

/// The window at 0x4000-0x7FFF never shows a bank whose low five bits are
/// zero: whatever is written to the bank register, zero counts as one.
pub proof fn law_mbc1_bank_zero_reads_as_one(s: Mbc1State, addr: u16, value: u8)
    requires
        0x2000 <= addr < 0x4000,
    ensures
        1 <= Mbc1::after_rom_write(s, addr, value).bank_lo <= 31,
        value % 32 == 0 ==> Mbc1::after_rom_write(s, addr, value).bank_lo == 1,
        value % 32 != 0 ==> Mbc1::after_rom_write(s, addr, value).bank_lo == value % 32,
{
}

/// The bank registers stay within their bits, the low one never zero: so they
/// are at first, and no write changes it.
pub proof fn law_mbc1_registers_stay_in_range(
    rom: Seq<u8>,
    s: Mbc1State,
    addr: u16,
    value: u8,
)
    requires
        s.in_range(),
    ensures
        Mbc1State::fresh(rom).in_range(),
        Mbc1::after_rom_write(s, addr, value).in_range(),
        Mbc1::after_ram_write(s, addr, value).in_range(),
{
}

/// The window at 0x4000-0x7FFF shows one of 128 banks, and none of 0x00, 0x20,
/// 0x40 and 0x60. In mode 1 the window at 0x0000-0x3FFF shows just those.
pub proof fn law_mbc1_windows(s: Mbc1State, addr: u16)
    requires
        s.in_range(),
        addr < 0x8000,
    ensures
        s.rom_bank(addr) < 128,
        addr >= 0x4000 ==> s.rom_bank(addr) % 32 != 0,
        addr < 0x4000 ==> s.rom_bank(addr) % 32 == 0,
        addr < 0x4000 && s.mode == 1 ==> s.rom_bank(addr) == s.bank_hi * 32,
{
}

/// In mode 0 the window at 0x0000-0x3FFF shows bank 0, whatever the bank
/// registers hold.
pub proof fn law_mbc1_low_window_is_bank_zero(s: Mbc1State, addr: u16)
    requires
        s.mode == 0,
        addr < 0x4000,
    ensures
        Mbc1::rom_of(s, addr) == get_or(s.rom, addr as int, 0xff),
{
    crate::bits::lemma_and_is_no_more(0, (bank_count(s.rom.len(), 0x4000) - 1) as usize);
}

/// On a ROM of a power of two of banks, a bank number past its end wraps
/// round.
pub proof fn law_mbc1_bank_wraps(s: Mbc1State, addr: u16, k: nat)
    requires
        0x4000 <= addr < 0x8000,
        k <= 7,
        s.rom.len() == vstd::arithmetic::power2::pow2(k) * 0x4000,
    ensures
        s.rom_offset(addr) == (s.rom_bank(addr) % bank_count(s.rom.len(), 0x4000)) * 0x4000 + addr
            % 0x4000,
        s.rom_offset(addr) < s.rom.len(),
{
    vstd::arithmetic::power2::lemma2_to64();
    let count = bank_count(s.rom.len(), 0x4000);
    assert(count == vstd::arithmetic::power2::pow2(k));
    crate::bits::lemma_mask_is_remainder(s.rom_bank(addr) as usize, count as usize);
}

/// External RAM that is enabled and reached gives back what was written, and
/// a write to one address of it leaves the others alone.
pub proof fn law_mbc1_ram_reads_back(s: Mbc1State, addr: u16, other: u16, value: u8)
    requires
        s.ram_enabled,
        s.ram_offset(addr) < s.ram.len(),
        s.ram_offset(other) != s.ram_offset(addr),
    ensures
        Mbc1::ram_of(Mbc1::after_ram_write(s, addr, value), addr) == value,
        Mbc1::ram_of(Mbc1::after_ram_write(s, addr, value), other) == Mbc1::ram_of(s, other),
{
}

/// While it is locked, external RAM reads 0xFF and keeps what it holds.
pub proof fn law_mbc1_locked_ram(s: Mbc1State, addr: u16, value: u8)
    requires
        !s.ram_enabled,
    ensures
        Mbc1::ram_of(s, addr) == 0xff,
        Mbc1::after_ram_write(s, addr, value) == s,
{
}

/// ROM is read-only: no write changes a byte of it.
pub proof fn law_rom_is_read_only(s: LoadedState, addr: u16, value: u8)
    ensures
        s matches LoadedState::Mbc0(c) ==> Mbc0::after_rom_write(c, addr, value) == c
            && Mbc0::after_ram_write(c, addr, value).rom == c.rom,
        s matches LoadedState::Mbc1(c) ==> Mbc1::after_rom_write(c, addr, value).rom == c.rom
            && Mbc1::after_ram_write(c, addr, value).rom == c.rom,
{
}

} // verus!
