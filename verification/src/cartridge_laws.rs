//! What a program sees of a cartridge, address by address.

use crate::cartridge::{Cartridge, LoadedCartridge, LoadedState, Mbc0, Mbc0State, Mbc1, Mbc1State};
use vstd::prelude::*;

verus! {

/// A number of banks that address lines can count: a power of two, at most
/// 128.
pub open spec fn whole(banks: int) -> bool {
    banks == 1 || banks == 2 || banks == 4 || banks == 8 || banks == 16 || banks == 32 || banks
        == 64 || banks == 128
}

/// How many bytes of RAM a header asks for.
pub proof fn law_ram_asked_for(rom: Seq<u8>, i: int)
    ensures
        rom.len() <= 0x149 ==> crate::cartridge::fresh_ram(rom).len() == 0,
        rom.len() > 0x149 ==> crate::cartridge::fresh_ram(rom).len() == (match rom[0x149] {
            1u8 => 2048int,
            2u8 => 8192int,
            3u8 => 32768int,
            4u8 => 131072int,
            5u8 => 65536int,
            _ => 0int,
        }),
        0 <= i < crate::cartridge::fresh_ram(rom).len() ==> crate::cartridge::fresh_ram(rom)[i]
            == 0,
{
}

/// Which images are taken: those whose byte 0x147 is there and at most 3.
pub proof fn law_which_images_load(rom: Seq<u8>)
    ensures
        crate::cartridge::loadable(rom) <==> rom.len() >= 0x148 && (rom[0x147] == 0 || rom[0x147]
            == 1 || rom[0x147] == 2 || rom[0x147] == 3),
{
}

// ----- without a mapper -----

/// Without a mapper an address of the ROM window is that byte of the ROM, an
/// address of the RAM window that byte of the RAM, and 0xFF stands past the end
/// of either.
pub proof fn law_mbc0_bytes(s: Mbc0State, addr: u16)
    ensures
        addr < s.rom.len() ==> Mbc0::rom_of(s, addr) == s.rom[addr as int],
        addr >= s.rom.len() ==> Mbc0::rom_of(s, addr) == 0xff,
        addr < s.ram.len() ==> Mbc0::ram_of(s, addr) == s.ram[addr as int],
        addr >= s.ram.len() ==> Mbc0::ram_of(s, addr) == 0xff,
{
}

/// Without a mapper, RAM gives back what was written, and a write to one
/// address leaves what every other reads.
pub proof fn law_mbc0_ram_bytes_are_apart(s: Mbc0State, addr: u16, other: u16, value: u8)
    requires
        addr != other,
    ensures
        addr < s.ram.len() ==> Mbc0::ram_of(Mbc0::after_ram_write(s, addr, value), addr) == value,
        Mbc0::ram_of(Mbc0::after_ram_write(s, addr, value), other) == Mbc0::ram_of(s, other),
        Mbc0::rom_of(Mbc0::after_ram_write(s, addr, value), other) == Mbc0::rom_of(s, other),
        Mbc0::after_ram_write(s, addr, value).ram.len() == s.ram.len(),
        addr >= s.ram.len() ==> Mbc0::after_ram_write(s, addr, value) == s,
        Mbc0::after_rom_write(s, addr, value) == s,
{
}

// ----- MBC1: RAM -----

/// The RAM byte that an address of the RAM window reaches: in mode 0 in the
/// first 8 KiB, in mode 1 in the bank that the high bits select, counted round
/// where there are fewer.
pub proof fn law_mbc1_ram_address(s: Mbc1State, addr: u16, banks: int)
    requires
        whole(banks),
        s.ram.len() == banks * 0x2000,
        s.ram_enabled,
        addr < 0x2000,
    ensures
        s.mode != 1 ==> Mbc1::ram_of(s, addr) == s.ram[addr as int],
        s.mode == 1 ==> Mbc1::ram_of(s, addr) == s.ram[(s.bank_hi as int % banks) * 0x2000 + addr],
        s.mode == 1 && s.bank_hi < banks ==> Mbc1::ram_of(s, addr) == s.ram[s.bank_hi * 0x2000
            + addr],
{
    crate::bits::lemma_mask_is_remainder(0, banks as usize);
    crate::bits::lemma_mask_is_remainder(s.bank_hi as usize, banks as usize);
    assert(crate::cartridge::bank_count(s.ram.len(), 0x2000) == banks);
    assert(addr % 0x2000 == addr);
    assert(s.mode != 1 ==> s.ram_offset(addr) == addr);
    assert(s.mode == 1 ==> s.ram_offset(addr) == (s.bank_hi as int % banks) * 0x2000 + addr);
    assert(0 <= s.bank_hi as int % banks < banks);
}

/// Every address below 0x2000 of the RAM window reaches a byte of its own:
/// with RAM enabled, and at least 8 KiB of it, an address gives back what was
/// written to it, and a write to one leaves what any other reads.
pub proof fn law_mbc1_ram_bytes_are_apart(s: Mbc1State, addr: u16, other: u16, value: u8)
    requires
        s.ram_enabled,
        0x2000 <= s.ram.len() <= usize::MAX,
        addr < 0x2000,
        other < 0x2000,
        addr != other,
    ensures
        Mbc1::ram_of(Mbc1::after_ram_write(s, addr, value), addr) == value,
        Mbc1::ram_of(Mbc1::after_ram_write(s, addr, value), other) == Mbc1::ram_of(s, other),
        Mbc1::after_ram_write(s, addr, value).ram.len() == s.ram.len(),
{
    let last = (crate::cartridge::bank_count(s.ram.len(), 0x2000) - 1) as usize;
    let bank = if s.mode == 1 {
        s.bank_hi as usize
    } else {
        0usize
    };
    crate::bits::lemma_and_is_no_more(bank, last);
    assert(addr % 0x2000 == addr && other % 0x2000 == other);
    assert((bank & last) * 0x2000 + 0x2000 <= s.ram.len());
}

/// The banks of 32 KiB of RAM are apart: in mode 1, what is written in one of
/// the four is not seen in another, and is seen again on coming back.
pub proof fn law_mbc1_ram_banks_are_apart(
    s: Mbc1State,
    addr: u16,
    at: u16,
    from: u8,
    to: u8,
    value: u8,
)
    requires
        s.ram_enabled,
        s.mode == 1,
        s.ram.len() == 0x8000,
        addr < 0x2000,
        0x4000 <= at < 0x6000,
        from < 4,
        to < 4,
        from != to,
    ensures
        ({
            let there = Mbc1::after_rom_write(s, at, from);
            let moved = Mbc1::after_rom_write(s, at, to);
            let written = Mbc1::after_ram_write(there, addr, value);
            &&& Mbc1::ram_of(Mbc1::after_rom_write(written, at, to), addr) == Mbc1::ram_of(
                moved,
                addr,
            )
            &&& Mbc1::ram_of(Mbc1::after_rom_write(Mbc1::after_rom_write(written, at, to), at, from),
                addr) == value
        }),
{
    crate::bits::lemma_mask_is_remainder(from as usize, 4);
    crate::bits::lemma_mask_is_remainder(to as usize, 4);
    assert(crate::cartridge::bank_count(0x8000, 0x2000) == 4);
    let there = Mbc1::after_rom_write(s, at, from);
    let moved = Mbc1::after_rom_write(s, at, to);
    assert(addr % 0x2000 == addr);
    assert(there.ram_offset(addr) == from * 0x2000 + addr);
    assert(moved.ram_offset(addr) == to * 0x2000 + addr);
    let written = Mbc1::after_ram_write(there, addr, value);
    assert(written.ram.len() == 0x8000);
}

/// A write to 0x0000-0x1FFF unlocks the RAM where its low four bits are 1010,
/// and locks it otherwise; it changes nothing else.
pub proof fn law_mbc1_ram_lock(s: Mbc1State, addr: u16, value: u8)
    requires
        addr < 0x2000,
    ensures
        Mbc1::after_rom_write(s, addr, value).ram_enabled <==> crate::bits::has_bit(value, 3)
            && !crate::bits::has_bit(value, 2) && crate::bits::has_bit(value, 1)
            && !crate::bits::has_bit(value, 0),
        Mbc1::after_rom_write(s, addr, value) == (Mbc1State {
            ram_enabled: Mbc1::after_rom_write(s, addr, value).ram_enabled,
            ..s
        }),
{
    crate::bits::lemma_low_nibble_is_ten(value);
}

// ----- MBC1: ROM -----

/// The ROM byte that an address of the upper window reaches: in the bank whose
/// number has `bank_hi` above the five bits of `bank_lo`, counted round where
/// there are fewer banks.
pub proof fn law_mbc1_upper_window(s: Mbc1State, i: int, banks: int)
    requires
        whole(banks),
        s.rom.len() == banks * 0x4000,
        s.bank_lo < 32,
        s.bank_hi < 4,
        0 <= i < 0x4000,
    ensures
        Mbc1::rom_of(s, (0x4000 + i) as u16) == s.rom[((s.bank_hi * 32 + s.bank_lo) % banks)
            * 0x4000 + i],
{
    let addr = (0x4000 + i) as u16;
    let bank = s.bank_hi * 32 + s.bank_lo;
    crate::bits::lemma_mask_is_remainder(bank as usize, banks as usize);
    assert(crate::cartridge::bank_count(s.rom.len(), 0x4000) == banks);
    assert(addr % 0x4000 == i);
    assert(0 <= bank % banks < banks);
}

/// The lower window shows the first bank, or in mode 1 the bank whose number is
/// `bank_hi` above five zero bits, counted round where there are fewer.
pub proof fn law_mbc1_lower_window(s: Mbc1State, i: int, banks: int)
    requires
        whole(banks),
        s.rom.len() == banks * 0x4000,
        s.bank_hi < 4,
        0 <= i < 0x4000,
    ensures
        s.mode != 1 ==> Mbc1::rom_of(s, i as u16) == s.rom[i],
        s.mode == 1 ==> Mbc1::rom_of(s, i as u16) == s.rom[((s.bank_hi * 32) % banks) * 0x4000 + i],
{
    let bank = s.bank_hi * 32;
    crate::bits::lemma_mask_is_remainder(bank as usize, banks as usize);
    crate::bits::lemma_mask_is_remainder(0, banks as usize);
    assert(crate::cartridge::bank_count(s.rom.len(), 0x4000) == banks);
    assert(i as u16 % 0x4000 == i);
    assert(0 <= bank % banks < banks);
}

/// A write of `n` to 0x2000-0x3FFF brings bank `n` to the upper window, below
/// the banks that the high bits select; zero brings bank one.
pub proof fn law_mbc1_selects_a_bank(s: Mbc1State, at: u16, n: u8, i: int, banks: int)
    requires
        whole(banks),
        s.rom.len() == banks * 0x4000,
        s.bank_hi < 4,
        0x2000 <= at < 0x4000,
        n < 32,
        s.bank_hi * 32 + n < banks,
        banks >= 2,
        0 <= i < 0x4000,
    ensures
        n > 0 ==> Mbc1::rom_of(Mbc1::after_rom_write(s, at, n), (0x4000 + i) as u16) == s.rom[(
        s.bank_hi * 32 + n) * 0x4000 + i],
        n == 0 ==> Mbc1::rom_of(Mbc1::after_rom_write(s, at, n), (0x4000 + i) as u16) == s.rom[(
        s.bank_hi * 32 + 1) * 0x4000 + i],
{
    let t = Mbc1::after_rom_write(s, at, n);
    law_mbc1_upper_window(t, i, banks);
    assert(t.bank_lo == (if n == 0 {
        1u8
    } else {
        n
    }));
    if s.bank_hi > 0 {
        assert(banks >= 64);
    }
    let bank = t.bank_hi * 32 + t.bank_lo;
    assert(bank < banks) by {
        if n == 0 && s.bank_hi == 3 {
            assert(banks == 128);
        }
    }
    assert(bank % banks == bank);
}

/// Of what is written to the bank register five bits count, to the high bits
/// two, and to the mode one: each register at its own range of addresses, and
/// each write changing that register alone.
pub proof fn law_mbc1_registers(s: Mbc1State, addr: u16, value: u8)
    ensures
        0x2000 <= addr < 0x4000 ==> Mbc1::after_rom_write(s, addr, value) == (Mbc1State {
            bank_lo: if value as int % 32 == 0 {
                1
            } else {
                (value as int % 32) as u8
            },
            ..s
        }),
        0x4000 <= addr < 0x6000 ==> Mbc1::after_rom_write(s, addr, value) == (Mbc1State {
            bank_hi: (value as int % 4) as u8,
            ..s
        }),
        0x6000 <= addr < 0x8000 ==> Mbc1::after_rom_write(s, addr, value) == (Mbc1State {
            mode: (value as int % 2) as u8,
            ..s
        }),
        0x8000 <= addr ==> Mbc1::after_rom_write(s, addr, value) == s,
{
}

/// A new MBC1: RAM locked, bank one in the upper window, mode 0.
pub proof fn law_mbc1_at_first(rom: Seq<u8>, i: int, banks: int, addr: u16)
    requires
        whole(banks),
        banks >= 2,
        rom.len() == banks * 0x4000,
        0 <= i < 0x8000,
    ensures
        Mbc1::rom_of(Mbc1State::fresh(rom), i as u16) == rom[i],
        Mbc1::ram_of(Mbc1State::fresh(rom), addr) == 0xff,
{
    let s = Mbc1State::fresh(rom);
    if i < 0x4000 {
        law_mbc1_lower_window(s, i, banks);
    } else {
        law_mbc1_upper_window(s, i - 0x4000, banks);
        assert(1int % banks == 1);
    }
}

// ----- either -----

/// A loaded cartridge does what the one inside it does.
pub proof fn law_loaded_cartridge_forwards(c: Mbc0State, m: Mbc1State, addr: u16, value: u8)
    ensures
        LoadedCartridge::rom_of(LoadedState::Mbc0(c), addr) == Mbc0::rom_of(c, addr),
        LoadedCartridge::ram_of(LoadedState::Mbc0(c), addr) == Mbc0::ram_of(c, addr),
        LoadedCartridge::after_rom_write(LoadedState::Mbc0(c), addr, value) == LoadedState::Mbc0(
            Mbc0::after_rom_write(c, addr, value),
        ),
        LoadedCartridge::after_ram_write(LoadedState::Mbc0(c), addr, value) == LoadedState::Mbc0(
            Mbc0::after_ram_write(c, addr, value),
        ),
        LoadedCartridge::rom_of(LoadedState::Mbc1(m), addr) == Mbc1::rom_of(m, addr),
        LoadedCartridge::ram_of(LoadedState::Mbc1(m), addr) == Mbc1::ram_of(m, addr),
        LoadedCartridge::after_rom_write(LoadedState::Mbc1(m), addr, value) == LoadedState::Mbc1(
            Mbc1::after_rom_write(m, addr, value),
        ),
        LoadedCartridge::after_ram_write(LoadedState::Mbc1(m), addr, value) == LoadedState::Mbc1(
            Mbc1::after_ram_write(m, addr, value),
        ),
{
}

} // verus!
