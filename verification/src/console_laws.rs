//! What a program sees through the address decoders: which part answers at
//! which address, and what each part asks of IF.

use crate::apu::ApuState;
use crate::bits;
use crate::bus::Bus;
use crate::cartridge::{Cartridge, Mbc1, Mbc1State};
use crate::console::{Console, ConsoleState};
use crate::joypad::JoypadState;
use crate::mmu::{Mmu, MmuState};
use crate::ppu::model::PpuState;
use crate::ppu_timing::LcdState;
use crate::serial::SerialState;
use crate::timer::TimerState;
use vstd::prelude::*;

verus! {

/// Below 0x8000 and from 0xA000 to 0xBFFF the console is its cartridge: it reads
/// what the cartridge alone would, and a write does to the cartridge what it
/// does to it alone, and nothing else.
pub proof fn law_console_shows_its_cartridge<C: Cartridge>(
    s: ConsoleState<C::State>,
    rom: u16,
    ram: u16,
    value: u8,
)
    requires
        rom < 0x8000,
        ram < 0x2000,
    ensures
        Console::<C>::read_of(s, rom) == C::rom_of(s.cartridge, rom),
        Console::<C>::read_of(s, (0xa000 + ram) as u16) == C::ram_of(s.cartridge, ram),
        Console::<C>::after_write(s, rom, value) == (ConsoleState {
            cartridge: C::after_rom_write(s.cartridge, rom, value),
            ..s
        }),
        Console::<C>::after_write(s, (0xa000 + ram) as u16, value) == (ConsoleState {
            cartridge: C::after_ram_write(s.cartridge, ram, value),
            ..s
        }),
{
}

/// A write at any other address leaves the cartridge as it is.
pub proof fn law_console_leaves_its_cartridge<C: Cartridge>(
    s: ConsoleState<C::State>,
    addr: u16,
    value: u8,
)
    requires
        0x8000 <= addr < 0xa000 || 0xc000 <= addr,
    ensures
        Console::<C>::after_write(s, addr, value).cartridge == s.cartridge,
        s.ticked(value).cartridge == s.cartridge,
{
}

/// Switching banks through the console: with an MBC1 cartridge of a power of two
/// of banks, a write of `n` to 0x2000-0x3FFF brings byte `i` of bank `n` to
/// 0x4000 + `i`.
pub proof fn law_console_switches_banks(
    s: ConsoleState<Mbc1State>,
    at: u16,
    n: u8,
    i: int,
    banks: int,
)
    requires
        crate::cartridge_laws::whole(banks),
        banks >= 2,
        s.cartridge.rom.len() == banks * 0x4000,
        s.cartridge.bank_hi == 0,
        0x2000 <= at < 0x4000,
        1 <= n < 32,
        n < banks,
        0 <= i < 0x4000,
    ensures
        Console::<Mbc1>::read_of(Console::<Mbc1>::after_write(s, at, n), (0x4000 + i) as u16)
            == s.cartridge.rom[n * 0x4000 + i],
{
    crate::cartridge_laws::law_mbc1_selects_a_bank(s.cartridge, at, n, i, banks);
}

/// Cartridge RAM through the console: unlocked by a write of 0x0A below 0x2000,
/// it gives back what was written, every address its own byte; locked again by
/// a write of zero, it reads 0xFF.
pub proof fn law_console_unlocks_ram(
    s: ConsoleState<Mbc1State>,
    at: u16,
    addr: u16,
    other: u16,
    value: u8,
)
    requires
        0x2000 <= s.cartridge.ram.len() <= usize::MAX,
        at < 0x2000,
        0xa000 <= addr < 0xc000,
        0xa000 <= other < 0xc000,
        addr != other,
    ensures
        ({
            let open = Console::<Mbc1>::after_write(s, at, 0x0a);
            let written = Console::<Mbc1>::after_write(open, addr, value);
            let locked = Console::<Mbc1>::after_write(written, at, 0x00);
            &&& Console::<Mbc1>::read_of(written, addr) == value
            &&& Console::<Mbc1>::read_of(written, other) == Console::<Mbc1>::read_of(open, other)
            &&& Console::<Mbc1>::read_of(locked, addr) == 0xff
            &&& Console::<Mbc1>::read_of(Console::<Mbc1>::after_write(locked, at, 0x0a), addr) == value
        }),
{
    crate::cartridge_laws::law_mbc1_ram_bytes_are_apart(
        Mbc1::after_rom_write(s.cartridge, at, 0x0a),
        (addr - 0xa000) as u16,
        (other - 0xa000) as u16,
        value,
    );
}

/// Below 0x8000 and from 0xA000 to 0xBFFF the mmu is its cartridge: it reads
/// what the cartridge alone would, and a write does to the cartridge what it
/// does to it alone, and nothing else.
pub proof fn law_mmu_shows_its_cartridge<C: Cartridge>(
    s: MmuState<C::State>,
    rom: u16,
    ram: u16,
    value: u8,
)
    requires
        rom < 0x8000,
        ram < 0x2000,
    ensures
        Mmu::<C>::read_of(s, rom) == C::rom_of(s.cartridge, rom),
        Mmu::<C>::read_of(s, (0xa000 + ram) as u16) == C::ram_of(s.cartridge, ram),
        Mmu::<C>::after_write(s, rom, value) == (MmuState {
            cartridge: C::after_rom_write(s.cartridge, rom, value),
            ..s
        }),
        Mmu::<C>::after_write(s, (0xa000 + ram) as u16, value) == (MmuState {
            cartridge: C::after_ram_write(s.cartridge, ram, value),
            ..s
        }),
{
}

/// A write at any other address leaves the cartridge as it is.
pub proof fn law_mmu_leaves_its_cartridge<C: Cartridge>(
    s: MmuState<C::State>,
    addr: u16,
    value: u8,
)
    requires
        0x8000 <= addr < 0xa000 || 0xc000 <= addr,
    ensures
        Mmu::<C>::after_write(s, addr, value).cartridge == s.cartridge,
        s.ticked(value).cartridge == s.cartridge,
{
}

/// Switching banks through the mmu: with an MBC1 cartridge of a power of two
/// of banks, a write of `n` to 0x2000-0x3FFF brings byte `i` of bank `n` to
/// 0x4000 + `i`.
pub proof fn law_mmu_switches_banks(
    s: MmuState<Mbc1State>,
    at: u16,
    n: u8,
    i: int,
    banks: int,
)
    requires
        crate::cartridge_laws::whole(banks),
        banks >= 2,
        s.cartridge.rom.len() == banks * 0x4000,
        s.cartridge.bank_hi == 0,
        0x2000 <= at < 0x4000,
        1 <= n < 32,
        n < banks,
        0 <= i < 0x4000,
    ensures
        Mmu::<Mbc1>::read_of(Mmu::<Mbc1>::after_write(s, at, n), (0x4000 + i) as u16)
            == s.cartridge.rom[n * 0x4000 + i],
{
    crate::cartridge_laws::law_mbc1_selects_a_bank(s.cartridge, at, n, i, banks);
}

/// Cartridge RAM through the mmu: unlocked by a write of 0x0A below 0x2000,
/// it gives back what was written, every address its own byte; locked again by
/// a write of zero, it reads 0xFF.
pub proof fn law_mmu_unlocks_ram(
    s: MmuState<Mbc1State>,
    at: u16,
    addr: u16,
    other: u16,
    value: u8,
)
    requires
        0x2000 <= s.cartridge.ram.len() <= usize::MAX,
        at < 0x2000,
        0xa000 <= addr < 0xc000,
        0xa000 <= other < 0xc000,
        addr != other,
    ensures
        ({
            let open = Mmu::<Mbc1>::after_write(s, at, 0x0a);
            let written = Mmu::<Mbc1>::after_write(open, addr, value);
            let locked = Mmu::<Mbc1>::after_write(written, at, 0x00);
            &&& Mmu::<Mbc1>::read_of(written, addr) == value
            &&& Mmu::<Mbc1>::read_of(written, other) == Mmu::<Mbc1>::read_of(open, other)
            &&& Mmu::<Mbc1>::read_of(locked, addr) == 0xff
            &&& Mmu::<Mbc1>::read_of(Mmu::<Mbc1>::after_write(locked, at, 0x0a), addr) == value
        }),
{
    crate::cartridge_laws::law_mbc1_ram_bytes_are_apart(
        Mbc1::after_rom_write(s.cartridge, at, 0x0a),
        (addr - 0xa000) as u16,
        (other - 0xa000) as u16,
        value,
    );
}

/// Which part of the console answers at which register, and takes its writes.
pub proof fn law_console_registers<C: Cartridge>(s: ConsoleState<C::State>, addr: u16, value: u8)
    ensures
        addr == 0xff00 ==> Console::<C>::read_of(s, addr) == s.joypad.read(),
        addr == 0xff00 ==> Console::<C>::after_write(s, addr, value) == (ConsoleState {
            joypad: s.joypad.write(value),
            ..s
        }),
        addr == 0xff01 || addr == 0xff02 ==> Console::<C>::read_of(s, addr) == s.serial.read(addr),
        addr == 0xff01 || addr == 0xff02 ==> Console::<C>::after_write(s, addr, value) == (
        ConsoleState { serial: s.serial.write(addr, value), ..s }),
        addr == 0xff04 || addr == 0xff05 || addr == 0xff06 || addr == 0xff07
            ==> Console::<C>::read_of(s, addr) == s.timer.read(addr),
        addr == 0xff04 || addr == 0xff05 || addr == 0xff06 || addr == 0xff07
            ==> Console::<C>::after_write(s, addr, value) == (ConsoleState {
            timer: s.timer.write(addr, value),
            ..s
        }),
        0xff10 <= addr < 0xff40 ==> Console::<C>::read_of(s, addr) == s.apu.read(addr),
        0xff10 <= addr < 0xff40 ==> Console::<C>::after_write(s, addr, value) == (ConsoleState {
            apu: s.apu.write(addr, value),
            ..s
        }),
        0xff40 <= addr < 0xff4c && addr != 0xff46 ==> Console::<C>::read_of(s, addr)
            == s.ppu.read(addr),
        0xff40 <= addr < 0xff4c && addr != 0xff46 ==> Console::<C>::after_write(s, addr, value) == (
        ConsoleState { ppu: s.ppu.write(addr, value), ..s }),
        addr == 0xffff ==> Console::<C>::read_of(s, addr) == s.ie,
        addr == 0xffff ==> Console::<C>::after_write(s, addr, value) == (ConsoleState {
            ie: value,
            ..s
        }),
{
}

/// Which bytes of the console's memories stand at which address.
pub proof fn law_console_memories<C: Cartridge>(s: ConsoleState<C::State>, i: int)
    ensures
        0 <= i < 0x2000 ==> Console::<C>::read_of(s, (0x8000 + i) as u16) == s.ppu.vram[i],
        0 <= i < 0x2000 ==> Console::<C>::read_of(s, (0xc000 + i) as u16) == s.wram[i],
        0 <= i < 0x1e00 ==> Console::<C>::read_of(s, (0xe000 + i) as u16) == s.wram[i],
        0 <= i < 160 ==> Console::<C>::read_of(s, (0xfe00 + i) as u16) == s.ppu.oam[i],
        0 <= i < 127 ==> Console::<C>::read_of(s, (0xff80 + i) as u16) == s.hram[i],
        i == 0x03 || 0x08 <= i < 0x10 || i == 0x46 || 0x4c <= i < 0x80 ==> Console::<C>::read_of(
            s,
            (0xff00 + i) as u16,
        ) == s.io[i],
{
}

/// The console's memories are apart: a write to a byte of VRAM, WRAM, OAM,
/// HRAM, IE or one of the plain I/O bytes is read back there and, but for
/// WRAM's echo, at no other address; no part but the one written to changes.
pub proof fn law_console_bytes_are_apart<C: Cartridge>(
    s: ConsoleState<C::State>,
    addr: u16,
    other: u16,
    value: u8,
)
    requires
        s.sized(),
        0x8000 <= addr < 0xa000 || 0xc000 <= addr < 0xfea0 || addr == 0xff03 || 0xff08 <= addr
            < 0xff10 || 0xff4c <= addr,
        other != addr,
    ensures
        Console::<C>::read_of(Console::<C>::after_write(s, addr, value), addr) == value,
        !(0xc000 <= addr < 0xfe00 && 0xc000 <= other < 0xfe00) ==> Console::<C>::read_of(
            Console::<C>::after_write(s, addr, value),
            other,
        ) == Console::<C>::read_of(s, other),
        0xc000 <= addr < 0xe000 && 0xc000 <= other < 0xe000 ==> Console::<C>::read_of(
            Console::<C>::after_write(s, addr, value),
            other,
        ) == Console::<C>::read_of(s, other),
        Console::<C>::after_write(s, addr, value).frame_ready == s.frame_ready,
        Console::<C>::after_write(s, addr, value).timer == s.timer,
        Console::<C>::after_write(s, addr, value).serial == s.serial,
        Console::<C>::after_write(s, addr, value).joypad == s.joypad,
        Console::<C>::after_write(s, addr, value).apu == s.apu,
        Console::<C>::after_write(s, addr, value).ppu.regs == s.ppu.regs,
        Console::<C>::after_write(s, addr, value).ppu.pixels == s.ppu.pixels,
        Console::<C>::after_write(s, addr, value).ppu.dots == s.ppu.dots,
{
}

/// OAM DMA changes OAM and the byte at 0xFF46 and nothing else.
pub proof fn law_dma_changes_oam_alone<C: Cartridge>(
    s: ConsoleState<C::State>,
    page: u8,
    other: u16,
)
    requires
        s.sized(),
        !(0xfe00 <= other < 0xfea0),
        other != 0xff46,
    ensures
        Console::<C>::read_of(Console::<C>::after_write(s, 0xff46, page), other)
            == Console::<C>::read_of(s, other),
        Console::<C>::after_write(s, 0xff46, page).ppu.pixels == s.ppu.pixels,
        Console::<C>::after_write(s, 0xff46, page).frame_ready == s.frame_ready,
{
}

/// Time on the console: PPU and timer run by the same number of T-cycles, and
/// their interrupts are set in IF: bit 0 vertical blank, bit 1 STAT, bit 2 the
/// timer, bit 3 the serial port. Bits that were set stay.
pub proof fn law_console_time<C: Cartridge>(s: ConsoleState<C::State>, cycles: u8, k: u8)
    requires
        s.wf(),
        k < 8,
    ensures
        ({
            let t = s.ticked(cycles);
            let lcd = s.ppu.ticked(cycles as nat);
            let timer = s.timer.run(cycles as nat);
            &&& t.ppu == lcd.0
            &&& t.timer == timer.0
            &&& t.serial == (SerialState { interrupt: false, ..s.serial })
            &&& t.joypad == s.joypad
            &&& t.apu == s.apu
            &&& t.wram == s.wram
            &&& t.hram == s.hram
            &&& t.ie == s.ie
            &&& t.frame_ready == (s.frame_ready || lcd.1.vblank)
            &&& bits::has_bit(Console::<C>::read_of(t, 0xff0f), k) <==> bits::has_bit(
                Console::<C>::read_of(s, 0xff0f),
                k,
            ) || (k == 0 && lcd.1.vblank) || (k == 1 && lcd.1.stat) || (k == 2 && timer.1) || (k
                == 3 && s.serial.interrupt)
            &&& forall|i: int| 0 <= i < 0x80 && i != 0x0f ==> t.io[i] == s.io[i]
        }),
{
    let lcd = s.ppu.ticked(cycles as nat).1;
    let timer = s.timer.run(cycles as nat).1;
    bits::lemma_bits_of_requests(s.io[0x0f], lcd.vblank, lcd.stat, timer, s.serial.interrupt, k);
    let bits = lcd.bits();
    assert(bits == (if lcd.vblank {
        1u8
    } else {
        0u8
    }) + (if lcd.stat {
        2u8
    } else {
        0u8
    }));
}

/// A button that goes down sets bit 4 of IF; held or let go it sets nothing.
pub proof fn law_console_buttons<C: Cartridge>(s: ConsoleState<C::State>, pressed: u8, k: u8)
    requires
        s.sized(),
        !s.joypad.interrupt,
        k < 8,
    ensures
        ({
            let t = s.with_buttons(pressed);
            &&& t.joypad.pressed == pressed
            &&& t.joypad.select == s.joypad.select
            &&& !t.joypad.interrupt
            &&& bits::has_bit(Console::<C>::read_of(t, 0xff0f), k) <==> bits::has_bit(
                Console::<C>::read_of(s, 0xff0f),
                k,
            ) || (k == 4 && exists|b: u8|
                b < 8 && #[trigger] bits::has_bit(pressed, b) && !bits::has_bit(
                    s.joypad.pressed,
                    b,
                ))
            &&& t.ppu == s.ppu
            &&& t.timer == s.timer
            &&& t.cartridge == s.cartridge
            &&& t.frame_ready == s.frame_ready
            &&& forall|i: int| 0 <= i < 0x80 && i != 0x0f ==> t.io[i] == s.io[i]
        }),
{
    crate::part_laws::law_presses_latch(s.joypad, pressed);
    bits::lemma_bits_of_a_press(s.io[0x0f], k);
}

/// Which part of the MMU answers at which address.
pub proof fn law_mmu_registers<C: Cartridge>(s: MmuState<C::State>, addr: u16, value: u8)
    ensures
        addr == 0xff04 || addr == 0xff05 || addr == 0xff06 || addr == 0xff07 ==> Mmu::<C>::read_of(
            s,
            addr,
        ) == s.timer.read(addr),
        addr == 0xff04 || addr == 0xff05 || addr == 0xff06 || addr == 0xff07
            ==> Mmu::<C>::after_write(s, addr, value) == (MmuState {
            timer: s.timer.write(addr, value),
            ..s
        }),
        0xff40 <= addr < 0xff4c ==> Mmu::<C>::read_of(s, addr) == s.lcd.read(addr),
        0xff40 <= addr < 0xff4c ==> Mmu::<C>::after_write(s, addr, value) == (MmuState {
            lcd: s.lcd.write(addr, value),
            ..s
        }),
        addr == 0xffff ==> Mmu::<C>::read_of(s, addr) == s.ie,
{
}

/// Which bytes of the MMU's memories stand at which address.
pub proof fn law_mmu_memories<C: Cartridge>(s: MmuState<C::State>, i: int)
    ensures
        0 <= i < 0x2000 ==> Mmu::<C>::read_of(s, (0x8000 + i) as u16) == s.vram[i],
        0 <= i < 0x2000 ==> Mmu::<C>::read_of(s, (0xc000 + i) as u16) == s.wram[i],
        0 <= i < 0x1e00 ==> Mmu::<C>::read_of(s, (0xe000 + i) as u16) == s.wram[i],
        0 <= i < 160 ==> Mmu::<C>::read_of(s, (0xfe00 + i) as u16) == s.oam[i],
        0 <= i < 127 ==> Mmu::<C>::read_of(s, (0xff80 + i) as u16) == s.hram[i],
        0 <= i < 4 || 0x08 <= i < 0x40 || 0x4c <= i < 0x80 ==> Mmu::<C>::read_of(
            s,
            (0xff00 + i) as u16,
        ) == s.io[i],
{
}

/// The MMU's memories are apart, within WRAM too.
pub proof fn law_mmu_bytes_are_apart<C: Cartridge>(
    s: MmuState<C::State>,
    addr: u16,
    other: u16,
    value: u8,
)
    requires
        s.sized(),
        0xc000 <= addr < 0xe000,
        0xc000 <= other < 0xe000,
        other != addr,
    ensures
        Mmu::<C>::read_of(Mmu::<C>::after_write(s, addr, value), addr) == value,
        Mmu::<C>::read_of(Mmu::<C>::after_write(s, addr, value), other) == Mmu::<C>::read_of(
            s,
            other,
        ),
{
}

/// Time on the MMU: LCD and timer run by the same number of T-cycles; vertical
/// blank sets bit 0 of IF and the timer bit 2, and bits that were set stay.
pub proof fn law_mmu_time<C: Cartridge>(s: MmuState<C::State>, cycles: u8, k: u8)
    requires
        s.wf(),
        k < 8,
    ensures
        ({
            let lcd = s.lcd.run(cycles as nat);
            let timer = s.timer.run(cycles as nat);
            let stretch = s.timer.stretch(cycles as nat);
            &&& s.ticked(cycles).lcd == lcd.0
            &&& s.ticked(cycles).timer == timer.0
            &&& bits::has_bit(Mmu::<C>::read_of(s.ticked(cycles), 0xff0f), k) <==> bits::has_bit(
                Mmu::<C>::read_of(s, 0xff0f),
                k,
            ) || (k == 0 && lcd.1) || (k == 2 && timer.1)
            &&& s.advanced(cycles).lcd == lcd.0
            &&& s.advanced(cycles).timer == stretch.0
            &&& bits::has_bit(Mmu::<C>::read_of(s.advanced(cycles), 0xff0f), k) <==> bits::has_bit(
                Mmu::<C>::read_of(s, 0xff0f),
                k,
            ) || (k == 0 && lcd.1) || (k == 2 && stretch.1)
        }),
{
    let lcd = s.lcd.run(cycles as nat).1;
    let timer = s.timer.run(cycles as nat).1;
    let stretch = s.timer.stretch(cycles as nat).1;
    bits::lemma_bits_of_two_requests(s.io[0x0f], lcd, timer, k);
    bits::lemma_bits_of_two_requests(s.io[0x0f], lcd, stretch, k);
}

/// After the boot ROM LCDC, BGP, OBP0 and OBP1 read 0x91, 0xFC, 0xFF and 0xFF,
/// the other registers of the LCD but LY and STAT as before; nothing else that
/// is not the LCD's changes.
pub proof fn law_registers_after_boot<C: Cartridge>(
    s: ConsoleState<C::State>,
    t: MmuState<C::State>,
    addr: u16,
)
    requires
        addr != 0xff40,
        addr != 0xff41,
        addr != 0xff44,
        addr != 0xff47,
        addr != 0xff48,
        addr != 0xff49,
    ensures
        ({
            let after = crate::runner::after_boot::<Console<C>>(s);
            &&& Console::<C>::read_of(after, 0xff40) == 0x91
            &&& Console::<C>::read_of(after, 0xff47) == 0xfc
            &&& Console::<C>::read_of(after, 0xff48) == 0xff
            &&& Console::<C>::read_of(after, 0xff49) == 0xff
            &&& Console::<C>::read_of(after, addr) == Console::<C>::read_of(s, addr)
        }),
        ({
            let after = crate::runner::after_boot::<Mmu<C>>(t);
            &&& Mmu::<C>::read_of(after, 0xff40) == 0x91
            &&& Mmu::<C>::read_of(after, 0xff47) == 0xfc
            &&& Mmu::<C>::read_of(after, 0xff48) == 0xff
            &&& Mmu::<C>::read_of(after, 0xff49) == 0xff
            &&& Mmu::<C>::read_of(after, addr) == Mmu::<C>::read_of(t, addr)
        }),
{
}

/// A new console or MMU: every part as it is at first, every byte of memory
/// zero.
pub proof fn law_new_address_spaces<S>(cartridge: S, i: int)
    ensures
        ConsoleState::fresh(cartridge).cartridge == cartridge,
        ConsoleState::fresh(cartridge).ppu == PpuState::reset(),
        ConsoleState::fresh(cartridge).timer == TimerState::reset(),
        ConsoleState::fresh(cartridge).serial == SerialState::reset(),
        ConsoleState::fresh(cartridge).joypad == JoypadState::reset(),
        ConsoleState::fresh(cartridge).apu == ApuState::reset(),
        ConsoleState::fresh(cartridge).ie == 0,
        !ConsoleState::fresh(cartridge).frame_ready,
        0 <= i < 0x2000 ==> ConsoleState::fresh(cartridge).wram[i] == 0,
        0 <= i < 0x80 ==> ConsoleState::fresh(cartridge).io[i] == 0,
        0 <= i < 0x7f ==> ConsoleState::fresh(cartridge).hram[i] == 0,
        MmuState::fresh(cartridge).cartridge == cartridge,
        MmuState::fresh(cartridge).timer == TimerState::reset(),
        MmuState::fresh(cartridge).lcd == LcdState::reset(),
        MmuState::fresh(cartridge).ie == 0,
        0 <= i < 0x2000 ==> MmuState::fresh(cartridge).vram[i] == 0,
        0 <= i < 0x2000 ==> MmuState::fresh(cartridge).wram[i] == 0,
        0 <= i < 0xa0 ==> MmuState::fresh(cartridge).oam[i] == 0,
        0 <= i < 0x80 ==> MmuState::fresh(cartridge).io[i] == 0,
        0 <= i < 0x7f ==> MmuState::fresh(cartridge).hram[i] == 0,
{
}

} // verus!
