//! The address decoder: cartridge, memories, timer, LCD timing, and plain I/O
//! bytes for the rest.

use crate::bus::Bus;
use crate::cartridge::Cartridge;
use crate::ppu_timing::{LcdState, Ppu};
use crate::timer::{Timer, TimerState};
use vstd::prelude::*;

verus! {

/// The address space as contracts speak of it.
pub struct MmuState<S> {
    pub cartridge: S,
    pub timer: TimerState,
    pub lcd: LcdState,
    pub vram: Seq<u8>,
    pub wram: Seq<u8>,
    pub oam: Seq<u8>,
    pub io: Seq<u8>,
    pub hram: Seq<u8>,
    pub ie: u8,
}

/// `n` zero bytes.
pub open spec fn zeros(n: nat) -> Seq<u8> {
    Seq::new(n, |i: int| 0u8)
}

impl<S> MmuState<S> {
    pub open spec fn fresh(cartridge: S) -> MmuState<S> {
        MmuState {
            cartridge,
            timer: TimerState::reset(),
            lcd: LcdState::reset(),
            vram: zeros(0x2000),
            wram: zeros(0x2000),
            oam: zeros(0xa0),
            io: zeros(0x80),
            hram: zeros(0x7f),
            ie: 0,
        }
    }

    /// That the memories have the sizes of their address ranges.
    pub open spec fn sized(self) -> bool {
        &&& self.vram.len() == 0x2000
        &&& self.wram.len() == 0x2000
        &&& self.oam.len() == 0xa0
        &&& self.io.len() == 0x80
        &&& self.hram.len() == 0x7f
    }

    /// That the memories have their sizes, the LCD is at a position on the
    /// screen, and a pending reload of TIMA is within its delay.
    pub open spec fn wf(self) -> bool {
        self.sized() && self.lcd.on_screen() && self.timer.wf()
    }

    /// The timer in a new state, and its interrupt requested in IF if it was
    /// raised.
    pub open spec fn with_timer(self, timer: TimerState, raised: bool) -> MmuState<S> {
        let s = MmuState { timer, ..self };
        if raised {
            MmuState { io: s.io.update(0x0f, s.io[0x0f] | 0x04), ..s }
        } else {
            s
        }
    }

    /// The LCD `cycles` dots on, and vertical blank requested in IF if it was
    /// entered.
    pub open spec fn with_lcd_run(self, cycles: u8) -> MmuState<S> {
        let (lcd, entered) = self.lcd.run(cycles as nat);
        if !self.lcd.on_screen() {
            self
        } else if entered {
            MmuState { lcd, io: self.io.update(0x0f, self.io[0x0f] | 0x01), ..self }
        } else {
            MmuState { lcd, ..self }
        }
    }

    /// `cycles` T-cycles, with the reload of TIMA where hardware has it: four
    /// T-cycles after the overflow.
    pub open spec fn ticked(self, cycles: u8) -> MmuState<S> {
        let (timer, raised) = self.timer.run(cycles as nat);
        self.with_timer(timer, raised).with_lcd_run(cycles)
    }

    /// `cycles` T-cycles taken as one stretch: an overflow in it has led to
    /// the reload and the interrupt by its end. One from before takes its time.
    pub open spec fn advanced(self, cycles: u8) -> MmuState<S> {
        let (timer, raised) = self.timer.stretch(cycles as nat);
        self.with_timer(timer, raised).with_lcd_run(cycles)
    }
}

pub struct Mmu<C: Cartridge> {
    cartridge: Box<C>,
    timer: Timer,
    lcd: Ppu,
    vram: [u8; 0x2000],
    wram: [u8; 0x2000],
    oam: [u8; 0xa0],
    io: [u8; 0x80],
    hram: [u8; 0x7f],
    ie: u8,
}

impl<C: Cartridge> Mmu<C> {
    pub fn new(cartridge: Box<C>) -> (r: Self)
        ensures
            r.state() == MmuState::fresh(cartridge.state()),
            r.state().wf(),
    {
        let r = Self {
            cartridge,
            timer: Timer::new(),
            lcd: Ppu::new(),
            vram: [0; 0x2000],
            wram: [0; 0x2000],
            oam: [0; 0xa0],
            io: [0; 0x80],
            hram: [0; 0x7f],
            ie: 0,
        };
        assert(r.state().vram =~= zeros(0x2000));
        assert(r.state().wram =~= zeros(0x2000));
        assert(r.state().oam =~= zeros(0xa0));
        assert(r.state().io =~= zeros(0x80));
        assert(r.state().hram =~= zeros(0x7f));
        r
    }

    fn request_timer_interrupt(&mut self)
        ensures
            final(self).state() == old(self).state().with_timer(old(self).state().timer, true),
    {
        self.io[0x0f] = self.io[0x0f] | 0x04;
    }

    fn tick_lcd(&mut self, cycles: u8)
        ensures
            final(self).state() == old(self).state().with_lcd_run(cycles),
    {
        if let Some(bits) = self.lcd.try_tick(cycles as u32) {
            if bits != 0 {
                self.io[0x0f] = self.io[0x0f] | 0x01;
            }
        }
    }

    /// Advance the clocked parts by `cycles` T-cycles in one stretch, and set
    /// the IF bit of each interrupt that came up. A TIMA overflow in the
    /// stretch is carried through to its reload and interrupt; one from before
    /// it, or any that is driven through [`Bus::tick`] instead, has them four
    /// T-cycles after the overflow.
    pub fn tick(&mut self, cycles: u8)
        ensures
            final(self).state() == old(self).state().advanced(cycles),
    {
        let raised: bool = self.timer.tick_through(cycles);
        if raised {
            self.request_timer_interrupt();
        }
        self.tick_lcd(cycles);
    }
}

impl<C: Cartridge> Bus for Mmu<C> {
    type State = MmuState<C::State>;

    closed spec fn state(&self) -> MmuState<C::State> {
        MmuState {
            cartridge: self.cartridge.state(),
            timer: self.timer@,
            lcd: self.lcd@,
            vram: self.vram@,
            wram: self.wram@,
            oam: self.oam@,
            io: self.io@,
            hram: self.hram@,
            ie: self.ie,
        }
    }

    open spec fn read_of(s: MmuState<C::State>, addr: u16) -> u8 {
        if addr < 0x8000 {
            C::rom_of(s.cartridge, addr)
        } else if addr < 0xa000 {
            s.vram[addr - 0x8000]
        } else if addr < 0xc000 {
            C::ram_of(s.cartridge, (addr - 0xa000) as u16)
        } else if addr < 0xe000 {
            s.wram[addr - 0xc000]
        } else if addr < 0xfe00 {
            // The echo of WRAM.
            s.wram[addr - 0xe000]
        } else if addr < 0xfea0 {
            s.oam[addr - 0xfe00]
        } else if addr < 0xff00 {
            0xff
        } else if 0xff04 <= addr <= 0xff07 {
            s.timer.read(addr)
        } else if 0xff40 <= addr <= 0xff4b {
            s.lcd.read(addr)
        } else if addr < 0xff80 {
            s.io[addr - 0xff00]
        } else if addr < 0xffff {
            s.hram[addr - 0xff80]
        } else {
            s.ie
        }
    }

    open spec fn after_write(s: MmuState<C::State>, addr: u16, value: u8) -> MmuState<C::State> {
        if addr < 0x8000 {
            MmuState { cartridge: C::after_rom_write(s.cartridge, addr, value), ..s }
        } else if addr < 0xa000 {
            MmuState { vram: s.vram.update(addr - 0x8000, value), ..s }
        } else if addr < 0xc000 {
            MmuState {
                cartridge: C::after_ram_write(s.cartridge, (addr - 0xa000) as u16, value),
                ..s
            }
        } else if addr < 0xe000 {
            MmuState { wram: s.wram.update(addr - 0xc000, value), ..s }
        } else if addr < 0xfe00 {
            MmuState { wram: s.wram.update(addr - 0xe000, value), ..s }
        } else if addr < 0xfea0 {
            MmuState { oam: s.oam.update(addr - 0xfe00, value), ..s }
        } else if addr < 0xff00 {
            s
        } else if 0xff04 <= addr <= 0xff07 {
            MmuState { timer: s.timer.write(addr, value), ..s }
        } else if 0xff40 <= addr <= 0xff4b {
            MmuState { lcd: s.lcd.write(addr, value), ..s }
        } else if addr < 0xff80 {
            MmuState { io: s.io.update(addr - 0xff00, value), ..s }
        } else if addr < 0xffff {
            MmuState { hram: s.hram.update(addr - 0xff80, value), ..s }
        } else {
            MmuState { ie: value, ..s }
        }
    }

    open spec fn after_tick(s: MmuState<C::State>, cycles: u8) -> MmuState<C::State> {
        s.ticked(cycles)
    }

    fn read8(&self, addr: u16) -> u8 {
        if addr < 0x8000 {
            self.cartridge.read_rom(addr)
        } else if addr < 0xa000 {
            self.vram[(addr - 0x8000) as usize]
        } else if addr < 0xc000 {
            self.cartridge.read_ram(addr - 0xa000)
        } else if addr < 0xe000 {
            self.wram[(addr - 0xc000) as usize]
        } else if addr < 0xfe00 {
            self.wram[(addr - 0xe000) as usize]
        } else if addr < 0xfea0 {
            self.oam[(addr - 0xfe00) as usize]
        } else if addr < 0xff00 {
            0xff
        } else if 0xff04 <= addr && addr <= 0xff07 {
            self.timer.read(addr)
        } else if 0xff40 <= addr && addr <= 0xff4b {
            self.lcd.read(addr)
        } else if addr < 0xff80 {
            self.io[(addr - 0xff00) as usize]
        } else if addr < 0xffff {
            self.hram[(addr - 0xff80) as usize]
        } else {
            self.ie
        }
    }

    fn write8(&mut self, addr: u16, value: u8) {
        if addr < 0x8000 {
            self.cartridge.write_rom(addr, value);
        } else if addr < 0xa000 {
            self.vram[(addr - 0x8000) as usize] = value;
        } else if addr < 0xc000 {
            self.cartridge.write_ram(addr - 0xa000, value);
        } else if addr < 0xe000 {
            self.wram[(addr - 0xc000) as usize] = value;
        } else if addr < 0xfe00 {
            self.wram[(addr - 0xe000) as usize] = value;
        } else if addr < 0xfea0 {
            self.oam[(addr - 0xfe00) as usize] = value;
        } else if addr < 0xff00 {
        } else if 0xff04 <= addr && addr <= 0xff07 {
            self.timer.write(addr, value);
        } else if 0xff40 <= addr && addr <= 0xff4b {
            self.lcd.write(addr, value);
        } else if addr < 0xff80 {
            self.io[(addr - 0xff00) as usize] = value;
        } else if addr < 0xffff {
            self.hram[(addr - 0xff80) as usize] = value;
        } else {
            self.ie = value;
        }
    }

    fn read8_cpu(&mut self, addr: u16) -> u8 {
        self.read8(addr)
    }

    fn write8_cpu(&mut self, addr: u16, value: u8) {
        self.write8(addr, value);
    }

    fn read8_cpu_idu(&mut self, addr: u16, idu_addr: u16) -> u8 {
        self.read8_cpu(addr)
    }

    fn write8_cpu_idu(&mut self, addr: u16, value: u8, idu_addr: u16) {
        self.write8_cpu(addr, value);
    }

    fn idu_glitch_cpu(&mut self, addr: u16) {
    }

    fn tick(&mut self, cycles: u8) {
        let raised: bool = self.timer.tick(cycles);
        if raised {
            self.request_timer_interrupt();
        }
        self.tick_lcd(cycles);
    }
}

/// The memories of an MMU always have their sizes, its LCD is always at a
/// position on the screen, and its timer within the delay of a reload: so it is
/// at first, and no write and no time that passes changes it.
pub proof fn law_mmu_stays_well_formed<C: Cartridge>(
    cartridge: C::State,
    s: MmuState<C::State>,
    addr: u16,
    value: u8,
    cycles: u8,
)
    requires
        s.wf(),
    ensures
        MmuState::fresh(cartridge).wf(),
        Mmu::<C>::after_write(s, addr, value).wf(),
        s.ticked(cycles).wf(),
        s.advanced(cycles).wf(),
{
    crate::ppu_timing::law_lcd_stays_on_screen(s.lcd, cycles as nat);
    crate::timer::law_reload_is_at_most_four_cycles_away(s.timer, cycles as nat, addr, value);
}

/// No time at all changes nothing.
pub proof fn law_no_cycles_change_nothing<C: Cartridge>(s: MmuState<C::State>)
    ensures
        s.advanced(0) == s,
        s.ticked(0) == s,
{
}

/// A stretch sets the timer's bit of IF just where the timer raises its
/// interrupt in it, or overflows in it with the reload still to come. In
/// particular a reload set off before the stretch comes no earlier for it.
pub proof fn law_stretch_differs_only_by_its_own_overflow<C: Cartridge>(
    s: MmuState<C::State>,
    cycles: u8,
)
    ensures
        s.timer.stretch(cycles as nat).1 <==> s.timer.run(cycles as nat).1 || s.timer.overflowed_in(
            cycles as nat,
        ),
        !s.timer.overflowed_in(cycles as nat) ==> s.advanced(cycles) == s.ticked(cycles),
{
}

/// VRAM, WRAM, OAM, HRAM, IE, the plain I/O bytes and the LCD registers other
/// than STAT and LY give back what was written to them. A write to any of them
/// changes no other address, but for WRAM, which also answers at its echo, and
/// LYC, which STAT is compared by.
pub proof fn law_memory_reads_back<C: Cartridge>(
    s: MmuState<C::State>,
    addr: u16,
    other: u16,
    value: u8,
)
    requires
        s.sized(),
        0x8000 <= addr,
        !(0xa000 <= addr < 0xc000),
        !(0xfea0 <= addr < 0xff00),
        !(0xff04 <= addr <= 0xff07),
        addr != 0xff41,
        addr != 0xff44,
        other != addr,
        other != 0xff41,
    ensures
        Mmu::<C>::after_write(s, addr, value).sized(),
        Mmu::<C>::read_of(Mmu::<C>::after_write(s, addr, value), addr) == value,
        !(0xc000 <= addr < 0xfe00 && 0xc000 <= other < 0xfe00) ==> Mmu::<C>::read_of(
            Mmu::<C>::after_write(s, addr, value),
            other,
        ) == Mmu::<C>::read_of(s, other),
{
}

/// 0xE000-0xFDFF mirrors 0xC000-0xDDFF: both read the same byte, and writing
/// to either does the same.
pub proof fn law_echo_mirrors_wram<C: Cartridge>(s: MmuState<C::State>, addr: u16, value: u8)
    requires
        0xe000 <= addr < 0xfe00,
    ensures
        Mmu::<C>::read_of(s, addr) == Mmu::<C>::read_of(s, (addr - 0x2000) as u16),
        Mmu::<C>::after_write(s, addr, value) == Mmu::<C>::after_write(
            s,
            (addr - 0x2000) as u16,
            value,
        ),
{
}

/// 0xFEA0-0xFEFF reads 0xFF and takes no write.
pub proof fn law_unusable_area<C: Cartridge>(s: MmuState<C::State>, addr: u16, value: u8)
    requires
        0xfea0 <= addr < 0xff00,
    ensures
        Mmu::<C>::read_of(s, addr) == 0xff,
        Mmu::<C>::after_write(s, addr, value) == s,
{
}

/// The bits of IF for vertical blank and the timer.
pub open spec fn if_bits(vblank: bool, timer: bool) -> u8 {
    if vblank && timer {
        0x05
    } else if timer {
        0x04
    } else if vblank {
        0x01
    } else {
        0
    }
}

/// Time passing sets at most two bits of IF, for vertical blank and the timer:
/// every other address reads as before, but for DIV, TIMA, LY and STAT.
pub proof fn law_tick_touches_only_clocks_and_if<C: Cartridge>(
    s: MmuState<C::State>,
    cycles: u8,
    addr: u16,
)
    requires
        s.wf(),
        addr != 0xff04,
        addr != 0xff05,
        addr != 0xff0f,
        addr != 0xff41,
        addr != 0xff44,
    ensures
        Mmu::<C>::read_of(s.ticked(cycles), addr) == Mmu::<C>::read_of(s, addr),
        Mmu::<C>::read_of(s.advanced(cycles), addr) == Mmu::<C>::read_of(s, addr),
        Mmu::<C>::read_of(s.ticked(cycles), 0xff0f) == Mmu::<C>::read_of(s, 0xff0f) | if_bits(
            s.lcd.run(cycles as nat).1,
            s.timer.run(cycles as nat).1,
        ),
        Mmu::<C>::read_of(s.advanced(cycles), 0xff0f) == Mmu::<C>::read_of(s, 0xff0f) | if_bits(
            s.lcd.run(cycles as nat).1,
            s.timer.stretch(cycles as nat).1,
        ),
{
    crate::timer::law_div_counts_cycles(s.timer, cycles as nat);
    crate::ppu_timing::lemma_run_keeps_registers(s.lcd, cycles as nat);
    let flags = s.io[0x0f];
    assert(flags | 0 == flags && (flags | 0x04) | 0x01 == flags | 0x05) by (bit_vector);
}

/// The memories of an MMU always have their sizes.
pub proof fn law_mmu_sizes<C: Cartridge>(mmu: Mmu<C>)
    ensures
        mmu.state().sized(),
{
}

} // verus!
