//! The whole console behind the bus
//!
//! Cartridge, work RAM, and the PPU, timer, serial port, joypad and sound unit
//! at their registers. Each M-cycle of the CPU ticks them all; what they ask
//! for is set in IF (0xFF0F): bit 0 vertical blank, bit 1 STAT, bit 2 timer,
//! bit 3 serial, bit 4 joypad.

use crate::apu::{Apu, ApuState};
use crate::bus::Bus;
use crate::cartridge::Cartridge;
use crate::joypad::{Joypad, JoypadState};
use crate::ppu::framebuffer::Framebuffer;
use crate::ppu::model::{PpuState, Raised};
use crate::ppu::Ppu;
use crate::serial::{Serial, SerialState};
use crate::timer::{Timer, TimerState};
use vstd::prelude::*;

verus! {

/// The console as contracts speak of it.
#[verifier::ext_equal]
pub struct ConsoleState<S> {
    pub cartridge: S,
    pub ppu: PpuState,
    pub timer: TimerState,
    pub serial: SerialState,
    pub joypad: JoypadState,
    pub apu: ApuState,
    pub wram: Seq<u8>,
    /// The I/O bytes that no part answers for, IF among them.
    pub io: Seq<u8>,
    pub hram: Seq<u8>,
    pub ie: u8,
    /// Whether a frame was finished and not yet taken.
    pub frame_ready: bool,
}

/// A byte of IF with the bits of the parts that asked for an interrupt.
pub open spec fn requested(flags: u8, lcd: Raised, timer: bool, serial: bool) -> u8 {
    flags | lcd.bits() | (if timer {
        0x04u8
    } else {
        0x00u8
    }) | (if serial {
        0x08u8
    } else {
        0x00u8
    })
}

impl<S> ConsoleState<S> {
    pub open spec fn fresh(cartridge: S) -> ConsoleState<S> {
        ConsoleState {
            cartridge,
            ppu: PpuState::reset(),
            timer: TimerState::reset(),
            serial: SerialState::reset(),
            joypad: JoypadState::reset(),
            apu: ApuState::reset(),
            wram: crate::mmu::zeros(0x2000),
            io: crate::mmu::zeros(0x80),
            hram: crate::mmu::zeros(0x7f),
            ie: 0,
            frame_ready: false,
        }
    }

    /// That the memories have their sizes.
    pub open spec fn sized(self) -> bool {
        &&& self.ppu.wf()
        &&& self.apu.regs.len() == 23
        &&& self.apu.wave_ram.len() == 16
        &&& self.wram.len() == 0x2000
        &&& self.io.len() == 0x80
        &&& self.hram.len() == 0x7f
    }

    /// That the memories have their sizes and the PPU is on the screen.
    pub open spec fn wf(self) -> bool {
        self.sized() && self.ppu.on_screen()
    }

    /// `cycles` dots of the PPU.
    pub open spec fn lcd_run(self, cycles: u8) -> (PpuState, Raised) {
        if self.ppu.on_screen() {
            self.ppu.ticked(cycles as nat)
        } else {
            (self.ppu, Raised::none())
        }
    }

    /// `cycles` T-cycles go by for every part.
    pub open spec fn ticked(self, cycles: u8) -> ConsoleState<S> {
        let (timer, overflow) = self.timer.run(cycles as nat);
        let (ppu, lcd) = self.lcd_run(cycles);
        ConsoleState {
            ppu,
            timer,
            serial: SerialState { interrupt: false, ..self.serial },
            io: self.io.update(
                0x0f,
                requested(self.io[0x0f], lcd, overflow, self.serial.interrupt),
            ),
            frame_ready: self.frame_ready || lcd.vblank,
            ..self
        }
    }

    /// The buttons that are down now. A fresh press asks for the joypad
    /// interrupt.
    pub open spec fn with_buttons(self, pressed: u8) -> ConsoleState<S> {
        let joypad = self.joypad.with_pressed(pressed);
        ConsoleState {
            joypad: JoypadState { interrupt: false, ..joypad },
            io: if joypad.interrupt {
                self.io.update(0x0f, self.io[0x0f] | 0x10)
            } else {
                self.io
            },
            ..self
        }
    }
}

/// The byte that the console answers with.
pub open spec fn byte_at<C: Cartridge>(s: ConsoleState<C::State>, addr: u16) -> u8 {
    if addr < 0x8000 {
        C::rom_of(s.cartridge, addr)
    } else if addr < 0xa000 {
        s.ppu.vram[addr - 0x8000]
    } else if addr < 0xc000 {
        C::ram_of(s.cartridge, (addr - 0xa000) as u16)
    } else if addr < 0xe000 {
        s.wram[addr - 0xc000]
    } else if addr < 0xfe00 {
        // The echo of WRAM.
        s.wram[addr - 0xe000]
    } else if addr < 0xfea0 {
        s.ppu.oam[addr - 0xfe00]
    } else if addr < 0xff00 {
        0xff
    } else if addr == 0xff00 {
        s.joypad.read()
    } else if addr == 0xff01 || addr == 0xff02 {
        s.serial.read(addr)
    } else if 0xff04 <= addr <= 0xff07 {
        s.timer.read(addr)
    } else if 0xff10 <= addr <= 0xff3f {
        s.apu.read(addr)
    } else if 0xff40 <= addr <= 0xff4b && addr != 0xff46 {
        s.ppu.read(addr)
    } else if addr < 0xff80 {
        s.io[addr - 0xff00]
    } else if addr < 0xffff {
        s.hram[addr - 0xff80]
    } else {
        s.ie
    }
}

/// The 160 bytes from `page` * 256 on.
pub open spec fn page_bytes<C: Cartridge>(s: ConsoleState<C::State>, page: u8) -> Seq<u8> {
    Seq::new(0xa0, |i: int| byte_at::<C>(s, (page * 256 + i) as u16))
}

pub struct Console<C: Cartridge> {
    cartridge: Box<C>,
    ppu: Ppu,
    timer: Timer,
    serial: Serial,
    joypad: Joypad,
    apu: Apu,
    wram: [u8; 0x2000],
    io: [u8; 0x80],
    hram: [u8; 0x7f],
    ie: u8,
    frame_ready: bool,
}

impl<C: Cartridge> Console<C> {
    pub fn new(cartridge: Box<C>) -> (r: Self)
        ensures
            r.state() == ConsoleState::fresh(cartridge.state()),
            r.state().wf(),
    {
        let r = Self {
            cartridge,
            ppu: Ppu::new(),
            timer: Timer::new(),
            serial: Serial::new(),
            joypad: Joypad::new(),
            apu: Apu::new(),
            wram: [0; 0x2000],
            io: [0; 0x80],
            hram: [0; 0x7f],
            ie: 0,
            frame_ready: false,
        };
        assert(r.state().wram =~= crate::mmu::zeros(0x2000));
        assert(r.state().io =~= crate::mmu::zeros(0x80));
        assert(r.state().hram =~= crate::mmu::zeros(0x7f));
        r
    }

    /// Let `cycles` T-cycles go by for every part.
    pub fn tick(&mut self, cycles: u8)
        ensures
            final(self).state() == old(self).state().ticked(cycles),
    {
        let overflow: bool = self.timer.tick(cycles);
        let sent: bool = self.serial.tick(cycles);
        self.apu.tick(cycles);
        let lcd: u8 = match self.ppu.try_tick(cycles as u32) {
            Some(bits) => bits,
            None => 0,
        };
        if lcd == 1 || lcd == 3 {
            self.frame_ready = true;
        }
        let timer_bit: u8 = if overflow {
            0x04
        } else {
            0x00
        };
        let serial_bit: u8 = if sent {
            0x08
        } else {
            0x00
        };
        self.io[0x0f] = self.io[0x0f] | lcd | timer_bit | serial_bit;
    }

    /// Take the bytes that were sent over the serial port since the last call.
    pub fn drain_serial_output(&mut self) -> (r: Vec<u8>)
        ensures
            r@ == old(self).state().serial.output,
            final(self).state() == (ConsoleState {
                serial: SerialState { output: Seq::empty(), ..old(self).state().serial },
                ..old(self).state()
            }),
    {
        self.serial.drain_output()
    }

    /// Whether vertical blank was entered since the last call.
    pub fn take_frame_ready(&mut self) -> (r: bool)
        ensures
            r == old(self).state().frame_ready,
            final(self).state() == (ConsoleState { frame_ready: false, ..old(self).state() }),
    {
        let ready: bool = self.frame_ready;
        self.frame_ready = false;
        ready
    }

    /// The picture as composed so far.
    pub fn framebuffer(&self) -> (r: &Framebuffer)
        ensures
            r@ == self.state().ppu.pixels,
    {
        self.ppu.framebuffer()
    }

    /// Say which buttons are down now.
    pub fn set_buttons(&mut self, pressed: u8)
        ensures
            final(self).state() == old(self).state().with_buttons(pressed),
    {
        self.joypad.set_pressed(pressed);
        if self.joypad.take_interrupt() {
            self.io[0x0f] = self.io[0x0f] | 0x10;
        }
    }

    /// The samples made since the last call: none, as the sound unit is a
    /// register file.
    pub fn drain_audio_samples(&mut self) -> (r: Vec<i16>)
        ensures
            r@ == Seq::<i16>::empty(),
            final(self).state() == old(self).state(),
    {
        Vec::new()
    }

    /// Copy a page of the address space to OAM.
    fn transfer_oam(&mut self, page: u8)
        ensures
            final(self).state() == (ConsoleState {
                ppu: PpuState {
                    oam: page_bytes::<C>(old(self).state(), page),
                    ..old(self).state().ppu
                },
                ..old(self).state()
            }),
    {
        let ghost s = self.state();
        let mut bytes: [u8; 0xa0] = [0; 0xa0];
        let mut i: u16 = 0;
        while i < 0xa0
            invariant
                i <= 0xa0,
                self.state() == s,
                bytes@.len() == 0xa0,
                forall|k: int| 0 <= k < i ==> bytes@[k] == page_bytes::<C>(s, page)[k],
            decreases 0xa0 - i,
        {
            bytes[i as usize] = self.read8(page as u16 * 256 + i);
            i = i + 1;
        }
        assert(bytes@ =~= page_bytes::<C>(s, page));
        self.ppu.oam = bytes;
    }
}

impl<C: Cartridge> Bus for Console<C> {
    type State = ConsoleState<C::State>;

    closed spec fn state(&self) -> ConsoleState<C::State> {
        ConsoleState {
            cartridge: self.cartridge.state(),
            ppu: self.ppu@,
            timer: self.timer@,
            serial: self.serial@,
            joypad: self.joypad@,
            apu: self.apu@,
            wram: self.wram@,
            io: self.io@,
            hram: self.hram@,
            ie: self.ie,
            frame_ready: self.frame_ready,
        }
    }

    open spec fn read_of(s: ConsoleState<C::State>, addr: u16) -> u8 {
        byte_at::<C>(s, addr)
    }

    open spec fn after_write(s: ConsoleState<C::State>, addr: u16, value: u8) -> ConsoleState<
        C::State,
    > {
        if addr < 0x8000 {
            ConsoleState { cartridge: C::after_rom_write(s.cartridge, addr, value), ..s }
        } else if addr < 0xa000 {
            ConsoleState {
                ppu: PpuState { vram: s.ppu.vram.update(addr - 0x8000, value), ..s.ppu },
                ..s
            }
        } else if addr < 0xc000 {
            ConsoleState {
                cartridge: C::after_ram_write(s.cartridge, (addr - 0xa000) as u16, value),
                ..s
            }
        } else if addr < 0xe000 {
            ConsoleState { wram: s.wram.update(addr - 0xc000, value), ..s }
        } else if addr < 0xfe00 {
            ConsoleState { wram: s.wram.update(addr - 0xe000, value), ..s }
        } else if addr < 0xfea0 {
            ConsoleState {
                ppu: PpuState { oam: s.ppu.oam.update(addr - 0xfe00, value), ..s.ppu },
                ..s
            }
        } else if addr < 0xff00 {
            s
        } else if addr == 0xff00 {
            ConsoleState { joypad: s.joypad.write(value), ..s }
        } else if addr == 0xff01 || addr == 0xff02 {
            ConsoleState { serial: s.serial.write(addr, value), ..s }
        } else if 0xff04 <= addr <= 0xff07 {
            ConsoleState { timer: s.timer.write(addr, value), ..s }
        } else if 0xff10 <= addr <= 0xff3f {
            ConsoleState { apu: s.apu.write(addr, value), ..s }
        } else if addr == 0xff46 {
            // OAM DMA, done at once.
            ConsoleState {
                ppu: PpuState { oam: page_bytes::<C>(s, value), ..s.ppu },
                io: s.io.update(0x46, value),
                ..s
            }
        } else if 0xff40 <= addr <= 0xff4b {
            ConsoleState { ppu: s.ppu.write(addr, value), ..s }
        } else if addr < 0xff80 {
            ConsoleState { io: s.io.update(addr - 0xff00, value), ..s }
        } else if addr < 0xffff {
            ConsoleState { hram: s.hram.update(addr - 0xff80, value), ..s }
        } else {
            ConsoleState { ie: value, ..s }
        }
    }

    open spec fn after_tick(s: ConsoleState<C::State>, cycles: u8) -> ConsoleState<C::State> {
        s.ticked(cycles)
    }

    fn read8(&self, addr: u16) -> u8 {
        if addr < 0x8000 {
            self.cartridge.read_rom(addr)
        } else if addr < 0xa000 {
            self.ppu.read_vram(addr)
        } else if addr < 0xc000 {
            self.cartridge.read_ram(addr - 0xa000)
        } else if addr < 0xe000 {
            self.wram[(addr - 0xc000) as usize]
        } else if addr < 0xfe00 {
            self.wram[(addr - 0xe000) as usize]
        } else if addr < 0xfea0 {
            self.ppu.read_oam(addr)
        } else if addr < 0xff00 {
            0xff
        } else if addr == 0xff00 {
            self.joypad.read(addr)
        } else if addr == 0xff01 || addr == 0xff02 {
            self.serial.read(addr)
        } else if 0xff04 <= addr && addr <= 0xff07 {
            self.timer.read(addr)
        } else if 0xff10 <= addr && addr <= 0xff3f {
            self.apu.read(addr)
        } else if 0xff40 <= addr && addr <= 0xff4b && addr != 0xff46 {
            self.ppu.read(addr)
        } else if addr < 0xff80 {
            self.io[(addr - 0xff00) as usize]
        } else if addr < 0xffff {
            self.hram[(addr - 0xff80) as usize]
        } else {
            self.ie
        }
    }

    fn write8(&mut self, addr: u16, value: u8) {
        if addr < 0x8000 {
            self.cartridge.write_rom(addr, value);
        } else if addr < 0xa000 {
            self.ppu.write_vram(addr, value);
        } else if addr < 0xc000 {
            self.cartridge.write_ram(addr - 0xa000, value);
        } else if addr < 0xe000 {
            self.wram[(addr - 0xc000) as usize] = value;
        } else if addr < 0xfe00 {
            self.wram[(addr - 0xe000) as usize] = value;
        } else if addr < 0xfea0 {
            self.ppu.write_oam(addr, value);
        } else if addr < 0xff00 {
        } else if addr == 0xff00 {
            self.joypad.write(addr, value);
        } else if addr == 0xff01 || addr == 0xff02 {
            self.serial.write(addr, value);
        } else if 0xff04 <= addr && addr <= 0xff07 {
            self.timer.write(addr, value);
        } else if 0xff10 <= addr && addr <= 0xff3f {
            self.apu.write(addr, value);
        } else if addr == 0xff46 {
            self.transfer_oam(value);
            self.io[0x46] = value;
        } else if 0xff40 <= addr && addr <= 0xff4b {
            self.ppu.write(addr, value);
        } else if addr < 0xff80 {
            self.io[(addr - 0xff00) as usize] = value;
        } else if addr < 0xffff {
            self.hram[(addr - 0xff80) as usize] = value;
        } else {
            self.ie = value;
        }
    }

    fn read8_cpu(&mut self, addr: u16) -> u8 {
        self.read8(addr)
    }

    fn write8_cpu(&mut self, addr: u16, value: u8) {
        self.write8(addr, value);
    }

    fn read8_cpu_idu(&mut self, addr: u16, idu_addr: u16) -> u8 {
        self.read8_cpu(addr)
    }

    fn write8_cpu_idu(&mut self, addr: u16, value: u8, idu_addr: u16) {
        self.write8_cpu(addr, value);
    }

    fn idu_glitch_cpu(&mut self, addr: u16) {
    }

    fn tick(&mut self, cycles: u8) {
        Console::tick(self, cycles);
    }
}

/// A new console is well formed, and no write, press or time that passes
/// changes that: every PPU in a console is on the screen.
pub proof fn law_console_stays_well_formed<C: Cartridge>(
    cartridge: C::State,
    s: ConsoleState<C::State>,
    addr: u16,
    value: u8,
)
    requires
        s.wf(),
    ensures
        ConsoleState::fresh(cartridge).wf(),
        Console::<C>::after_write(s, addr, value).wf(),
        s.ticked(value).wf(),
        s.with_buttons(value).wf(),
{
    crate::ppu::laws::law_tick_stays_on_screen(s.ppu, value as nat);
    crate::ppu::laws::law_tick_keeps_sizes(s.ppu, value as nat);
}

/// A write to 0xFF46 copies 160 bytes, from the page whose number was written,
/// to OAM.
pub proof fn law_dma_copies_a_page<C: Cartridge>(s: ConsoleState<C::State>, page: u8, i: int)
    requires
        s.sized(),
        0 <= i < 0xa0,
    ensures
        Console::<C>::read_of(
            Console::<C>::after_write(s, 0xff46, page),
            (0xfe00 + i) as u16,
        ) == Console::<C>::read_of(s, (page * 256 + i) as u16),
        Console::<C>::read_of(Console::<C>::after_write(s, 0xff46, page), 0xff46) == page,
{
}

/// VRAM, OAM, WRAM, HRAM, IE and IF give back what was written to them.
pub proof fn law_console_memory_reads_back<C: Cartridge>(
    s: ConsoleState<C::State>,
    addr: u16,
    value: u8,
)
    requires
        s.sized(),
        0x8000 <= addr < 0xa000 || 0xc000 <= addr < 0xfea0 || addr == 0xff0f || 0xff80 <= addr,
    ensures
        Console::<C>::read_of(Console::<C>::after_write(s, addr, value), addr) == value,
{
}

/// The echo of WRAM reads and writes the same bytes.
pub proof fn law_console_echo<C: Cartridge>(s: ConsoleState<C::State>, addr: u16, value: u8)
    requires
        0xe000 <= addr < 0xfe00,
    ensures
        Console::<C>::read_of(s, addr) == Console::<C>::read_of(s, (addr - 0x2000) as u16),
        Console::<C>::after_write(s, addr, value) == Console::<C>::after_write(
            s,
            (addr - 0x2000) as u16,
            value,
        ),
{
}

/// 0xFEA0-0xFEFF reads 0xFF and takes no write.
pub proof fn law_console_unusable_area<C: Cartridge>(
    s: ConsoleState<C::State>,
    addr: u16,
    value: u8,
)
    requires
        0xfea0 <= addr < 0xff00,
    ensures
        Console::<C>::read_of(s, addr) == 0xff,
        Console::<C>::after_write(s, addr, value) == s,
{
}

/// A byte put in SB and sent with SC reaches the output, and the next tick
/// asks for the serial interrupt.
pub proof fn law_serial_byte_is_sent<C: Cartridge>(
    s: ConsoleState<C::State>,
    byte: u8,
    cycles: u8,
)
    requires
        s.io.len() == 0x80,
    ensures
        ({
            let sent = Console::<C>::after_write(
                Console::<C>::after_write(s, 0xff01, byte),
                0xff02,
                0x81,
            );
            &&& sent.serial.output == s.serial.output.push(byte)
            &&& Console::<C>::read_of(sent.ticked(cycles), 0xff0f) & 0x08 != 0
        }),
{
    let flags = s.io[0x0f];
    let sent = Console::<C>::after_write(Console::<C>::after_write(s, 0xff01, byte), 0xff02, 0x81);
    let lcd = sent.lcd_run(cycles).1.bits();
    let timer: u8 = if sent.timer.run(cycles as nat).1 {
        0x04
    } else {
        0x00
    };
    assert((flags | lcd | timer | 0x08) & 0x08 != 0) by (bit_vector);
}

/// A button that goes down asks for the joypad interrupt; one that is held or
/// let go does not.
pub proof fn law_press_requests_interrupt<C: Cartridge>(s: ConsoleState<C::State>, pressed: u8)
    requires
        s.io.len() == 0x80,
        !s.joypad.interrupt,
    ensures
        s.with_buttons(pressed).io[0x0f] == (if pressed & !s.joypad.pressed != 0 {
            s.io[0x0f] | 0x10
        } else {
            s.io[0x0f]
        }),
        !s.with_buttons(pressed).joypad.interrupt,
{
}

/// A frame is announced just when vertical blank is, and stays announced until
/// it is taken.
pub proof fn law_frame_is_announced_at_vblank<C: Cartridge>(s: ConsoleState<C::State>, cycles: u8)
    requires
        s.wf(),
    ensures
        s.ticked(cycles).frame_ready == (s.frame_ready || s.ppu.ticked(cycles as nat).1.vblank),
{
}

/// Ticking twice is ticking by the sum: how a stretch of time is cut up makes
/// no difference to the console.
pub proof fn law_console_ticks_add<C: Cartridge>(s: ConsoleState<C::State>, a: u8, b: u8)
    requires
        s.wf(),
        a + b <= 0xff,
    ensures
        s.ticked(a).ticked(b) == s.ticked((a + b) as u8),
{
    crate::timer::law_timer_runs_add(s.timer, a as nat, b as nat);
    crate::ppu::laws::law_ticks_add(s.ppu, a as nat, b as nat);
    crate::ppu::laws::law_tick_stays_on_screen(s.ppu, a as nat);
    let first = s.ticked(a);
    let both = s.ticked((a + b) as u8);
    let l1 = s.lcd_run(a).1;
    let l2 = first.lcd_run(b).1;
    let t1 = s.timer.run(a as nat).1;
    let t2 = first.timer.run(b as nat).1;
    crate::bits::lemma_requests_add(
        s.io[0x0f],
        l1.bits(),
        l2.bits(),
        if t1 {
            4
        } else {
            0
        },
        if t2 {
            4
        } else {
            0
        },
        if s.serial.interrupt {
            8
        } else {
            0
        },
    );
    assert(l1.bits() | l2.bits() == l1.or(l2).bits());
    assert(first.ticked(b).io =~= both.io);
}

/// The memories of a console always have their sizes.
pub proof fn law_console_sizes<C: Cartridge>(console: Console<C>)
    ensures
        console.state().sized(),
{
    crate::ppu::law_ppu_sizes(console.ppu);
    crate::apu::law_apu_sizes(console.apu);
}

} // verus!
