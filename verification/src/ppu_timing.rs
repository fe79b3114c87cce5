//! The timing of the LCD alone
//!
//! A PPU that runs through its lines and modes whether or not the LCD is
//! switched on, and draws nothing: what a program needs that waits for LY or
//! for vertical blank. [`crate::ppu`] is the one with a picture.

use crate::ppu::mode::PpuMode;
use crate::ppu::model::{
    PpuState, DRAWING_START, FRAME_LINES, HBLANK_START, LINE_DOTS, VBLANK_LINE,
};
use vstd::prelude::*;

verus! {

/// The registers, the position and the picture, which stays blank.
#[verifier::ext_equal]
pub struct LcdState {
    pub lcdc: u8,
    /// The interrupt selects of STAT, bits 3 to 6.
    pub stat_select: u8,
    pub scy: u8,
    pub scx: u8,
    pub ly: u8,
    pub lyc: u8,
    pub dma: u8,
    pub bgp: u8,
    pub obp0: u8,
    pub obp1: u8,
    pub wy: u8,
    pub wx: u8,
    pub mode: PpuMode,
    pub dots: u16,
    pub pixels: Seq<u8>,
}

impl LcdState {
    pub open spec fn reset() -> LcdState {
        LcdState {
            lcdc: 0,
            stat_select: 0,
            scy: 0,
            scx: 0,
            ly: 0,
            lyc: 0,
            dma: 0,
            bgp: 0,
            obp0: 0,
            obp1: 0,
            wy: 0,
            wx: 0,
            mode: PpuMode::OamSearch,
            dots: 0,
            pixels: Seq::new(23040, |i: int| 0u8),
        }
    }

    /// STAT: bit 7 set, the selects, whether LY matches LYC, and the mode.
    pub open spec fn stat(self) -> u8 {
        let coincidence = if self.ly == self.lyc {
            4u8
        } else {
            0u8
        };
        0x80u8 | self.stat_select | coincidence | self.mode.code()
    }

    pub open spec fn read(self, addr: u16) -> u8 {
        if addr == 0xff40 {
            self.lcdc
        } else if addr == 0xff41 {
            self.stat()
        } else if addr == 0xff42 {
            self.scy
        } else if addr == 0xff43 {
            self.scx
        } else if addr == 0xff44 {
            self.ly
        } else if addr == 0xff45 {
            self.lyc
        } else if addr == 0xff46 {
            self.dma
        } else if addr == 0xff47 {
            self.bgp
        } else if addr == 0xff48 {
            self.obp0
        } else if addr == 0xff49 {
            self.obp1
        } else if addr == 0xff4a {
            self.wy
        } else {
            self.wx
        }
    }

    /// A register write. Only the selects of STAT can be written, and any
    /// write to LY clears it.
    pub open spec fn write(self, addr: u16, value: u8) -> LcdState {
        if addr == 0xff40 {
            LcdState { lcdc: value, ..self }
        } else if addr == 0xff41 {
            LcdState { stat_select: value & 0x78, ..self }
        } else if addr == 0xff42 {
            LcdState { scy: value, ..self }
        } else if addr == 0xff43 {
            LcdState { scx: value, ..self }
        } else if addr == 0xff44 {
            LcdState { ly: 0, ..self }
        } else if addr == 0xff45 {
            LcdState { lyc: value, ..self }
        } else if addr == 0xff46 {
            LcdState { dma: value, ..self }
        } else if addr == 0xff47 {
            LcdState { bgp: value, ..self }
        } else if addr == 0xff48 {
            LcdState { obp0: value, ..self }
        } else if addr == 0xff49 {
            LcdState { obp1: value, ..self }
        } else if addr == 0xff4a {
            LcdState { wy: value, ..self }
        } else {
            LcdState { wx: value, ..self }
        }
    }

    pub open spec fn at_line_end(self) -> bool {
        self.dots + 1 == LINE_DOTS
    }

    /// The next dot, and whether it entered vertical blank.
    pub open spec fn dot(self) -> (LcdState, bool) {
        let dots = if self.at_line_end() {
            0
        } else {
            (self.dots + 1) as u16
        };
        let ly = if !self.at_line_end() {
            self.ly
        } else if self.ly + 1 == FRAME_LINES {
            0
        } else {
            (self.ly + 1) as u8
        };
        (
            LcdState { dots, ly, mode: PpuState::mode_at(ly, dots), ..self },
            self.at_line_end() && ly == VBLANK_LINE,
        )
    }

    /// `n` dots, and whether one of them entered vertical blank.
    pub open spec fn run(self, n: nat) -> (LcdState, bool)
        decreases n,
    {
        if n == 0 {
            (self, false)
        } else {
            let (s, before) = self.run((n - 1) as nat);
            let (t, now) = s.dot();
            (t, before || now)
        }
    }

    /// That the next dot does not run the counters over.
    pub open spec fn can_move(self) -> bool {
        self.dots < 0xffff && (self.at_line_end() ==> self.ly < 0xff)
    }

    pub open spec fn can_run(self, n: nat) -> bool {
        forall|k: nat| k < n ==> (#[trigger] self.run(k)).0.can_move()
    }

    /// A position on the screen.
    pub open spec fn on_screen(self) -> bool {
        self.dots < LINE_DOTS && self.ly < FRAME_LINES
    }
}

pub struct Ppu {
    pub lcdc: u8,
    pub stat_select: u8,
    pub scy: u8,
    pub scx: u8,
    pub ly: u8,
    pub lyc: u8,
    pub dma: u8,
    pub bgp: u8,
    pub obp0: u8,
    pub obp1: u8,
    pub wy: u8,
    pub wx: u8,
    pub mode: PpuMode,
    pub dots: u16,
    pub framebuffer: [u8; 23040],
}

impl View for Ppu {
    type V = LcdState;

    open spec fn view(&self) -> LcdState {
        LcdState {
            lcdc: self.lcdc,
            stat_select: self.stat_select,
            scy: self.scy,
            scx: self.scx,
            ly: self.ly,
            lyc: self.lyc,
            dma: self.dma,
            bgp: self.bgp,
            obp0: self.obp0,
            obp1: self.obp1,
            wy: self.wy,
            wx: self.wx,
            mode: self.mode,
            dots: self.dots,
            pixels: self.framebuffer@,
        }
    }
}

impl Ppu {
    pub fn new() -> (r: Self)
        ensures
            r@ == LcdState::reset(),
            r@.on_screen(),
    {
        let r = Self {
            lcdc: 0,
            stat_select: 0,
            scy: 0,
            scx: 0,
            ly: 0,
            lyc: 0,
            dma: 0,
            bgp: 0,
            obp0: 0,
            obp1: 0,
            wy: 0,
            wx: 0,
            mode: PpuMode::OamSearch,
            dots: 0,
            framebuffer: [0; 23040],
        };
        assert(r@ =~= LcdState::reset());
        r
    }

    pub fn mode(&self) -> (r: PpuMode)
        ensures
            r == self@.mode,
    {
        self.mode
    }

    pub fn framebuffer(&self) -> (r: &[u8; 23040])
        ensures
            r@ == self@.pixels,
    {
        &self.framebuffer
    }

    pub fn read(&self, addr: u16) -> (r: u8)
        requires
            0xff40 <= addr <= 0xff4b,
        ensures
            r == self@.read(addr),
    {
        match addr {
            0xff40 => self.lcdc,
            0xff41 => self.read_stat(),
            0xff42 => self.scy,
            0xff43 => self.scx,
            0xff44 => self.ly,
            0xff45 => self.lyc,
            0xff46 => self.dma,
            0xff47 => self.bgp,
            0xff48 => self.obp0,
            0xff49 => self.obp1,
            0xff4a => self.wy,
            _ => self.wx,
        }
    }

    pub fn write(&mut self, addr: u16, value: u8)
        requires
            0xff40 <= addr <= 0xff4b,
        ensures
            final(self)@ == old(self)@.write(addr, value),
            old(self)@.on_screen() ==> final(self)@.on_screen(),
    {
        match addr {
            0xff40 => self.lcdc = value,
            0xff41 => self.write_stat(value),
            0xff42 => self.scy = value,
            0xff43 => self.scx = value,
            0xff44 => self.ly = 0,
            0xff45 => self.lyc = value,
            0xff46 => self.dma = value,
            0xff47 => self.bgp = value,
            0xff48 => self.obp0 = value,
            0xff49 => self.obp1 = value,
            0xff4a => self.wy = value,
            _ => self.wx = value,
        }
    }

    fn read_stat(&self) -> (r: u8)
        ensures
            r == self@.stat(),
    {
        let coincidence: u8 = if self.ly == self.lyc {
            4
        } else {
            0
        };
        0x80 | self.stat_select | coincidence | self.mode.stat_bits()
    }

    fn write_stat(&mut self, value: u8)
        ensures
            final(self)@ == old(self)@.write(0xff41, value),
    {
        self.stat_select = value & 0x78;
    }

    /// Advance by `cycles` dots and return the IF bits to set.
    pub fn tick(&mut self, cycles: u32) -> (interrupts: u8)
        requires
            old(self)@.on_screen() || old(self)@.can_run(cycles as nat),
        ensures
            final(self)@ == old(self)@.run(cycles as nat).0,
            interrupts == (if old(self)@.run(cycles as nat).1 {
                1u8
            } else {
                0u8
            }),
            old(self)@.on_screen() ==> final(self)@.on_screen(),
    {
        let ghost s = self@;
        proof {
            if s.on_screen() {
                law_lcd_stays_on_screen(s, cycles as nat);
            }
        }
        let mut interrupts: u8 = 0;
        let mut done: u32 = 0;
        while done < cycles
            invariant
                done <= cycles,
                s.can_run(cycles as nat),
                self@ == s.run(done as nat).0,
                interrupts == (if s.run(done as nat).1 {
                    1u8
                } else {
                    0u8
                }),
            decreases cycles - done,
        {
            self.dots = self.dots + 1;
            if self.dots == LINE_DOTS {
                self.dots = 0;
                self.ly = self.ly + 1;
                if self.ly == FRAME_LINES {
                    self.ly = 0;
                }
                if self.ly == VBLANK_LINE {
                    interrupts = 1;
                }
            }
            self.mode = if self.ly >= VBLANK_LINE {
                PpuMode::VBlank
            } else if self.dots < DRAWING_START {
                PpuMode::OamSearch
            } else if self.dots < HBLANK_START {
                PpuMode::Drawing
            } else {
                PpuMode::HBlank
            };
            done = done + 1;
        }
        interrupts
    }

    /// [`Ppu::tick`] from any position: from one that is not on the screen,
    /// `None`, and nothing moves.
    pub fn try_tick(&mut self, cycles: u32) -> (r: Option<u8>)
        ensures
            r is Some <==> old(self)@.on_screen(),
            r matches Some(bits) ==> final(self)@ == old(self)@.run(cycles as nat).0 && bits == (
            if old(self)@.run(cycles as nat).1 {
                1u8
            } else {
                0u8
            }) && final(self)@.on_screen(),
            r is None ==> final(self)@ == old(self)@,
    {
        if self.dots < LINE_DOTS && self.ly < FRAME_LINES {
            Some(self.tick(cycles))
        } else {
            None
        }
    }
}

impl Default for Ppu {
    fn default() -> (r: Self)
        ensures
            r@ == LcdState::reset(),
            r@.on_screen(),
    {
        Self::new()
    }
}

/// From a position on the screen any number of dots can be run, and they end
/// on the screen.
pub proof fn law_lcd_stays_on_screen(s: LcdState, n: nat)
    requires
        s.on_screen(),
    ensures
        s.can_run(n),
        s.run(n).0.on_screen(),
    decreases n,
{
    if n > 0 {
        let before = (n - 1) as nat;
        law_lcd_stays_on_screen(s, before);
        assert forall|k: nat| k < n implies (#[trigger] s.run(k)).0.can_move() by {
            if k < before {
            }
        }
    }
}

/// Time changes LY, the mode and the dot counter, and no other register.
pub proof fn lemma_run_keeps_registers(s: LcdState, n: nat)
    ensures
        s.run(n).0 == (LcdState {
            ly: s.run(n).0.ly,
            mode: s.run(n).0.mode,
            dots: s.run(n).0.dots,
            ..s
        }),
    decreases n,
{
    if n > 0 {
        lemma_run_keeps_registers(s, (n - 1) as nat);
    }
}

/// How many dots into a frame of 154 lines of 456 dots the position is.
pub open spec fn lcd_position(s: LcdState) -> int {
    s.ly * LINE_DOTS + s.dots
}

proof fn lemma_next_position(s: LcdState)
    requires
        s.on_screen(),
    ensures
        0 <= lcd_position(s) < 70224,
        lcd_position(s.dot().0) == (if lcd_position(s) == 70223 {
            0
        } else {
            lcd_position(s) + 1
        }),
        s.dot().1 <==> lcd_position(s.dot().0) == VBLANK_LINE * LINE_DOTS,
{
}

/// The position after `n` dots is `n` dots on, modulo a frame. Vertical blank
/// is entered on the one dot of a frame that starts line 144.
pub proof fn law_lcd_position(s: LcdState, n: nat)
    requires
        s.on_screen(),
    ensures
        lcd_position(s.run(n).0) == (lcd_position(s) + n) % 70224,
        s.run(n).0.dot().1 <==> (lcd_position(s) + n + 1) % 70224 == VBLANK_LINE * LINE_DOTS,
    decreases n,
{
    lemma_next_position(s);
    law_lcd_stays_on_screen(s, n);
    lemma_next_position(s.run(n).0);
    if n > 0 {
        let before = (n - 1) as nat;
        law_lcd_position(s, before);
        law_lcd_stays_on_screen(s, before);
        lemma_next_position(s.run(before).0);
    }
}

/// After any dot the mode is the one that goes with the position.
pub proof fn law_lcd_mode(s: LcdState, n: nat)
    requires
        n > 0,
    ensures
        s.run(n).0.mode == PpuState::mode_at(s.run(n).0.ly, s.run(n).0.dots),
{
}

/// Every register but STAT and LY reads back what was written.
pub proof fn law_lcd_registers_read_back(s: LcdState, addr: u16, value: u8)
    requires
        0xff40 <= addr <= 0xff4b,
        addr != 0xff41,
    ensures
        s.write(addr, value).read(addr) == (if addr == 0xff44 {
            0
        } else {
            value
        }),
{
}

/// Running twice is running by the sum.
pub proof fn law_lcd_runs_add(s: LcdState, a: nat, b: nat)
    ensures
        s.run(a + b).0 == s.run(a).0.run(b).0,
        s.run(a + b).1 == (s.run(a).1 || s.run(a).0.run(b).1),
    decreases b,
{
    if b > 0 {
        law_lcd_runs_add(s, a, (b - 1) as nat);
        assert((a + b - 1) as nat == a + (b - 1) as nat);
    }
}

// ----- in numbers -----

/// `n` dots move the position by `n` through 154 lines of 456 dots. Line and
/// dot tell the mode, and vertical blank is announced on entering line 144.
pub proof fn law_lcd_time_in_numbers(s: LcdState, n: nat)
    requires
        s.dots < 456,
        s.ly < 154,
    ensures
        ({
            let t = s.run(n).0;
            &&& t.ly * 456 + t.dots == (s.ly * 456 + s.dots + n) % 70224
            &&& t.dots < 456
            &&& t.ly < 154
            &&& n > 0 ==> t.mode == (if t.ly >= 144 {
                PpuMode::VBlank
            } else if t.dots < 80 {
                PpuMode::OamSearch
            } else if t.dots < 252 {
                PpuMode::Drawing
            } else {
                PpuMode::HBlank
            })
            &&& t.run(1).1 <==> (s.ly * 456 + s.dots + n + 1) % 70224 == 65664
            &&& t == (LcdState { ly: t.ly, dots: t.dots, mode: t.mode, ..s })
        }),
{
    law_lcd_position(s, n);
    law_lcd_stays_on_screen(s, n);
    lemma_run_keeps_registers(s, n);
    let t = s.run(n).0;
    assert(t.run(0) == (t, false));
    assert(t.run(1).1 == t.dot().1);
    if n > 0 {
        law_lcd_mode(s, n);
    }
}

/// Which register is at which address, and that STAT tells in bit 2 whether LY
/// matches LYC, and in the two below it the mode.
pub proof fn law_lcd_register_addresses(s: LcdState, value: u8)
    ensures
        s.read(0xff40) == s.lcdc,
        s.read(0xff42) == s.scy,
        s.read(0xff43) == s.scx,
        s.read(0xff44) == s.ly,
        s.read(0xff45) == s.lyc,
        s.read(0xff46) == s.dma,
        s.read(0xff47) == s.bgp,
        s.read(0xff48) == s.obp0,
        s.read(0xff49) == s.obp1,
        s.read(0xff4a) == s.wy,
        s.read(0xff4b) == s.wx,
        ({
            let stat = s.write(0xff41, value).read(0xff41);
            &&& stat & 0x80 == 0x80
            &&& stat & 0x78 == value & 0x78
            &&& stat & 0x04 != 0 <==> s.ly == s.lyc
            &&& stat & 0x03 == (match s.mode {
                PpuMode::HBlank => 0u8,
                PpuMode::VBlank => 1u8,
                PpuMode::OamSearch => 2u8,
                PpuMode::Drawing => 3u8,
            })
        }),
{
    assert((value & 0x78) & 0x78 == value & 0x78) by (bit_vector);
    crate::bits::lemma_stat_fields(
        value & 0x78,
        if s.ly == s.lyc {
            4
        } else {
            0
        },
        s.mode.code(),
    );
}

/// A write to a register leaves what the others read, but for STAT, which
/// compares LY with LYC, and leaves the position.
pub proof fn law_lcd_registers_are_apart(s: LcdState, addr: u16, other: u16, value: u8)
    requires
        0xff40 <= addr <= 0xff4b,
        0xff40 <= other <= 0xff4b,
        other != addr,
        other != 0xff41,
    ensures
        s.write(addr, value).read(other) == s.read(other),
        s.write(addr, value).dots == s.dots,
        s.write(addr, value).mode == s.mode,
        s.write(addr, value).pixels == s.pixels,
        addr != 0xff44 ==> s.write(addr, value).ly == s.ly,
        LcdState::reset().read(addr) == (if addr == 0xff41 {
            0x86u8
        } else {
            0u8
        }),
        LcdState::reset().dots == 0,
        LcdState::reset().mode == PpuMode::OamSearch,
{
    crate::bits::lemma_stat_at_first();
}

} // verus!
