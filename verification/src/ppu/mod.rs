//! Picture Processing Unit
//!
//! Owns VRAM, OAM, the LCD registers and the picture. [`Ppu::tick`] moves the
//! dot counter through OAM search, drawing, horizontal and vertical blank, and
//! returns the IF bits to be set.
//!
//! A line is composed in one go when its drawing ends, from the registers as
//! they are then: a write during drawing shows on this line, a write during
//! horizontal blank on the next.

pub mod framebuffer;
pub mod history;
pub mod laws;
pub mod mode;
pub mod model;
pub mod picture_laws;
pub mod registers;
pub mod sprites;

pub use framebuffer::{Framebuffer, HEIGHT, WIDTH};
pub use mode::PpuMode;
pub use model::{
    LCDC_BG_ENABLE, LCDC_BG_TILE_MAP, LCDC_LCD_ENABLE, LCDC_OBJ_ENABLE, LCDC_OBJ_SIZE,
    LCDC_TILE_DATA, LCDC_WINDOW_ENABLE, LCDC_WINDOW_TILE_MAP, OAM_ATTR_PALETTE, OAM_ATTR_PRIORITY,
    OAM_ATTR_X_FLIP, OAM_ATTR_Y_FLIP, STAT_INT_HBLANK, STAT_INT_LYC, STAT_INT_OAM, STAT_INT_VBLANK,
};
pub use registers::Registers;

use model::{
    Ink, PpuState, Raised, DRAWING_START, FIRST_LINE_DOTS, FRAME_LINES, HBLANK_START, LINE_DOTS,
    VBLANK_LINE,
};
use vstd::prelude::*;

verus! {

pub struct Ppu {
    pub regs: Registers,
    pub framebuffer: Framebuffer,
    pub vram: [u8; 0x2000],
    pub oam: [u8; 0xa0],
    pub mode: PpuMode,
    pub dots: u16,
    pub stat_line: bool,
    pub wly: u8,
    pub first_line_after_enable: bool,
    pub bg_color_index: [u8; 160],
}

impl View for Ppu {
    type V = PpuState;

    open spec fn view(&self) -> PpuState {
        PpuState {
            regs: self.regs,
            pixels: self.framebuffer@,
            vram: self.vram@,
            oam: self.oam@,
            mode: self.mode,
            dots: self.dots,
            stat_line: self.stat_line,
            wly: self.wly,
            first_line: self.first_line_after_enable,
            under: self.bg_color_index@,
        }
    }
}

/// The shade that a palette register gives to a colour.
fn palette_shade(palette: u8, color: u8) -> (r: u8)
    ensures
        r == model::shade_of(palette, color),
{
    match color {
        0 => palette % 4,
        1 => (palette / 4) % 4,
        2 => (palette / 16) % 4,
        _ => palette / 64,
    }
}

/// The colour of column `x` of a tile row.
fn plane_color(lo: u8, hi: u8, x: u8) -> (r: u8)
    requires
        x < 8,
    ensures
        r == model::color_of(lo, hi, x as int),
{
    let bit: u8 = 7 - x;
    proof {
        crate::bits::lemma_one_bit(lo, bit);
        crate::bits::lemma_one_bit(hi, bit);
    }
    ((hi >> bit) & 1) * 2 + ((lo >> bit) & 1)
}

impl Ppu {
    /// LCD off, everything clear.
    pub fn new() -> (r: Self)
        ensures
            r@ == PpuState::reset(),
            r@.on_screen(),
    {
        let r = Self {
            regs: Registers::new(),
            framebuffer: Framebuffer::new(),
            vram: [0; 0x2000],
            oam: [0; 0xa0],
            mode: PpuMode::OamSearch,
            dots: 0,
            stat_line: false,
            wly: 0,
            first_line_after_enable: false,
            bg_color_index: [0; 160],
        };
        assert(r@ =~= PpuState::reset());
        r
    }

    /// Read VRAM by its address on the bus.
    pub fn read_vram(&self, addr: u16) -> (r: u8)
        requires
            0x8000 <= addr <= 0x9fff,
        ensures
            r == self@.vram[addr - 0x8000],
    {
        self.vram[(addr - 0x8000) as usize]
    }

    /// Write VRAM by its address on the bus.
    pub fn write_vram(&mut self, addr: u16, value: u8)
        requires
            0x8000 <= addr <= 0x9fff,
        ensures
            final(self)@ == (PpuState {
                vram: old(self)@.vram.update(addr - 0x8000, value),
                ..old(self)@
            }),
    {
        self.vram[(addr - 0x8000) as usize] = value;
    }

    /// Read OAM by its address on the bus: forty sprites of four bytes.
    pub fn read_oam(&self, addr: u16) -> (r: u8)
        requires
            0xfe00 <= addr <= 0xfe9f,
        ensures
            r == self@.oam[addr - 0xfe00],
    {
        self.oam[(addr - 0xfe00) as usize]
    }

    /// Write OAM by its address on the bus.
    pub fn write_oam(&mut self, addr: u16, value: u8)
        requires
            0xfe00 <= addr <= 0xfe9f,
        ensures
            final(self)@ == (PpuState {
                oam: old(self)@.oam.update(addr - 0xfe00, value),
                ..old(self)@
            }),
    {
        self.oam[(addr - 0xfe00) as usize] = value;
    }

    pub fn mode(&self) -> (r: PpuMode)
        ensures
            r == self@.mode,
    {
        self.mode
    }

    /// The row of OAM (0 to 19) that is being searched, if it is: an access by
    /// the CPU then corrupts it on a DMG.
    pub fn oam_bug_row_for_access(&self) -> (r: Option<usize>)
        ensures
            r is Some <==> self@.oam_row() is Some,
            r matches Some(row) ==> Some(row as int) == self@.oam_row() && row < 20,
    {
        if (self.regs.lcdc & LCDC_LCD_ENABLE) == 0 || self.regs.ly >= VBLANK_LINE {
            return None;
        }
        if self.dots >= DRAWING_START {
            return None;
        }
        Some((self.dots / 4) as usize)
    }

    /// The picture as composed so far.
    pub fn framebuffer(&self) -> (r: &Framebuffer)
        ensures
            r@ == self@.pixels,
    {
        &self.framebuffer
    }

    /// Read an LCD register. STAT's mode and coincidence bits are made up from
    /// the current state.
    pub fn read(&self, addr: u16) -> (r: u8)
        requires
            0xff40 <= addr <= 0xff4b,
            addr != 0xff46,
        ensures
            r == self@.read(addr),
    {
        match addr {
            0xff40 => self.regs.lcdc,
            0xff41 => self.read_stat(),
            0xff42 => self.regs.scy,
            0xff43 => self.regs.scx,
            0xff44 => self.regs.ly,
            0xff45 => self.regs.lyc,
            0xff47 => self.regs.bgp,
            0xff48 => self.regs.obp0,
            0xff49 => self.regs.obp1,
            0xff4a => self.regs.wy,
            _ => self.regs.wx,
        }
    }

    /// Write an LCD register.
    pub fn write(&mut self, addr: u16, value: u8)
        requires
            0xff40 <= addr <= 0xff4b,
            addr != 0xff46,
        ensures
            final(self)@ == old(self)@.write(addr, value),
            old(self)@.on_screen() ==> final(self)@.on_screen(),
    {
        match addr {
            0xff40 => self.write_lcdc(value),
            0xff41 => self.write_stat(value),
            0xff42 => self.regs.scy = value,
            0xff43 => self.regs.scx = value,
            0xff44 => self.regs.ly = 0,
            0xff45 => self.regs.lyc = value,
            0xff47 => self.regs.bgp = value,
            0xff48 => self.regs.obp0 = value,
            0xff49 => self.regs.obp1 = value,
            0xff4a => self.regs.wy = value,
            _ => self.regs.wx = value,
        }
    }

    fn read_stat(&self) -> (r: u8)
        ensures
            r == self@.stat(),
    {
        let coincidence: u8 = if self.regs.ly == self.regs.lyc {
            4
        } else {
            0
        };
        0x80 | self.regs.stat_select | coincidence | self.mode.stat_bits()
    }

    fn write_stat(&mut self, value: u8)
        ensures
            final(self)@ == old(self)@.write(0xff41, value),
    {
        self.regs.stat_select = value & 0x78;
    }

    fn write_lcdc(&mut self, value: u8)
        ensures
            final(self)@ == old(self)@.with_lcdc(value),
    {
        let was_on: bool = (self.regs.lcdc & LCDC_LCD_ENABLE) != 0;
        let now_on: bool = (value & LCDC_LCD_ENABLE) != 0;
        self.regs.lcdc = value;
        if was_on != now_on {
            self.regs.ly = 0;
            self.dots = 0;
            self.mode = PpuMode::HBlank;
            self.stat_line = false;
            self.wly = 0;
            self.first_line_after_enable = now_on;
        }
    }

    fn compute_stat_line(&self) -> (r: bool)
        ensures
            r == self@.stat_signal(),
    {
        let select: u8 = self.regs.stat_select;
        if (select & STAT_INT_LYC) != 0 && self.regs.ly == self.regs.lyc {
            return true;
        }
        match self.mode {
            PpuMode::HBlank => (select & STAT_INT_HBLANK) != 0,
            PpuMode::VBlank => (select & STAT_INT_VBLANK) != 0,
            PpuMode::OamSearch => (select & STAT_INT_OAM) != 0,
            PpuMode::Drawing => false,
        }
    }

    /// Move to the next dot. Returns whether that entered vertical blank.
    fn advance(&mut self) -> (vblank: bool)
        requires
            old(self)@.can_move(),
        ensures
            final(self)@ == old(self)@.moved(),
            vblank == (old(self)@.at_line_end() && final(self)@.regs.ly == VBLANK_LINE),
    {
        let line_dots: u16 = if self.first_line_after_enable && self.regs.ly == 0 {
            FIRST_LINE_DOTS
        } else {
            LINE_DOTS
        };
        let mut vblank: bool = false;
        self.dots = self.dots + 1;
        if self.dots == line_dots {
            self.dots = 0;
            self.regs.ly = self.regs.ly + 1;
            self.first_line_after_enable = false;
            if self.regs.ly == FRAME_LINES {
                self.regs.ly = 0;
                self.wly = 0;
            }
            vblank = self.regs.ly == VBLANK_LINE;
        }
        self.mode = if self.regs.ly >= VBLANK_LINE {
            PpuMode::VBlank
        } else if self.dots < DRAWING_START {
            PpuMode::OamSearch
        } else if self.dots < HBLANK_START {
            PpuMode::Drawing
        } else {
            PpuMode::HBlank
        };
        vblank
    }

    fn compose(&mut self)
        requires
            old(self).regs.ly < VBLANK_LINE,
        ensures
            final(self)@ == old(self)@.composed(),
    {
        self.render_bg_scanline();
        if self.render_window_scanline() {
            self.wly = self.wly.wrapping_add(1);
        }
        self.render_sprites_scanline();
    }

    /// Advance by `cycles` dots and return the IF bits to set: bit 0 for
    /// vertical blank, bit 1 for STAT.
    pub fn tick(&mut self, cycles: u32) -> (interrupts: u8)
        requires
            old(self)@.on_screen() || old(self)@.can_tick(cycles as nat),
        ensures
            old(self)@.on_screen() ==> final(self)@.on_screen(),
            final(self)@ == old(self)@.ticked(cycles as nat).0,
            interrupts == old(self)@.ticked(cycles as nat).1.bits(),
    {
        let ghost s = self@;
        proof {
            if s.on_screen() {
                laws::law_tick_stays_on_screen(s, cycles as nat);
            }
        }
        if (self.regs.lcdc & LCDC_LCD_ENABLE) == 0 {
            return 0;
        }
        let mut vblank: bool = false;
        let mut stat: bool = false;
        let mut done: u32 = 0;
        while done < cycles
            invariant
                done <= cycles,
                s.lcdc(LCDC_LCD_ENABLE),
                s.can_tick(cycles as nat),
                self@ == s.run(done as nat).0,
                (Raised { vblank, stat }) == s.run(done as nat).1,
            decreases cycles - done,
        {
            let entered: bool = self.advance();
            vblank = vblank || entered;
            if self.dots == HBLANK_START && self.regs.ly < VBLANK_LINE {
                self.compose();
            }
            let level: bool = self.compute_stat_line();
            stat = stat || (!self.stat_line && level);
            self.stat_line = level;
            done = done + 1;
        }
        if vblank && stat {
            3
        } else if stat {
            2
        } else if vblank {
            1
        } else {
            0
        }
    }

    /// [`Ppu::tick`] from any position: from one that is not on the screen,
    /// `None`, and nothing moves.
    pub fn try_tick(&mut self, cycles: u32) -> (r: Option<u8>)
        ensures
            r is Some <==> old(self)@.on_screen(),
            r matches Some(bits) ==> final(self)@ == old(self)@.ticked(cycles as nat).0 && bits
                == old(self)@.ticked(cycles as nat).1.bits() && final(self)@.on_screen(),
            r is None ==> final(self)@ == old(self)@,
    {
        let line_dots: u16 = if self.first_line_after_enable && self.regs.ly == 0 {
            FIRST_LINE_DOTS
        } else {
            LINE_DOTS
        };
        if self.dots < line_dots && self.regs.ly < FRAME_LINES && (!self.first_line_after_enable
            || self.regs.ly == 0) {
            Some(self.tick(cycles))
        } else {
            None
        }
    }

    /// The colour at (x, y) of the picture that the tile map at `map` lays out.
    fn map_color(&self, map: u16, x: u16, y: u16) -> (r: u8)
        requires
            map == 0x9800 || map == 0x9c00,
            x < 256,
            y < 256,
        ensures
            r == self@.map_color(map as int, x as int, y as int),
    {
        let tile: u8 = self.read_vram(map + y / 8 * 32 + x / 8);
        let tile_addr: u16 = if (self.regs.lcdc & LCDC_TILE_DATA) != 0 {
            0x8000 + tile as u16 * 16
        } else if tile < 0x80 {
            0x9000 + tile as u16 * 16
        } else {
            0x8000 + tile as u16 * 16
        };
        let row: u16 = tile_addr + y % 8 * 2;
        let lo: u8 = self.read_vram(row);
        let hi: u8 = self.read_vram(row + 1);
        plane_color(lo, hi, (x % 8) as u8)
    }

    /// Put a colour and its shade on column `x` of the current line.
    fn put(&mut self, x: usize, color: u8, shade: u8)
        requires
            x < WIDTH,
            old(self).regs.ly < VBLANK_LINE,
        ensures
            final(self)@ == (PpuState {
                pixels: old(self)@.pixels.update(old(self)@.line_start() + x, shade),
                under: old(self)@.under.update(x as int, color),
                ..old(self)@
            }),
    {
        self.framebuffer.set_pixel(x, self.regs.ly as usize, shade);
        self.bg_color_index[x] = color;
    }

    /// The colour and shade of the background at column `x` of this line.
    fn bg_at(&self, x: usize) -> (r: (u8, u8))
        requires
            x < WIDTH,
        ensures
            (Ink { color: r.0, shade: r.1 }) == self@.bg_ink(x as int),
    {
        if (self.regs.lcdc & LCDC_BG_ENABLE) == 0 {
            return (0, 0);
        }
        let map: u16 = if (self.regs.lcdc & LCDC_BG_TILE_MAP) != 0 {
            0x9c00
        } else {
            0x9800
        };
        let bg_x: u8 = (x as u8).wrapping_add(self.regs.scx);
        let bg_y: u8 = self.regs.ly.wrapping_add(self.regs.scy);
        let color: u8 = self.map_color(map, bg_x as u16, bg_y as u16);
        (color, palette_shade(self.regs.bgp, color))
    }

    fn render_bg_scanline(&mut self)
        requires
            old(self).regs.ly < VBLANK_LINE,
        ensures
            final(self)@ == old(self)@.with_bg(),
    {
        let ghost s = self@;
        let ghost ink = |x: int| Some(s.bg_ink(x));
        assert(self@ =~= s.painted(0, ink));
        let mut x: usize = 0;
        while x < WIDTH
            invariant
                x <= WIDTH,
                s.wf(),
                s.regs.ly < VBLANK_LINE,
                ink == |x: int| Some(s.bg_ink(x)),
                self@ == s.painted(x as int, ink),
            decreases WIDTH - x,
        {
            let (color, shade): (u8, u8) = self.bg_at(x);
            self.put(x, color, shade);
            proof {
                assert(ink(x as int) == Some(Ink { color, shade }));
                laws::lemma_paint_next(s, x as int, ink);
            }
            x = x + 1;
        }
    }

    /// Draw the window over the line. Returns whether it shows on it.
    fn render_window_scanline(&mut self) -> (drawn: bool)
        requires
            old(self).regs.ly < VBLANK_LINE,
        ensures
            final(self)@ == old(self)@.with_window(),
            drawn == old(self)@.window_visible(),
    {
        let ghost s = self@;
        let ghost ink = |x: int| s.window_ink(x);
        if (self.regs.lcdc & LCDC_BG_ENABLE) == 0 || (self.regs.lcdc & LCDC_WINDOW_ENABLE) == 0
            || self.regs.ly < self.regs.wy || self.regs.wx >= 167 {
            assert(self@ =~= s.painted(160, ink));
            return false;
        }
        assert(self@ =~= s.painted(0, ink));
        let map: u16 = if (self.regs.lcdc & LCDC_WINDOW_TILE_MAP) != 0 {
            0x9c00
        } else {
            0x9800
        };
        let mut x: usize = 0;
        while x < WIDTH
            invariant
                x <= WIDTH,
                s.wf(),
                s.regs.ly < VBLANK_LINE,
                s.window_visible(),
                ink == |x: int| s.window_ink(x),
                self@ == s.painted(x as int, ink),
                map == s.window_map(),
            decreases WIDTH - x,
        {
            if x + 7 >= self.regs.wx as usize {
                let column: u16 = (x + 7 - self.regs.wx as usize) as u16;
                let color: u8 = self.map_color(map, column, self.wly as u16);
                let shade: u8 = palette_shade(self.regs.bgp, color);
                self.put(x, color, shade);
                assert(ink(x as int) == Some(Ink { color, shade }));
            }
            proof {
                laws::lemma_paint_next(s, x as int, ink);
            }
            x = x + 1;
        }
        true
    }
}

impl Default for Ppu {
    fn default() -> (r: Self)
        ensures
            r@ == PpuState::reset(),
            r@.on_screen(),
    {
        Self::new()
    }
}

/// The memories of a PPU always have their sizes, and its picture too.
pub proof fn law_ppu_sizes(ppu: Ppu)
    ensures
        ppu@.wf(),
{
}

} // verus!
