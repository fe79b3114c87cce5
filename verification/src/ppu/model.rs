//! What the PPU does, dot by dot and pixel by pixel.
//!
//! Time is counted in dots, one per T-cycle. A line lasts 456 dots and a frame
//! 154 lines, the last ten of them vertical blank. A visible line is composed
//! in one go when its drawing ends (dot 252): the background, the window over
//! it, the sprites over both.

use super::mode::PpuMode;
use super::registers::Registers;
use vstd::prelude::*;

verus! {

pub const LCDC_LCD_ENABLE: u8 = 0x80;

/// Set: the window map is at 0x9C00; clear: at 0x9800.
pub const LCDC_WINDOW_TILE_MAP: u8 = 0x40;

pub const LCDC_WINDOW_ENABLE: u8 = 0x20;

/// Set: tile numbers count up from 0x8000; clear: they are signed, from 0x9000.
pub const LCDC_TILE_DATA: u8 = 0x10;

/// Set: the background map is at 0x9C00; clear: at 0x9800.
pub const LCDC_BG_TILE_MAP: u8 = 0x08;

/// Set: sprites are 8x16; clear: 8x8.
pub const LCDC_OBJ_SIZE: u8 = 0x04;

pub const LCDC_OBJ_ENABLE: u8 = 0x02;

pub const LCDC_BG_ENABLE: u8 = 0x01;

pub const STAT_INT_LYC: u8 = 0x40;

pub const STAT_INT_OAM: u8 = 0x20;

pub const STAT_INT_VBLANK: u8 = 0x10;

pub const STAT_INT_HBLANK: u8 = 0x08;

/// Set: background colours 1 to 3 cover the sprite.
pub const OAM_ATTR_PRIORITY: u8 = 0x80;

pub const OAM_ATTR_Y_FLIP: u8 = 0x40;

pub const OAM_ATTR_X_FLIP: u8 = 0x20;

/// Set: the sprite uses OBP1; clear: OBP0.
pub const OAM_ATTR_PALETTE: u8 = 0x10;

/// The dot at which OAM search ends and drawing begins.
pub const DRAWING_START: u16 = 80;

/// The dot at which drawing ends and horizontal blank begins.
pub const HBLANK_START: u16 = 252;

pub const LINE_DOTS: u16 = 456;

/// The first line after the LCD is switched on is shorter.
pub const FIRST_LINE_DOTS: u16 = 452;

pub const VBLANK_LINE: u8 = 144;

pub const FRAME_LINES: u8 = 154;

/// The PPU as contracts speak of it.
#[verifier::ext_equal]
pub struct PpuState {
    pub regs: Registers,
    /// 160 x 144 shades, row by row.
    pub pixels: Seq<u8>,
    pub vram: Seq<u8>,
    pub oam: Seq<u8>,
    pub mode: PpuMode,
    pub dots: u16,
    /// The level of the STAT interrupt line.
    pub stat_line: bool,
    /// The window's own line counter.
    pub wly: u8,
    /// Whether this is still the line on which the LCD was switched on.
    pub first_line: bool,
    /// The colour (0 to 3) of background or window under each pixel of the
    /// line composed last.
    pub under: Seq<u8>,
}

/// What a layer puts on a pixel: its colour number, and the shade that its
/// palette gives it.
pub struct Ink {
    pub color: u8,
    pub shade: u8,
}

/// The interrupts that a stretch of dots asked for.
pub struct Raised {
    pub vblank: bool,
    pub stat: bool,
}

impl Raised {
    pub open spec fn none() -> Raised {
        Raised { vblank: false, stat: false }
    }

    pub open spec fn or(self, other: Raised) -> Raised {
        Raised { vblank: self.vblank || other.vblank, stat: self.stat || other.stat }
    }

    /// As bits of IF.
    pub open spec fn bits(self) -> u8 {
        if self.vblank && self.stat {
            3
        } else if self.stat {
            2
        } else if self.vblank {
            1
        } else {
            0
        }
    }
}

/// The shade that a palette register gives to a colour.
pub open spec fn shade_of(palette: u8, color: u8) -> u8 {
    if color == 0 {
        palette % 4
    } else if color == 1 {
        (palette / 4) % 4
    } else if color == 2 {
        (palette / 16) % 4
    } else {
        palette / 64
    }
}

/// The colour of column `x` of a tile row whose two bit planes are `lo` and
/// `hi`; column 0 is the leftmost and the topmost bit.
pub open spec fn color_of(lo: u8, hi: u8, x: int) -> u8 {
    (((hi >> (7 - x) as u8) & 1) * 2 + ((lo >> (7 - x) as u8) & 1)) as u8
}

impl PpuState {
    pub open spec fn reset() -> PpuState {
        PpuState {
            regs: Registers::reset(),
            pixels: Seq::new(23040, |i: int| 0u8),
            vram: Seq::new(0x2000, |i: int| 0u8),
            oam: Seq::new(0xa0, |i: int| 0u8),
            mode: PpuMode::OamSearch,
            dots: 0,
            stat_line: false,
            wly: 0,
            first_line: false,
            under: Seq::new(160, |i: int| 0u8),
        }
    }

    /// That the memories have their sizes.
    pub open spec fn wf(self) -> bool {
        &&& self.pixels.len() == 23040
        &&& self.vram.len() == 0x2000
        &&& self.oam.len() == 0xa0
        &&& self.under.len() == 160
    }

    pub open spec fn lcdc(self, mask: u8) -> bool {
        self.regs.lcdc & mask != 0
    }

    // ----- registers -----

    /// That the selects of STAT are among its four writable bits.
    pub open spec fn selects_masked(self) -> bool {
        self.regs.stat_select == self.regs.stat_select & 0x78
    }

    pub open spec fn stat(self) -> u8 {
        let coincidence = if self.regs.ly == self.regs.lyc {
            4u8
        } else {
            0u8
        };
        0x80u8 | self.regs.stat_select | coincidence | self.mode.code()
    }

    pub open spec fn read(self, addr: u16) -> u8 {
        if addr == 0xff40 {
            self.regs.lcdc
        } else if addr == 0xff41 {
            self.stat()
        } else if addr == 0xff42 {
            self.regs.scy
        } else if addr == 0xff43 {
            self.regs.scx
        } else if addr == 0xff44 {
            self.regs.ly
        } else if addr == 0xff45 {
            self.regs.lyc
        } else if addr == 0xff47 {
            self.regs.bgp
        } else if addr == 0xff48 {
            self.regs.obp0
        } else if addr == 0xff49 {
            self.regs.obp1
        } else if addr == 0xff4a {
            self.regs.wy
        } else {
            self.regs.wx
        }
    }

    /// Back to the top left corner, with the STAT line low.
    pub open spec fn restarted(self, first_line: bool) -> PpuState {
        PpuState {
            regs: Registers { ly: 0, ..self.regs },
            dots: 0,
            mode: PpuMode::HBlank,
            stat_line: false,
            wly: 0,
            first_line,
            ..self
        }
    }

    /// A write to LCDC. Switching the LCD off or on restarts the PPU.
    pub open spec fn with_lcdc(self, value: u8) -> PpuState {
        let s = PpuState { regs: Registers { lcdc: value, ..self.regs }, ..self };
        if self.lcdc(LCDC_LCD_ENABLE) == s.lcdc(LCDC_LCD_ENABLE) {
            s
        } else {
            s.restarted(s.lcdc(LCDC_LCD_ENABLE))
        }
    }

    pub open spec fn write(self, addr: u16, value: u8) -> PpuState {
        if addr == 0xff40 {
            self.with_lcdc(value)
        } else {
            PpuState {
                regs: if addr == 0xff41 {
                    Registers { stat_select: value & 0x78, ..self.regs }
                } else if addr == 0xff42 {
                    Registers { scy: value, ..self.regs }
                } else if addr == 0xff43 {
                    Registers { scx: value, ..self.regs }
                } else if addr == 0xff44 {
                    // Any write to LY clears it.
                    Registers { ly: 0, ..self.regs }
                } else if addr == 0xff45 {
                    Registers { lyc: value, ..self.regs }
                } else if addr == 0xff47 {
                    Registers { bgp: value, ..self.regs }
                } else if addr == 0xff48 {
                    Registers { obp0: value, ..self.regs }
                } else if addr == 0xff49 {
                    Registers { obp1: value, ..self.regs }
                } else if addr == 0xff4a {
                    Registers { wy: value, ..self.regs }
                } else {
                    Registers { wx: value, ..self.regs }
                },
                ..self
            }
        }
    }

    /// The row of OAM that is being searched, while the LCD is on and OAM
    /// search lasts.
    pub open spec fn oam_row(self) -> Option<int> {
        if self.lcdc(LCDC_LCD_ENABLE) && self.regs.ly < VBLANK_LINE && self.dots < DRAWING_START {
            Some(self.dots as int / 4)
        } else {
            None
        }
    }

    // ----- time -----

    pub open spec fn line_dots(self) -> u16 {
        if self.first_line && self.regs.ly == 0 {
            FIRST_LINE_DOTS
        } else {
            LINE_DOTS
        }
    }

    /// The mode at a given line and dot.
    pub open spec fn mode_at(ly: u8, dots: u16) -> PpuMode {
        if ly >= VBLANK_LINE {
            PpuMode::VBlank
        } else if dots < DRAWING_START {
            PpuMode::OamSearch
        } else if dots < HBLANK_START {
            PpuMode::Drawing
        } else {
            PpuMode::HBlank
        }
    }

    pub open spec fn at_line_end(self) -> bool {
        self.dots + 1 == self.line_dots()
    }

    /// The next dot: further along the line, or at the start of the next.
    pub open spec fn moved(self) -> PpuState {
        let s = if self.at_line_end() {
            if self.regs.ly + 1 == FRAME_LINES {
                PpuState {
                    regs: Registers { ly: 0, ..self.regs },
                    wly: 0,
                    dots: 0,
                    first_line: false,
                    ..self
                }
            } else {
                PpuState {
                    regs: Registers { ly: (self.regs.ly + 1) as u8, ..self.regs },
                    dots: 0,
                    first_line: false,
                    ..self
                }
            }
        } else {
            PpuState { dots: (self.dots + 1) as u16, ..self }
        };
        PpuState { mode: Self::mode_at(s.regs.ly, s.dots), ..s }
    }

    /// The level of the STAT line: whether any enabled source is active.
    pub open spec fn stat_signal(self) -> bool {
        let select = self.regs.stat_select;
        ||| select & STAT_INT_LYC != 0 && self.regs.ly == self.regs.lyc
        ||| select & STAT_INT_HBLANK != 0 && self.mode == PpuMode::HBlank
        ||| select & STAT_INT_VBLANK != 0 && self.mode == PpuMode::VBlank
        ||| select & STAT_INT_OAM != 0 && self.mode == PpuMode::OamSearch
    }

    /// One dot with the LCD on. The vertical blank interrupt comes on entering
    /// line 144, the STAT interrupt on a rising edge of its line.
    pub open spec fn dot(self) -> (PpuState, Raised) {
        let m = self.moved();
        let r = if m.dots == HBLANK_START && m.regs.ly < VBLANK_LINE {
            m.composed()
        } else {
            m
        };
        (
            PpuState { stat_line: r.stat_signal(), ..r },
            Raised {
                vblank: self.at_line_end() && m.regs.ly == VBLANK_LINE,
                stat: !self.stat_line && r.stat_signal(),
            },
        )
    }

    /// `n` dots with the LCD on.
    pub open spec fn run(self, n: nat) -> (PpuState, Raised)
        decreases n,
    {
        if n == 0 {
            (self, Raised::none())
        } else {
            let (s, before) = self.run((n - 1) as nat);
            let (t, now) = s.dot();
            (t, before.or(now))
        }
    }

    /// `n` dots: with the LCD off nothing happens.
    pub open spec fn ticked(self, n: nat) -> (PpuState, Raised) {
        if self.lcdc(LCDC_LCD_ENABLE) {
            self.run(n)
        } else {
            (self, Raised::none())
        }
    }

    /// That the next dot does not run the counters over. Positions that the
    /// PPU itself reaches always have this.
    pub open spec fn can_move(self) -> bool {
        self.dots < 0xffff && (self.at_line_end() ==> self.regs.ly < 0xff)
    }

    pub open spec fn can_tick(self, n: nat) -> bool {
        self.lcdc(LCDC_LCD_ENABLE) ==> forall|k: nat| k < n ==> (#[trigger] self.run(k)).0.can_move()
    }

    /// A position on the screen: within a line, and within the frame.
    pub open spec fn on_screen(self) -> bool {
        self.dots < self.line_dots() && self.regs.ly < FRAME_LINES && (self.first_line
            ==> self.regs.ly == 0)
    }

    // ----- the line that is being composed -----

    pub open spec fn vram_at(self, addr: int) -> u8 {
        self.vram[addr - 0x8000]
    }

    /// Where the rows of a background or window tile start.
    pub open spec fn tile_addr(self, tile: u8) -> int {
        if self.lcdc(LCDC_TILE_DATA) {
            0x8000 + tile * 16
        } else if tile < 0x80 {
            0x9000 + tile * 16
        } else {
            0x9000 + (tile - 0x100) * 16
        }
    }

    /// The colour at (x, y) of the 256 x 256 picture that a tile map at `map`
    /// lays out.
    pub open spec fn map_color(self, map: int, x: int, y: int) -> u8 {
        let tile = self.vram_at(map + y / 8 * 32 + x / 8);
        let row = self.tile_addr(tile) + y % 8 * 2;
        color_of(self.vram_at(row), self.vram_at(row + 1), x % 8)
    }

    pub open spec fn bg_map(self) -> int {
        if self.lcdc(LCDC_BG_TILE_MAP) {
            0x9c00
        } else {
            0x9800
        }
    }

    pub open spec fn window_map(self) -> int {
        if self.lcdc(LCDC_WINDOW_TILE_MAP) {
            0x9c00
        } else {
            0x9800
        }
    }

    /// What the background puts at column `x` of the line: the scrolled map,
    /// or blank where the background is off.
    pub open spec fn bg_ink(self, x: int) -> Ink {
        if self.lcdc(LCDC_BG_ENABLE) {
            let color = self.map_color(
                self.bg_map(),
                (x + self.regs.scx) % 256,
                (self.regs.ly + self.regs.scy) % 256,
            );
            Ink { color, shade: shade_of(self.regs.bgp, color) }
        } else {
            Ink { color: 0, shade: 0 }
        }
    }

    /// Whether the window shows on this line. The background switch turns it
    /// off as well.
    pub open spec fn window_visible(self) -> bool {
        &&& self.lcdc(LCDC_BG_ENABLE)
        &&& self.lcdc(LCDC_WINDOW_ENABLE)
        &&& self.regs.wy <= self.regs.ly
        &&& self.regs.wx < 167
    }

    /// What the window puts at column `x`: nothing to the left of WX - 7.
    pub open spec fn window_ink(self, x: int) -> Option<Ink> {
        if self.window_visible() && x >= self.regs.wx - 7 {
            let color = self.map_color(
                self.window_map(),
                x - (self.regs.wx - 7),
                self.wly as int,
            );
            Some(Ink { color, shade: shade_of(self.regs.bgp, color) })
        } else {
            None
        }
    }

    pub open spec fn line_start(self) -> int {
        self.regs.ly * 160
    }

    /// The first `n` pixels of the line painted with the inks that there are.
    pub open spec fn painted(self, n: int, ink: spec_fn(int) -> Option<Ink>) -> PpuState {
        PpuState {
            pixels: Seq::new(
                self.pixels.len(),
                |i: int|
                    if self.line_start() <= i < self.line_start() + n && ink(
                        i - self.line_start(),
                    ) is Some {
                        ink(i - self.line_start())->Some_0.shade
                    } else {
                        self.pixels[i]
                    },
            ),
            under: Seq::new(
                self.under.len(),
                |x: int|
                    if x < n && ink(x) is Some {
                        ink(x)->Some_0.color
                    } else {
                        self.under[x]
                    },
            ),
            ..self
        }
    }

    pub open spec fn with_bg(self) -> PpuState {
        self.painted(160, |x: int| Some(self.bg_ink(x)))
    }

    pub open spec fn with_window(self) -> PpuState {
        self.painted(160, |x: int| self.window_ink(x))
    }

    // ----- sprites -----

    pub open spec fn sprite_height(self) -> int {
        if self.lcdc(LCDC_OBJ_SIZE) {
            16
        } else {
            8
        }
    }

    /// The screen position of OAM entry `i`.
    pub open spec fn sprite_y(self, i: int) -> int {
        self.oam[i * 4] - 16
    }

    pub open spec fn sprite_x(self, i: int) -> int {
        self.oam[i * 4 + 1] - 8
    }

    pub open spec fn attr(self, i: int, mask: u8) -> bool {
        self.oam[i * 4 + 3] & mask != 0
    }

    /// Whether entry `i` crosses this line.
    pub open spec fn on_line(self, i: int) -> bool {
        self.sprite_y(i) <= self.regs.ly < self.sprite_y(i) + self.sprite_height()
    }

    /// How many of the first `n` entries cross this line.
    pub open spec fn on_line_before(self, n: int) -> int
        decreases n,
    {
        if n <= 0 {
            0
        } else {
            self.on_line_before(n - 1) + (if self.on_line(n - 1) {
                1int
            } else {
                0
            })
        }
    }

    /// Only the first ten entries that cross a line are drawn.
    pub open spec fn selected(self, i: int) -> bool {
        0 <= i < 40 && self.on_line(i) && self.on_line_before(i) < 10
    }

    /// The row of the sprite (0 to 7 or 0 to 15) that falls on this line.
    pub open spec fn sprite_row(self, i: int) -> int {
        let row = self.regs.ly - self.sprite_y(i);
        if self.attr(i, OAM_ATTR_Y_FLIP) {
            self.sprite_height() - 1 - row
        } else {
            row
        }
    }

    /// The tile for that row. A tall sprite takes an even tile and the one
    /// after it, whatever bit 0 of its tile number says.
    pub open spec fn sprite_tile(self, i: int) -> int {
        let tile = self.oam[i * 4 + 2];
        if self.lcdc(LCDC_OBJ_SIZE) {
            tile - tile % 2 + self.sprite_row(i) / 8
        } else {
            tile as int
        }
    }

    /// The colour of sprite `i` at column `x` of the screen. Sprite tiles
    /// always count from 0x8000.
    pub open spec fn sprite_color(self, i: int, x: int) -> u8 {
        let row = 0x8000 + self.sprite_tile(i) * 16 + self.sprite_row(i) % 8 * 2;
        let col = x - self.sprite_x(i);
        color_of(
            self.vram_at(row),
            self.vram_at(row + 1),
            if self.attr(i, OAM_ATTR_X_FLIP) {
                7 - col
            } else {
                col
            },
        )
    }

    pub open spec fn sprite_shade(self, i: int, x: int) -> u8 {
        shade_of(
            if self.attr(i, OAM_ATTR_PALETTE) {
                self.regs.obp1
            } else {
                self.regs.obp0
            },
            self.sprite_color(i, x),
        )
    }

    /// Whether sprite `i` would show at column `x` if it were alone: it covers
    /// the column, its colour is not the transparent 0, and it does not yield
    /// to the background there.
    pub open spec fn opaque_at(self, i: int, x: int) -> bool {
        &&& self.sprite_x(i) <= x < self.sprite_x(i) + 8
        &&& self.sprite_color(i, x) != 0
        &&& !(self.attr(i, OAM_ATTR_PRIORITY) && self.under[x] != 0)
    }

    /// Whether sprite `i` is in front of sprite `j`: further left, or as far
    /// left and earlier in OAM.
    pub open spec fn in_front(self, i: int, j: int) -> bool {
        self.sprite_x(i) < self.sprite_x(j) || (self.sprite_x(i) == self.sprite_x(j) && i < j)
    }

    /// That `i` is the sprite that shows at column `x`: the frontmost of those
    /// drawn on this line that are opaque there.
    pub open spec fn shows(self, i: int, x: int) -> bool {
        &&& self.selected(i)
        &&& self.opaque_at(i, x)
        &&& forall|j: int|
            self.selected(j) && #[trigger] self.opaque_at(j, x) && j != i ==> self.in_front(i, j)
    }

    /// What the line shows at column `x` with the sprites on it.
    pub open spec fn sprite_pixel(self, x: int) -> u8 {
        if exists|i: int| self.shows(i, x) {
            self.sprite_shade(choose|i: int| self.shows(i, x), x)
        } else {
            self.pixels[self.line_start() + x]
        }
    }

    pub open spec fn with_sprites(self) -> PpuState {
        if self.lcdc(LCDC_OBJ_ENABLE) {
            PpuState {
                pixels: Seq::new(
                    self.pixels.len(),
                    |i: int|
                        if self.line_start() <= i < self.line_start() + 160 {
                            self.sprite_pixel(i - self.line_start())
                        } else {
                            self.pixels[i]
                        },
                ),
                ..self
            }
        } else {
            self
        }
    }

    /// The line composed. The window's line counter moves on where the window
    /// showed.
    pub open spec fn composed(self) -> PpuState {
        let s = self.with_bg().with_window();
        let t = if s.window_visible() {
            PpuState { wly: ((s.wly + 1) % 256) as u8, ..s }
        } else {
            s
        };
        t.with_sprites()
    }
}

} // verus!
