//! What follows for the picture and its timing.

use super::mode::PpuMode;
use super::model::{
    Ink, PpuState, Raised, FIRST_LINE_DOTS, FRAME_LINES, HBLANK_START, LCDC_BG_ENABLE,
    LCDC_LCD_ENABLE, LCDC_OBJ_ENABLE, LINE_DOTS, VBLANK_LINE,
};
use super::registers::Registers;
use vstd::prelude::*;

verus! {

/// Painting one more column: an update where there is an ink, nothing where
/// there is none.
pub proof fn lemma_paint_next(s: PpuState, x: int, ink: spec_fn(int) -> Option<Ink>)
    requires
        s.wf(),
        s.regs.ly < 144,
        0 <= x < 160,
    ensures
        ink(x) matches Some(i) ==> s.painted(x + 1, ink) == (PpuState {
            pixels: s.painted(x, ink).pixels.update(s.line_start() + x, i.shade),
            under: s.painted(x, ink).under.update(x, i.color),
            ..s.painted(x, ink)
        }),
        ink(x) is None ==> s.painted(x + 1, ink) == s.painted(x, ink),
{
    if let Some(i) = ink(x) {
        assert(s.painted(x + 1, ink) =~= (PpuState {
            pixels: s.painted(x, ink).pixels.update(s.line_start() + x, i.shade),
            under: s.painted(x, ink).under.update(x, i.color),
            ..s.painted(x, ink)
        }));
    } else {
        assert(s.painted(x + 1, ink) =~= s.painted(x, ink));
    }
}

// ----- time -----

/// One dot keeps the position on the screen, and moves nothing but the
/// position, the mode, the STAT line, the picture and the window's line.
proof fn lemma_dot(s: PpuState)
    requires
        s.on_screen(),
    ensures
        s.can_move(),
        s.dot().0.on_screen(),
        s.wf() ==> s.dot().0.wf(),
        s.dot().0.regs.lcdc == s.regs.lcdc,
        s.dot().0.vram == s.vram,
        s.dot().0.oam == s.oam,
{
}

proof fn lemma_run(s: PpuState, n: nat)
    requires
        s.on_screen(),
    ensures
        s.run(n).0.on_screen(),
        s.wf() ==> s.run(n).0.wf(),
        s.run(n).0.regs.lcdc == s.regs.lcdc,
        s.run(n).0.vram == s.vram,
        s.run(n).0.oam == s.oam,
    decreases n,
{
    if n > 0 {
        lemma_run(s, (n - 1) as nat);
        lemma_dot(s.run((n - 1) as nat).0);
    }
}

/// A PPU on the screen stays on it, and any number of dots can be run.
pub proof fn law_tick_stays_on_screen(s: PpuState, n: nat)
    requires
        s.on_screen(),
    ensures
        s.can_tick(n),
        s.ticked(n).0.on_screen(),
{
    lemma_run(s, n);
    assert forall|k: nat| k < n implies (#[trigger] s.run(k)).0.can_move() by {
        lemma_run(s, k);
        lemma_dot(s.run(k).0);
    }
}

/// A new PPU is on the screen, and no register write takes it off.
pub proof fn law_writes_stay_on_screen(s: PpuState, addr: u16, value: u8)
    requires
        s.on_screen(),
    ensures
        PpuState::reset().on_screen(),
        s.write(addr, value).on_screen(),
{
}

/// Ticking keeps the sizes of the memories and of the picture.
pub proof fn law_tick_keeps_sizes(s: PpuState, n: nat)
    requires
        s.on_screen(),
        s.wf(),
    ensures
        s.ticked(n).0.wf(),
{
    lemma_run(s, n);
}

/// Ticking never touches VRAM or OAM, nor any register but LY.
pub proof fn law_tick_keeps_memory(s: PpuState, n: nat)
    ensures
        s.ticked(n).0.vram == s.vram,
        s.ticked(n).0.oam == s.oam,
        s.ticked(n).0.regs == (Registers { ly: s.ticked(n).0.regs.ly, ..s.regs }),
    decreases n,
{
    if n > 0 {
        law_tick_keeps_memory(s, (n - 1) as nat);
    }
}

/// Ticking twice is ticking by the sum: how a stretch of time is cut up makes
/// no difference to the PPU, and no interrupt is lost or made up.
pub proof fn law_ticks_add(s: PpuState, a: nat, b: nat)
    requires
        s.on_screen(),
    ensures
        s.ticked(a + b).0 == s.ticked(a).0.ticked(b).0,
        s.ticked(a + b).1 == s.ticked(a).1.or(s.ticked(a).0.ticked(b).1),
    decreases b,
{
    lemma_run(s, a);
    if b > 0 {
        law_ticks_add(s, a, (b - 1) as nat);
        assert(a + b - 1 == (a + (b - 1) as nat));
    }
}

/// With the LCD off no time passes for the PPU.
pub proof fn law_lcd_off_is_still(s: PpuState, n: nat)
    requires
        !s.lcdc(LCDC_LCD_ENABLE),
    ensures
        s.ticked(n) == (s, Raised::none()),
{
}

/// Switching the LCD off puts LY, the window's line and the STAT line to zero,
/// and keeps the picture.
pub proof fn law_switching_restarts(s: PpuState, value: u8)
    requires
        s.lcdc(LCDC_LCD_ENABLE) != (value & LCDC_LCD_ENABLE != 0),
    ensures
        s.write(0xff40, value).regs.ly == 0,
        s.write(0xff40, value).dots == 0,
        s.write(0xff40, value).wly == 0,
        !s.write(0xff40, value).stat_line,
        s.write(0xff40, value).mode == PpuMode::HBlank,
        s.write(0xff40, value).first_line == (value & LCDC_LCD_ENABLE != 0),
        s.write(0xff40, value).pixels == s.pixels,
{
}

/// How many dots into a frame the PPU is.
pub open spec fn position(s: PpuState) -> int {
    s.regs.ly * LINE_DOTS + s.dots
}

/// The dots of a frame.
pub open spec fn frame_dots() -> int {
    FRAME_LINES * LINE_DOTS
}

proof fn lemma_step_position(s: PpuState)
    requires
        s.on_screen(),
        !s.first_line,
    ensures
        !s.dot().0.first_line,
        position(s.dot().0) == (position(s) + 1) % frame_dots(),
        s.dot().1.vblank <==> position(s.dot().0) == VBLANK_LINE * LINE_DOTS,
{
    assert(frame_dots() == 70224);
    if s.at_line_end() && s.regs.ly + 1 == FRAME_LINES {
        assert(position(s) + 1 == 70224);
    } else {
        assert(0 <= position(s) + 1 < 70224);
    }
}

/// A frame is 154 lines of 456 dots, over and over.
pub proof fn law_frame_position(s: PpuState, n: nat)
    requires
        s.on_screen(),
        !s.first_line,
        s.lcdc(LCDC_LCD_ENABLE),
    ensures
        !s.ticked(n).0.first_line,
        position(s.ticked(n).0) == (position(s) + n) % frame_dots(),
    decreases n,
{
    lemma_run(s, n);
    if n == 0 {
        assert(position(s) < frame_dots());
    } else {
        let k = (n - 1) as nat;
        law_frame_position(s, k);
        lemma_run(s, k);
        lemma_step_position(s.run(k).0);
        assert((position(s) + k) % 70224 + 1 == (position(s) + n) % 70224 || ((position(s) + k)
            % 70224 + 1 == 70224 && (position(s) + n) % 70224 == 0));
    }
}

/// The dot after `k` others raises the vertical blank interrupt just where it
/// enters line 144: once in a frame.
pub proof fn law_one_vblank_per_frame(s: PpuState, k: nat)
    requires
        s.on_screen(),
        !s.first_line,
        s.lcdc(LCDC_LCD_ENABLE),
    ensures
        s.ticked(k).0.ticked(1).1.vblank <==> (position(s) + k + 1) % frame_dots() == VBLANK_LINE
            * LINE_DOTS,
{
    lemma_run(s, k);
    law_frame_position(s, k);
    law_frame_position(s, k + 1);
    let t = s.run(k).0;
    lemma_step_position(t);
    assert(t.run(0) == (t, Raised::none()));
    assert(t.run(1).1 == Raised::none().or(t.dot().1));
}

proof fn lemma_first_line(s: PpuState, n: nat)
    requires
        s.on_screen(),
        s.first_line,
        s.dots + n < FIRST_LINE_DOTS,
    ensures
        s.run(n).0.on_screen(),
        s.run(n).0.first_line,
        s.run(n).0.dots == s.dots + n,
        s.run(n).0.regs.ly == 0,
    decreases n,
{
    if n > 0 {
        lemma_first_line(s, (n - 1) as nat);
    }
}

/// The first line after the LCD is switched on is four dots shorter than the
/// others.
pub proof fn law_first_line_is_shorter(s: PpuState, value: u8, n: nat)
    requires
        !s.lcdc(LCDC_LCD_ENABLE),
        value & LCDC_LCD_ENABLE != 0,
        n <= FIRST_LINE_DOTS,
    ensures
        s.write(0xff40, value).ticked(n).0.regs.ly == (if n < FIRST_LINE_DOTS {
            0u8
        } else {
            1u8
        }),
        n == FIRST_LINE_DOTS ==> s.write(0xff40, value).ticked(n).0.dots == 0,
        FIRST_LINE_DOTS + 4 == LINE_DOTS,
{
    let t = s.write(0xff40, value);
    if n < FIRST_LINE_DOTS {
        lemma_first_line(t, n);
    } else {
        lemma_first_line(t, (n - 1) as nat);
    }
}

/// After any dot the mode is the one that goes with the position: 80 dots of
/// OAM search, 172 of drawing, the rest horizontal blank; ten lines of
/// vertical blank.
pub proof fn law_mode_follows_position(s: PpuState, n: nat)
    requires
        s.on_screen(),
        s.lcdc(LCDC_LCD_ENABLE),
        n > 0,
    ensures
        s.ticked(n).0.mode == PpuState::mode_at(s.ticked(n).0.regs.ly, s.ticked(n).0.dots),
{
    lemma_run(s, (n - 1) as nat);
}

/// STAT is asked for on the dot that raises its line, and not again while the
/// line stays high.
pub proof fn law_stat_fires_on_rising_edge(s: PpuState)
    requires
        s.on_screen(),
    ensures
        s.dot().0.stat_line == s.dot().0.stat_signal(),
        s.dot().1.stat <==> !s.stat_line && s.dot().0.stat_line,
        s.dot().1.stat ==> !s.dot().0.dot().1.stat,
{
}

// ----- registers -----

/// The selects of STAT are never more than its four writable bits: so it is at
/// first, and no write and no dot changes it.
pub proof fn law_stat_selects_stay_masked(s: PpuState, addr: u16, value: u8, n: nat)
    requires
        s.selects_masked(),
    ensures
        PpuState::reset().selects_masked(),
        s.write(addr, value).selects_masked(),
        s.ticked(n).0.selects_masked(),
{
    law_tick_keeps_memory(s, n);
    assert(value & 0x78 == (value & 0x78) & 0x78) by (bit_vector);
    assert(0u8 & 0x78 == 0) by (bit_vector);
}

/// STAT keeps the four interrupt selects that were written. Bit 7 reads 1,
/// bit 2 tells whether LY matches LYC, and bits 0 and 1 are the mode.
pub proof fn law_stat_reads(s: PpuState, value: u8)
    requires
        s.selects_masked(),
    ensures
        s.read(0xff41) & 0x80 == 0x80,
        s.read(0xff41) & 0x04 != 0 <==> s.regs.ly == s.regs.lyc,
        s.read(0xff41) & 0x03 == s.mode.code(),
        s.read(0xff41) & 0x78 == s.regs.stat_select,
        s.write(0xff41, value).read(0xff41) & 0x78 == value & 0x78,
{
    let coincidence = if s.regs.ly == s.regs.lyc {
        4u8
    } else {
        0u8
    };
    crate::bits::lemma_stat_fields(s.regs.stat_select, coincidence, s.mode.code());
    assert(value & 0x78 == (value & 0x78) & 0x78) by (bit_vector);
    crate::bits::lemma_stat_fields(value & 0x78, coincidence, s.mode.code());
}

/// Every other register reads back what was written, but LY, which a write
/// clears.
pub proof fn law_registers_read_back(s: PpuState, addr: u16, value: u8)
    requires
        0xff40 <= addr <= 0xff4b,
        addr != 0xff41,
        addr != 0xff46,
    ensures
        s.write(addr, value).read(addr) == (if addr == 0xff44 {
            0
        } else {
            value
        }),
{
}

// ----- the picture -----

/// The picture changes on no dot but the one that ends the drawing of a
/// visible line, and then on that line alone. So a register write shows on a
/// line if it comes before that dot.
pub proof fn law_painted_at_end_of_drawing(s: PpuState, p: int)
    requires
        s.on_screen(),
        s.wf(),
        0 <= p < 23040,
        s.dot().0.pixels[p] != s.pixels[p],
    ensures
        s.moved().dots == HBLANK_START,
        s.regs.ly < VBLANK_LINE,
        s.regs.ly * 160 <= p < s.regs.ly * 160 + 160,
{
    law_composed_line(s.moved(), p);
}

/// The composed line: at each column the sprite that shows there, else the
/// window, else the background. Other lines keep their pixels.
pub proof fn law_composed_line(s: PpuState, p: int)
    requires
        s.wf(),
        s.regs.ly < VBLANK_LINE,
        0 <= p < 23040,
    ensures
        s.composed().pixels.len() == 23040,
        !(s.line_start() <= p < s.line_start() + 160) ==> s.composed().pixels[p] == s.pixels[p],
        s.line_start() <= p < s.line_start() + 160 ==> ({
            let x = p - s.line_start();
            let layers = s.with_bg().with_window();
            s.composed().pixels[p] == (if s.lcdc(LCDC_OBJ_ENABLE) && exists|i: int|
                layers.shows(i, x) {
                layers.sprite_shade(choose|i: int| layers.shows(i, x), x)
            } else {
                match s.window_ink(x) {
                    Some(ink) => ink.shade,
                    None => s.bg_ink(x).shade,
                }
            })
        }),
{
    let layers = s.with_bg().with_window();
    let x = p - s.line_start();
    assert(s.with_bg().window_ink(x) == s.window_ink(x));
    lemma_same_sprite_pixel(layers, counted(layers), x);
}

/// The layers under the sprites, with the window's line counted.
spec fn counted(layers: PpuState) -> PpuState {
    if layers.window_visible() {
        PpuState { wly: ((layers.wly + 1) % 256) as u8, ..layers }
    } else {
        layers
    }
}

/// That two states agree in what sprites depend on.
spec fn same_sprites(s: PpuState, t: PpuState) -> bool {
    s.regs == t.regs && s.vram == t.vram && s.oam == t.oam && s.under == t.under
}

proof fn lemma_same_count(s: PpuState, t: PpuState, n: int)
    requires
        same_sprites(s, t),
    ensures
        s.on_line_before(n) == t.on_line_before(n),
    decreases n,
{
    if n > 0 {
        lemma_same_count(s, t, n - 1);
    }
}

proof fn lemma_same_shows(s: PpuState, t: PpuState, i: int, x: int)
    requires
        same_sprites(s, t),
        s.shows(i, x),
    ensures
        t.shows(i, x),
{
    lemma_same_count(s, t, i);
    assert(t.opaque_at(i, x) == s.opaque_at(i, x));
    assert forall|j: int| t.selected(j) && #[trigger] t.opaque_at(j, x) && j != i implies t.in_front(
        i,
        j,
    ) by {
        lemma_same_count(s, t, j);
        assert(s.selected(j) && s.opaque_at(j, x));
    }
}

proof fn lemma_same_sprite_pixel(s: PpuState, t: PpuState, x: int)
    requires
        same_sprites(s, t),
        s.pixels == t.pixels,
    ensures
        s.sprite_pixel(x) == t.sprite_pixel(x),
{
    if exists|i: int| s.shows(i, x) {
        let i = choose|i: int| s.shows(i, x);
        lemma_same_shows(s, t, i, x);
        let j = choose|j: int| t.shows(j, x);
        law_front_sprite(t, i, j, x);
        assert(s.sprite_shade(i, x) == t.sprite_shade(i, x));
    } else if exists|i: int| t.shows(i, x) {
        let i = choose|i: int| t.shows(i, x);
        lemma_same_shows(t, s, i, x);
    }
}

/// That two states agree in what a composed line depends on: all but the dot,
/// the mode, the STAT line and whether this is the first line.
spec fn same_line(s: PpuState, t: PpuState) -> bool {
    same_sprites(s, t) && s.pixels == t.pixels && s.wly == t.wly
}

proof fn lemma_same_composed(s: PpuState, t: PpuState)
    requires
        s.wf(),
        t.wf(),
        same_line(s, t),
        s.regs.ly < VBLANK_LINE,
    ensures
        s.composed().pixels == t.composed().pixels,
{
    let s1 = s.with_bg();
    let t1 = t.with_bg();
    assert forall|x: int| #[trigger] s.bg_ink(x) == t.bg_ink(x) by {
    }
    assert(s1.pixels =~= t1.pixels && s1.under =~= t1.under);
    let s2 = s1.with_window();
    let t2 = t1.with_window();
    assert forall|x: int| #[trigger] s1.window_ink(x) == t1.window_ink(x) by {
    }
    assert(s2.pixels =~= t2.pixels && s2.under =~= t2.under);
    assert forall|x: int| #[trigger] counted(s2).sprite_pixel(x) == counted(t2).sprite_pixel(x) by {
        lemma_same_sprite_pixel(counted(s2), counted(t2), x);
    }
    assert(s.composed().pixels =~= t.composed().pixels);
}

/// Up to the end of drawing the dots of a line change nothing that the line is
/// composed from.
proof fn lemma_before_end_of_drawing(s: PpuState, n: nat)
    requires
        s.on_screen(),
        s.regs.ly < VBLANK_LINE,
        s.dots + n < HBLANK_START,
    ensures
        s.run(n).0.on_screen(),
        s.run(n).0.dots == s.dots + n,
        s.run(n).0.first_line == s.first_line,
        same_line(s, s.run(n).0),
    decreases n,
{
    if n > 0 {
        lemma_before_end_of_drawing(s, (n - 1) as nat);
    }
}

/// A line shows the registers, VRAM and OAM as they are when its drawing ends:
/// ticked on to there from any dot before, the picture is the one that they
/// compose now.
pub proof fn law_line_shows_registers_at_end_of_drawing(s: PpuState)
    requires
        s.wf(),
        s.on_screen(),
        s.lcdc(LCDC_LCD_ENABLE),
        s.regs.ly < VBLANK_LINE,
        s.dots < HBLANK_START,
    ensures
        s.ticked((HBLANK_START - s.dots) as nat).0.pixels == s.composed().pixels,
{
    let before = (HBLANK_START - s.dots - 1) as nat;
    lemma_before_end_of_drawing(s, before);
    lemma_run(s, before);
    let t = s.run(before).0;
    lemma_same_composed(s, t.moved());
}

proof fn lemma_rest_of_line(s: PpuState, n: nat)
    requires
        s.on_screen(),
        s.regs.ly < VBLANK_LINE,
        HBLANK_START <= s.dots,
        s.dots + n <= s.line_dots(),
    ensures
        s.run(n).0.pixels == s.pixels,
        s.dots + n < s.line_dots() ==> s.run(n).0.dots == s.dots + n && s.run(n).0.regs.ly == s.regs.ly
            && s.run(n).0.first_line == s.first_line,
    decreases n,
{
    if n > 0 {
        lemma_rest_of_line(s, (n - 1) as nat);
    }
}

/// Once its drawing has ended a line is not touched again: whatever is written
/// in horizontal blank, the picture stays until the next line.
pub proof fn law_horizontal_blank_keeps_the_picture(s: PpuState, n: nat)
    requires
        s.on_screen(),
        s.lcdc(LCDC_LCD_ENABLE),
        s.regs.ly < VBLANK_LINE,
        HBLANK_START <= s.dots,
        s.dots + n <= s.line_dots(),
    ensures
        s.ticked(n).0.pixels == s.pixels,
{
    lemma_rest_of_line(s, n);
}

/// With the background off and no sprite in the way a pixel is blank, window
/// or not.
pub proof fn law_background_off_is_blank(s: PpuState, x: int)
    requires
        s.wf(),
        s.regs.ly < VBLANK_LINE,
        0 <= x < 160,
        !s.lcdc(LCDC_BG_ENABLE),
        !s.lcdc(LCDC_OBJ_ENABLE),
    ensures
        s.composed().pixels[s.line_start() + x] == 0,
{
    law_composed_line(s, s.line_start() + x);
}

/// At most one sprite shows at a column, and it is never transparent there.
/// Of two sprites that could, the one further left does, or else the earlier
/// in OAM.
pub proof fn law_front_sprite(s: PpuState, i: int, j: int, x: int)
    requires
        s.shows(i, x),
    ensures
        s.sprite_color(i, x) != 0,
        s.shows(j, x) ==> i == j,
        s.selected(j) && s.opaque_at(j, x) && i != j ==> s.sprite_x(i) < s.sprite_x(j) || (
        s.sprite_x(i) == s.sprite_x(j) && i < j),
{
    assert(s.opaque_at(i, x));
    if s.shows(j, x) && i != j {
        assert(s.opaque_at(j, x));
        assert(s.in_front(i, j) && s.in_front(j, i));
    }
}

/// The frontmost of the sprites below `n` that are opaque at a column.
proof fn lemma_front_exists(s: PpuState, n: int, j: int, x: int) -> (i: int)
    requires
        0 <= j < n,
        s.selected(j),
        s.opaque_at(j, x),
    ensures
        0 <= i < n,
        s.selected(i),
        s.opaque_at(i, x),
        forall|k: int|
            k < n && s.selected(k) && #[trigger] s.opaque_at(k, x) && k != i ==> s.in_front(i, k),
    decreases n,
{
    let last = n - 1;
    if exists|k: int| 0 <= k < last && s.selected(k) && #[trigger] s.opaque_at(k, x) {
        let k = choose|k: int| 0 <= k < last && s.selected(k) && #[trigger] s.opaque_at(k, x);
        let i = lemma_front_exists(s, last, k, x);
        if s.selected(last) && s.opaque_at(last, x) && s.in_front(last, i) {
            last
        } else {
            i
        }
    } else {
        j
    }
}

/// Where a sprite drawn on the line is opaque, some sprite shows.
pub proof fn law_some_sprite_shows(s: PpuState, j: int, x: int)
    requires
        s.selected(j),
        s.opaque_at(j, x),
    ensures
        exists|i: int| s.shows(i, x),
{
    let i = lemma_front_exists(s, 40, j, x);
    assert(s.shows(i, x));
}

/// How many of the first `n` entries of OAM are drawn on this line.
pub open spec fn drawn_before(s: PpuState, n: int) -> int
    decreases n,
{
    if n <= 0 {
        0
    } else {
        drawn_before(s, n - 1) + (if s.selected(n - 1) {
            1int
        } else {
            0
        })
    }
}

proof fn lemma_drawn_is_capped(s: PpuState, n: int)
    requires
        0 <= n <= 40,
    ensures
        drawn_before(s, n) == (if s.on_line_before(n) <= 10 {
            s.on_line_before(n)
        } else {
            10
        }),
    decreases n,
{
    if n > 0 {
        lemma_drawn_is_capped(s, n - 1);
    }
}

/// Ten sprites are drawn on a line, or as many as cross it where those are
/// fewer.
pub proof fn law_ten_sprites_per_line(s: PpuState)
    ensures
        drawn_before(s, 40) <= 10,
        s.on_line_before(40) <= 10 ==> drawn_before(s, 40) == s.on_line_before(40),
        s.on_line_before(40) > 10 ==> drawn_before(s, 40) == 10,
{
    lemma_drawn_is_capped(s, 40);
}

/// The window's line counter moves on with the lines that show the window, and
/// with no others; a new frame starts it again.
pub proof fn law_window_line_counts_shown_lines(s: PpuState)
    ensures
        s.composed().wly == (if s.window_visible() {
            (s.wly + 1) % 256
        } else {
            s.wly as int
        }),
        s.dot().0.wly != s.moved().wly ==> s.moved().window_visible() && s.moved().dots
            == HBLANK_START,
        s.at_line_end() && s.regs.ly + 1 == FRAME_LINES ==> s.dot().0.wly == 0,
{
}

} // verus!
