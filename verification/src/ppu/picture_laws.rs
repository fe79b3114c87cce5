//! The picture, pixel by pixel, from the bytes of VRAM and OAM.

use super::mode::PpuMode;
use super::model::{PpuState, Raised};
use super::registers::Registers;
use crate::bits;
use vstd::prelude::*;

verus! {

pub open spec fn one(set: bool) -> int {
    if set {
        1
    } else {
        0
    }
}

/// The colour of pixel (dx, dy) of the tile whose 16 bytes start at `base` of
/// VRAM: two bytes to a row, the leftmost pixel in their top bits, the second
/// byte counting double.
pub open spec fn tile_pixel(vram: Seq<u8>, base: int, dx: int, dy: int) -> int {
    one(bits::has_bit(vram[base + 2 * dy], (7 - dx) as u8)) + 2 * one(
        bits::has_bit(vram[base + 2 * dy + 1], (7 - dx) as u8),
    )
}

/// Where tile `t` of background and window starts in VRAM: counted up from its
/// start with LCDC bit 4 set, else as a signed number from its 0x1000.
pub open spec fn tile_start(lcdc: u8, t: u8) -> int {
    if bits::has_bit(lcdc, 4) {
        t * 16
    } else if t < 128 {
        0x1000 + t * 16
    } else {
        0x1000 - (256 - t) * 16
    }
}

/// Where a tile map starts in VRAM.
pub open spec fn map_start(upper: bool) -> int {
    if upper {
        0x1c00
    } else {
        0x1800
    }
}

/// The two bits of a palette that a colour picks.
pub open spec fn palette_entry(palette: u8, color: int) -> int {
    one(bits::has_bit(palette, (2 * color) as u8)) + 2 * one(
        bits::has_bit(palette, (2 * color + 1) as u8),
    )
}

/// A colour is made of one bit of each plane.
pub proof fn law_planes_make_colors(lo: u8, hi: u8, x: int)
    requires
        0 <= x < 8,
    ensures
        super::model::color_of(lo, hi, x) == one(bits::has_bit(lo, (7 - x) as u8)) + 2 * one(
            bits::has_bit(hi, (7 - x) as u8),
        ),
        super::model::color_of(lo, hi, x) < 4,
{
    bits::lemma_one_bit(lo, (7 - x) as u8);
    bits::lemma_one_bit(hi, (7 - x) as u8);
}

/// A palette gives each of four colours two of its bits.
pub proof fn law_palettes_shade_colors(palette: u8, color: u8)
    requires
        color < 4,
    ensures
        super::model::shade_of(palette, color) == palette_entry(palette, color as int),
        super::model::shade_of(palette, color) < 4,
{
    bits::lemma_palette_bits(palette);
}

/// Which bit of LCDC is which switch.
proof fn lemma_switches(s: PpuState)
    ensures
        s.lcdc(super::model::LCDC_LCD_ENABLE) == bits::has_bit(s.regs.lcdc, 7),
        s.lcdc(super::model::LCDC_WINDOW_TILE_MAP) == bits::has_bit(s.regs.lcdc, 6),
        s.lcdc(super::model::LCDC_WINDOW_ENABLE) == bits::has_bit(s.regs.lcdc, 5),
        s.lcdc(super::model::LCDC_TILE_DATA) == bits::has_bit(s.regs.lcdc, 4),
        s.lcdc(super::model::LCDC_BG_TILE_MAP) == bits::has_bit(s.regs.lcdc, 3),
        s.lcdc(super::model::LCDC_OBJ_SIZE) == bits::has_bit(s.regs.lcdc, 2),
        s.lcdc(super::model::LCDC_OBJ_ENABLE) == bits::has_bit(s.regs.lcdc, 1),
        s.lcdc(super::model::LCDC_BG_ENABLE) == bits::has_bit(s.regs.lcdc, 0),
{
    bits::lemma_masks_are_bits(s.regs.lcdc);
}

/// A tile map is 32 rows of 32 cells, each shown from its own byte: where cell
/// (c, r) holds tile `t`, pixel (dx, dy) of that tile stands at column
/// 8 * c + dx and row 8 * r + dy.
pub proof fn law_map_cells(s: PpuState, upper: bool, c: int, r: int, dx: int, dy: int)
    requires
        0 <= c < 32,
        0 <= r < 32,
        0 <= dx < 8,
        0 <= dy < 8,
    ensures
        s.map_color(0x8000 + map_start(upper), 8 * c + dx, 8 * r + dy) == tile_pixel(
            s.vram,
            tile_start(s.regs.lcdc, s.vram[map_start(upper) + 32 * r + c]),
            dx,
            dy,
        ),
{
    lemma_switches(s);
    let x = 8 * c + dx;
    let y = 8 * r + dy;
    assert(x / 8 == c && x % 8 == dx && y / 8 == r && y % 8 == dy);
    let t = s.vram[map_start(upper) + 32 * r + c];
    let row = tile_start(s.regs.lcdc, t) + 2 * dy;
    law_planes_make_colors(s.vram[row], s.vram[row + 1], dx);
}

/// That no sprite can show at column `x`: they are switched off, or none of
/// those drawn on the line is there to be seen.
pub open spec fn clear_of_sprites(s: PpuState, x: int) -> bool {
    !bits::has_bit(s.regs.lcdc, 1) || forall|i: int|
        s.with_bg().with_window().selected(i)
            ==> !#[trigger] s.with_bg().with_window().opaque_at(i, x)
}

/// Whether the window covers column `x` of the line: switched on, with the
/// background, from line WY on and from column WX - 7 on, unless that is past
/// the right edge.
pub open spec fn under_the_window(s: PpuState, x: int) -> bool {
    bits::has_bit(s.regs.lcdc, 0) && bits::has_bit(s.regs.lcdc, 5) && s.regs.ly >= s.regs.wy
        && s.regs.wx < 167 && x + 7 >= s.regs.wx
}

/// The background: where neither window nor sprite covers it, column `x` of
/// the line shows, in the palette's shade, the pixel of the map that the scroll
/// registers put there.
pub proof fn law_background_pixels(s: PpuState, x: int, c: int, r: int, dx: int, dy: int)
    requires
        s.wf(),
        s.regs.ly < 144,
        0 <= x < 160,
        bits::has_bit(s.regs.lcdc, 0),
        clear_of_sprites(s, x),
        !under_the_window(s, x),
        0 <= c < 32,
        0 <= r < 32,
        0 <= dx < 8,
        0 <= dy < 8,
        (x + s.regs.scx) % 256 == 8 * c + dx,
        (s.regs.ly + s.regs.scy) % 256 == 8 * r + dy,
    ensures
        ({
            let start = map_start(bits::has_bit(s.regs.lcdc, 3));
            let color = tile_pixel(
                s.vram,
                tile_start(s.regs.lcdc, s.vram[start + 32 * r + c]),
                dx,
                dy,
            );
            &&& s.composed().pixels[s.regs.ly * 160 + x] == palette_entry(s.regs.bgp, color)
            &&& s.composed().under[x] == color
        }),
{
    lemma_switches(s);
    lemma_background(s, x, c, r, dx, dy);
    super::laws::law_composed_line(s, s.regs.ly * 160 + x);
}

proof fn lemma_background(s: PpuState, x: int, c: int, r: int, dx: int, dy: int)
    requires
        s.wf(),
        0 <= x < 160,
        bits::has_bit(s.regs.lcdc, 0),
        0 <= c < 32,
        0 <= r < 32,
        0 <= dx < 8,
        0 <= dy < 8,
        (x + s.regs.scx) % 256 == 8 * c + dx,
        (s.regs.ly + s.regs.scy) % 256 == 8 * r + dy,
    ensures
        ({
            let start = map_start(bits::has_bit(s.regs.lcdc, 3));
            let color = tile_pixel(
                s.vram,
                tile_start(s.regs.lcdc, s.vram[start + 32 * r + c]),
                dx,
                dy,
            );
            &&& s.bg_ink(x).color == color
            &&& s.bg_ink(x).shade == palette_entry(s.regs.bgp, color)
        }),
{
    lemma_switches(s);
    let upper = bits::has_bit(s.regs.lcdc, 3);
    law_map_cells(s, upper, c, r, dx, dy);
    assert(s.bg_map() == 0x8000 + map_start(upper));
    law_palettes_shade_colors(s.regs.bgp, s.bg_ink(x).color);
}

/// Whether the window shows on a line.
pub proof fn law_window_shows_where_it_is_on(s: PpuState)
    ensures
        s.window_visible() <==> bits::has_bit(s.regs.lcdc, 0) && bits::has_bit(s.regs.lcdc, 5)
            && s.regs.ly >= s.regs.wy && s.regs.wx < 167,
{
    lemma_switches(s);
}

/// The window: where it covers the background and no sprite covers it, it
/// shows its own map from the left edge on, unscrolled, its rows counted by the
/// window's line.
pub proof fn law_window_pixels(s: PpuState, x: int, c: int, r: int, dx: int, dy: int)
    requires
        s.wf(),
        s.regs.ly < 144,
        0 <= x < 160,
        clear_of_sprites(s, x),
        under_the_window(s, x),
        0 <= c < 32,
        0 <= r < 32,
        0 <= dx < 8,
        0 <= dy < 8,
        x + 7 - s.regs.wx == 8 * c + dx,
        s.wly == 8 * r + dy,
    ensures
        ({
            let start = map_start(bits::has_bit(s.regs.lcdc, 6));
            let color = tile_pixel(
                s.vram,
                tile_start(s.regs.lcdc, s.vram[start + 32 * r + c]),
                dx,
                dy,
            );
            &&& s.composed().pixels[s.regs.ly * 160 + x] == palette_entry(s.regs.bgp, color)
            &&& s.composed().under[x] == color
        }),
{
    lemma_switches(s);
    let upper = bits::has_bit(s.regs.lcdc, 6);
    law_map_cells(s, upper, c, r, dx, dy);
    assert(s.window_map() == 0x8000 + map_start(upper));
    law_palettes_shade_colors(s.regs.bgp, s.window_ink(x)->Some_0.color);
    assert(s.with_bg().window_ink(x) == s.window_ink(x));
    super::laws::law_composed_line(s, s.regs.ly * 160 + x);
}

/// With the background off a line is blank where no sprite covers it.
pub proof fn law_blank_pixels(s: PpuState, x: int)
    requires
        s.wf(),
        s.regs.ly < 144,
        0 <= x < 160,
        !bits::has_bit(s.regs.lcdc, 0),
        clear_of_sprites(s, x),
    ensures
        s.composed().pixels[s.regs.ly * 160 + x] == 0,
        s.composed().under[x] == 0,
{
    lemma_switches(s);
    super::laws::law_composed_line(s, s.regs.ly * 160 + x);
}

/// Composing a line touches its own 160 pixels and no memory or register; the
/// window's line moves on where the window is on at that line.
pub proof fn law_composing_is_confined(s: PpuState, p: int)
    requires
        s.wf(),
        s.regs.ly < 144,
    ensures
        0 <= p < 23040 && !(s.regs.ly * 160 <= p < s.regs.ly * 160 + 160)
            ==> s.composed().pixels[p] == s.pixels[p],
        s.composed().regs == s.regs,
        s.composed().vram == s.vram,
        s.composed().oam == s.oam,
        s.composed().mode == s.mode,
        s.composed().dots == s.dots,
        s.composed().stat_line == s.stat_line,
        s.composed().first_line == s.first_line,
        s.composed().wly == (if bits::has_bit(s.regs.lcdc, 0) && bits::has_bit(s.regs.lcdc, 5)
            && s.regs.ly >= s.regs.wy && s.regs.wx < 167 {
            (s.wly + 1) % 256
        } else {
            s.wly as int
        }),
{
    lemma_switches(s);
    if 0 <= p < 23040 {
        super::laws::law_composed_line(s, p);
    }
}

/// A line comes on the screen at its dot 252: from any dot before, running on
/// to there leaves the picture that is composed now.
pub proof fn law_line_comes_at_dot_252(s: PpuState)
    requires
        s.wf(),
        bits::has_bit(s.regs.lcdc, 7),
        s.regs.ly < 144,
        s.dots < 252,
        s.first_line ==> s.regs.ly == 0,
    ensures
        s.ticked((252 - s.dots) as nat).0.pixels == s.composed().pixels,
{
    lemma_switches(s);
    super::laws::law_line_shows_registers_at_end_of_drawing(s);
}

/// In vertical blank nothing is composed: on lines 144 to 153 a dot leaves the
/// picture, and the window's line too until the next frame starts.
pub proof fn law_vertical_blank_composes_nothing(s: PpuState)
    requires
        s.on_screen(),
        bits::has_bit(s.regs.lcdc, 7),
        144 <= s.regs.ly,
    ensures
        s.ticked(1).0.pixels == s.pixels,
        s.ticked(1).0.under == s.under,
        s.ticked(1).0.wly == (if s.regs.ly == 153 && s.dots == 455 {
            0
        } else {
            s.wly
        }),
{
    lemma_switches(s);
    assert(s.run(0) == (s, Raised::none()));
    assert(s.run(1).0 == s.dot().0);
}

// ----- sprites -----

/// Which bit of a sprite's attributes is which.
proof fn lemma_attributes(s: PpuState, i: int)
    ensures
        s.attr(i, super::model::OAM_ATTR_PRIORITY) == bits::has_bit(s.oam[4 * i + 3], 7),
        s.attr(i, super::model::OAM_ATTR_Y_FLIP) == bits::has_bit(s.oam[4 * i + 3], 6),
        s.attr(i, super::model::OAM_ATTR_X_FLIP) == bits::has_bit(s.oam[4 * i + 3], 5),
        s.attr(i, super::model::OAM_ATTR_PALETTE) == bits::has_bit(s.oam[4 * i + 3], 4),
{
    bits::lemma_masks_are_bits(s.oam[4 * i + 3]);
}

/// An entry of OAM is on the 8 lines, or 16 with LCDC bit 2 set, from 16 above
/// its first byte on, and its leftmost column is 8 to the left of its second.
pub proof fn law_where_sprites_are(s: PpuState, i: int)
    ensures
        s.on_line(i) <==> s.oam[4 * i] <= s.regs.ly + 16 < s.oam[4 * i] + (if bits::has_bit(
            s.regs.lcdc,
            2,
        ) {
            16int
        } else {
            8
        }),
        s.sprite_x(i) == s.oam[4 * i + 1] - 8,
        s.sprite_y(i) == s.oam[4 * i] - 16,
{
    lemma_switches(s);
}

/// An 8x8 sprite shows the eight rows of its tile on its eight lines, each
/// once: row `k` on its line `k`, or 7 - `k` flipped upside down. Its columns go
/// from left to right, or from right to left flipped sideways.
pub proof fn law_sprite_rows(s: PpuState, i: int, k: int, dx: int)
    requires
        !bits::has_bit(s.regs.lcdc, 2),
        0 <= k < 8,
        0 <= dx < 8,
        s.regs.ly + 16 == s.oam[4 * i] + k,
    ensures
        s.sprite_color(i, s.oam[4 * i + 1] - 8 + dx) == tile_pixel(
            s.vram,
            s.oam[4 * i + 2] * 16,
            if bits::has_bit(s.oam[4 * i + 3], 5) {
                7 - dx
            } else {
                dx
            },
            if bits::has_bit(s.oam[4 * i + 3], 6) {
                7 - k
            } else {
                k
            },
        ),
{
    lemma_switches(s);
    lemma_attributes(s, i);
    let row = if bits::has_bit(s.oam[4 * i + 3], 6) {
        7 - k
    } else {
        k
    };
    let at = s.oam[4 * i + 2] * 16 + 2 * row;
    assert(s.sprite_row(i) == row && row % 8 == row);
    law_planes_make_colors(
        s.vram[at],
        s.vram[at + 1],
        if bits::has_bit(s.oam[4 * i + 3], 5) {
            7 - dx
        } else {
            dx
        },
    );
}

/// An 8x16 sprite shows an even tile and the one after it, the second below
/// the first, or above it flipped upside down.
pub proof fn law_tall_sprite_rows(s: PpuState, i: int, k: int, dx: int)
    requires
        bits::has_bit(s.regs.lcdc, 2),
        0 <= k < 16,
        0 <= dx < 8,
        s.regs.ly + 16 == s.oam[4 * i] + k,
    ensures
        ({
            let row = if bits::has_bit(s.oam[4 * i + 3], 6) {
                15 - k
            } else {
                k
            };
            let even = s.oam[4 * i + 2] / 2 * 2;
            s.sprite_color(i, s.oam[4 * i + 1] - 8 + dx) == tile_pixel(
                s.vram,
                if row < 8 {
                    even * 16
                } else {
                    (even + 1) * 16
                },
                if bits::has_bit(s.oam[4 * i + 3], 5) {
                    7 - dx
                } else {
                    dx
                },
                if row < 8 {
                    row
                } else {
                    row - 8
                },
            )
        }),
{
    lemma_switches(s);
    lemma_attributes(s, i);
    let row = if bits::has_bit(s.oam[4 * i + 3], 6) {
        15 - k
    } else {
        k
    };
    let tile = s.oam[4 * i + 2];
    assert(tile - tile % 2 == tile / 2 * 2);
    assert(s.sprite_row(i) == row);
    let within = if row < 8 {
        row
    } else {
        row - 8
    };
    assert(row % 8 == within && row / 8 == (if row < 8 {
        0int
    } else {
        1
    }));
    let at = s.sprite_tile(i) * 16 + 2 * within;
    law_planes_make_colors(
        s.vram[at],
        s.vram[at + 1],
        if bits::has_bit(s.oam[4 * i + 3], 5) {
            7 - dx
        } else {
            dx
        },
    );
}

/// A sprite's shade comes from OBP1 where attribute bit 4 is set, else from
/// OBP0.
pub proof fn law_sprite_palettes(s: PpuState, i: int, x: int)
    requires
        s.sprite_color(i, x) < 4,
    ensures
        s.sprite_shade(i, x) == palette_entry(
            if bits::has_bit(s.oam[4 * i + 3], 4) {
                s.regs.obp1
            } else {
                s.regs.obp0
            },
            s.sprite_color(i, x) as int,
        ),
{
    lemma_attributes(s, i);
    law_palettes_shade_colors(s.regs.obp0, s.sprite_color(i, x));
    law_palettes_shade_colors(s.regs.obp1, s.sprite_color(i, x));
}

/// A sprite can show on the eight columns that it covers, where its colour is
/// not 0, and where attribute bit 7 is set only over colour 0 of the layers
/// below.
pub proof fn law_where_sprites_can_show(s: PpuState, i: int, x: int)
    ensures
        s.opaque_at(i, x) <==> s.oam[4 * i + 1] <= x + 8 < s.oam[4 * i + 1] + 8 && s.sprite_color(
            i,
            x,
        ) != 0 && (bits::has_bit(s.oam[4 * i + 3], 7) ==> s.under[x] == 0),
        s.selected(i) <==> 0 <= i < 40 && s.on_line(i) && s.on_line_before(i) < 10,
{
    lemma_attributes(s, i);
}

/// Of the entries before `n`, how many are on the line: one more for each.
pub proof fn law_entries_are_counted(s: PpuState, n: int)
    requires
        n > 0,
    ensures
        s.on_line_before(0) == 0,
        s.on_line_before(n) == s.on_line_before(n - 1) + one(s.on_line(n - 1)),
{
}

/// With sprites on, a sprite that can show at a column, and that no other drawn
/// on the line can rival there, is what the line shows.
pub proof fn law_unrivalled_sprite_shows(s: PpuState, i: int, x: int)
    requires
        s.wf(),
        s.regs.ly < 144,
        0 <= x < 160,
        bits::has_bit(s.regs.lcdc, 1),
        s.with_bg().with_window().selected(i),
        s.with_bg().with_window().opaque_at(i, x),
        forall|j: int|
            j != i && s.with_bg().with_window().selected(j)
                ==> !#[trigger] s.with_bg().with_window().opaque_at(j, x),
    ensures
        s.composed().pixels[s.regs.ly * 160 + x] == s.sprite_shade(i, x),
{
    lemma_switches(s);
    let layers = s.with_bg().with_window();
    assert(layers.shows(i, x));
    let shown = choose|j: int| layers.shows(j, x);
    super::laws::law_front_sprite(layers, i, shown, x);
    assert(layers.sprite_shade(i, x) == s.sprite_shade(i, x));
    super::laws::law_composed_line(s, s.regs.ly * 160 + x);
}

/// Where two sprites drawn on a line can both show at a column, the one with
/// the smaller second byte does, or the earlier where these are equal.
pub proof fn law_rival_sprites(s: PpuState, i: int, j: int, x: int)
    requires
        s.wf(),
        s.regs.ly < 144,
        0 <= x < 160,
        bits::has_bit(s.regs.lcdc, 1),
        i != j,
        s.with_bg().with_window().selected(i),
        s.with_bg().with_window().opaque_at(i, x),
        s.with_bg().with_window().selected(j),
        s.with_bg().with_window().opaque_at(j, x),
        forall|k: int|
            k != i && k != j && s.with_bg().with_window().selected(k)
                ==> !#[trigger] s.with_bg().with_window().opaque_at(k, x),
        s.oam[4 * i + 1] < s.oam[4 * j + 1] || (s.oam[4 * i + 1] == s.oam[4 * j + 1] && i < j),
    ensures
        s.composed().pixels[s.regs.ly * 160 + x] == s.sprite_shade(i, x),
{
    lemma_switches(s);
    let layers = s.with_bg().with_window();
    assert(layers.in_front(i, j));
    assert(layers.shows(i, x));
    let shown = choose|k: int| layers.shows(k, x);
    super::laws::law_front_sprite(layers, i, shown, x);
    assert(layers.sprite_shade(i, x) == s.sprite_shade(i, x));
    super::laws::law_composed_line(s, s.regs.ly * 160 + x);
}

// ----- time in numbers -----

/// With the LCD on and the first line past, `n` dots move the position by `n`
/// through 154 lines of 456 dots. Line and dot tell the mode: vertical blank
/// from line 144 on; on the lines before it 80 dots of OAM search, 172 of
/// drawing, and horizontal blank.
pub proof fn law_time_in_numbers(s: PpuState, n: nat)
    requires
        s.dots < 456,
        s.regs.ly < 154,
        !s.first_line,
        bits::has_bit(s.regs.lcdc, 7),
    ensures
        ({
            let t = s.ticked(n).0;
            &&& t.regs.ly * 456 + t.dots == (s.regs.ly * 456 + s.dots + n) % 70224
            &&& t.dots < 456
            &&& t.regs.ly < 154
            &&& n > 0 ==> t.mode == (if t.regs.ly >= 144 {
                PpuMode::VBlank
            } else if t.dots < 80 {
                PpuMode::OamSearch
            } else if t.dots < 252 {
                PpuMode::Drawing
            } else {
                PpuMode::HBlank
            })
            &&& t.ticked(1).1.vblank <==> (s.regs.ly * 456 + s.dots + n + 1) % 70224 == 65664
        }),
{
    lemma_switches(s);
    super::laws::law_frame_position(s, n);
    super::laws::law_tick_stays_on_screen(s, n);
    super::laws::law_one_vblank_per_frame(s, n);
    if n > 0 {
        super::laws::law_mode_follows_position(s, n);
    }
}

/// After the LCD is switched on, line 0 lasts 452 dots.
pub proof fn law_first_line_in_numbers(s: PpuState, value: u8, n: nat)
    requires
        !bits::has_bit(s.regs.lcdc, 7),
        bits::has_bit(value, 7),
        n <= 452,
    ensures
        s.write(0xff40, value).ticked(n).0.regs.ly == (if n < 452 {
            0u8
        } else {
            1u8
        }),
{
    lemma_switches(s);
    bits::lemma_masks_are_bits(value);
    super::laws::law_first_line_is_shorter(s, value, n);
}

/// The STAT line is high where LY matches LYC and select bit 6 is set, or the
/// mode is 0, 1 or 2 and select bit 3, 4 or 5 is. The interrupts of a stretch
/// are bit 0 for vertical blank and bit 1 for STAT.
pub proof fn law_stat_sources(s: PpuState, raised: Raised)
    ensures
        s.stat_signal() <==> (bits::has_bit(s.regs.stat_select, 6) && s.regs.ly == s.regs.lyc) || (
        bits::has_bit(s.regs.stat_select, 3) && s.mode == PpuMode::HBlank) || (bits::has_bit(
            s.regs.stat_select,
            4,
        ) && s.mode == PpuMode::VBlank) || (bits::has_bit(s.regs.stat_select, 5) && s.mode
            == PpuMode::OamSearch),
        raised.bits() == one(raised.vblank) + 2 * one(raised.stat),
{
    bits::lemma_masks_are_bits(s.regs.stat_select);
}

/// The two bits of STAT for each mode.
pub proof fn law_mode_codes()
    ensures
        PpuMode::HBlank.code() == 0,
        PpuMode::VBlank.code() == 1,
        PpuMode::OamSearch.code() == 2,
        PpuMode::Drawing.code() == 3,
{
}

/// While OAM is searched on a visible line, four dots to a row.
pub proof fn law_oam_search_rows(s: PpuState)
    ensures
        s.oam_row() is Some <==> bits::has_bit(s.regs.lcdc, 7) && s.regs.ly < 144 && s.dots < 80,
        s.oam_row() matches Some(row) ==> 4 * row <= s.dots < 4 * row + 4,
{
    lemma_switches(s);
}

/// Each register has an address of its own: a write that does not switch the
/// LCD changes what its own register reads, and of the others at most STAT,
/// which compares LY with LYC.
pub proof fn law_registers_are_apart(s: PpuState, addr: u16, other: u16, value: u8)
    requires
        0xff40 <= addr <= 0xff4b,
        0xff40 <= other <= 0xff4b,
        addr != 0xff46,
        other != 0xff46,
        other != addr,
        other != 0xff41,
        addr == 0xff40 ==> bits::has_bit(value, 7) == bits::has_bit(s.regs.lcdc, 7),
    ensures
        s.write(addr, value).read(other) == s.read(other),
        s.write(addr, value).vram == s.vram,
        s.write(addr, value).oam == s.oam,
        s.write(addr, value).pixels == s.pixels,
        s.write(addr, value).dots == s.dots,
        s.write(addr, value).mode == s.mode,
        s.write(addr, value).wly == s.wly,
{
    lemma_switches(s);
    bits::lemma_masks_are_bits(value);
}

/// Which register is at which address.
pub proof fn law_register_addresses(s: PpuState)
    ensures
        s.read(0xff40) == s.regs.lcdc,
        s.read(0xff42) == s.regs.scy,
        s.read(0xff43) == s.regs.scx,
        s.read(0xff44) == s.regs.ly,
        s.read(0xff45) == s.regs.lyc,
        s.read(0xff47) == s.regs.bgp,
        s.read(0xff48) == s.regs.obp0,
        s.read(0xff49) == s.regs.obp1,
        s.read(0xff4a) == s.regs.wy,
        s.read(0xff4b) == s.regs.wx,
{
}

/// A new PPU: the LCD off, all registers, memories and pixels zero.
pub proof fn law_new_ppu_is_blank(i: int)
    ensures
        PpuState::reset().regs == (Registers {
            lcdc: 0,
            stat_select: 0,
            scy: 0,
            scx: 0,
            ly: 0,
            lyc: 0,
            bgp: 0,
            obp0: 0,
            obp1: 0,
            wy: 0,
            wx: 0,
        }),
        PpuState::reset().wf(),
        0 <= i < 0x2000 ==> PpuState::reset().vram[i] == 0,
        0 <= i < 0xa0 ==> PpuState::reset().oam[i] == 0,
        0 <= i < 23040 ==> PpuState::reset().pixels[i] == 0,
        PpuState::reset().dots == 0,
        PpuState::reset().wly == 0,
        !PpuState::reset().stat_line,
        !PpuState::reset().first_line,
        PpuState::reset().mode == PpuMode::OamSearch,
{
}

} // verus!
