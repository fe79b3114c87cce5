//! Sprites
//!
//! Up to ten sprites of a line are drawn, from the one furthest back to the
//! one in front, so that the front one is left standing.

use super::model::{
    PpuState, LCDC_OBJ_ENABLE, LCDC_OBJ_SIZE, OAM_ATTR_PALETTE, OAM_ATTR_PRIORITY, OAM_ATTR_X_FLIP,
    OAM_ATTR_Y_FLIP, VBLANK_LINE,
};
use super::{palette_shade, plane_color, Ppu, WIDTH};
use vstd::prelude::*;

verus! {

/// That `list` holds just the sprites drawn on this line, of those with an
/// index below `n`, each in front of all before it.
pub open spec fn back_to_front(s: PpuState, list: Seq<usize>, n: int) -> bool {
    &&& forall|k: int| 0 <= k < list.len() ==> s.selected(#[trigger] list[k] as int) && list[k] < n
    &&& forall|j: int| 0 <= j < n && #[trigger] s.selected(j) ==> list.contains(j as usize)
    &&& forall|a: int, b: int| 0 <= a < b < list.len() ==> s.in_front(list[b] as int, list[a] as int)
}

/// The pixel at column `x` after the first `k` of `list` were drawn.
pub open spec fn layered(s: PpuState, list: Seq<usize>, k: int, x: int) -> u8
    decreases k,
{
    if k <= 0 {
        s.pixels[s.line_start() + x]
    } else if s.opaque_at(list[k - 1] as int, x) {
        s.sprite_shade(list[k - 1] as int, x)
    } else {
        layered(s, list, k - 1, x)
    }
}

/// The line with the first `k` of `list` drawn.
pub open spec fn with_layers(s: PpuState, list: Seq<usize>, k: int) -> PpuState {
    PpuState {
        pixels: Seq::new(
            s.pixels.len(),
            |p: int|
                if s.line_start() <= p < s.line_start() + 160 {
                    layered(s, list, k, p - s.line_start())
                } else {
                    s.pixels[p]
                },
        ),
        ..s
    }
}

/// The line with the first `cols` columns of sprite `i` drawn.
pub open spec fn with_columns(s: PpuState, i: int, cols: int) -> PpuState {
    PpuState {
        pixels: Seq::new(
            s.pixels.len(),
            |p: int|
                if s.line_start() <= p < s.line_start() + 160 && p - s.line_start() < s.sprite_x(i)
                    + cols && s.opaque_at(i, p - s.line_start()) {
                    s.sprite_shade(i, p - s.line_start())
                } else {
                    s.pixels[p]
                },
        ),
        ..s
    }
}

/// What drawing leaves on a pixel is the shade of the last sprite that is
/// opaque there.
proof fn lemma_layered(s: PpuState, list: Seq<usize>, k: int, x: int) -> (m: int)
    requires
        0 <= k <= list.len(),
    ensures
        -1 <= m < k,
        forall|n: int| m < n < k ==> !s.opaque_at(#[trigger] list[n] as int, x),
        m == -1 ==> layered(s, list, k, x) == s.pixels[s.line_start() + x],
        m >= 0 ==> s.opaque_at(list[m] as int, x) && layered(s, list, k, x) == s.sprite_shade(
            list[m] as int,
            x,
        ),
    decreases k,
{
    if k == 0 {
        -1
    } else if s.opaque_at(list[k - 1] as int, x) {
        k - 1
    } else {
        lemma_layered(s, list, k - 1, x)
    }
}

/// Drawn back to front, the frontmost sprite shows.
proof fn lemma_front_shows(s: PpuState, list: Seq<usize>, x: int)
    requires
        back_to_front(s, list, 40),
    ensures
        layered(s, list, list.len() as int, x) == s.sprite_pixel(x),
{
    let m = lemma_layered(s, list, list.len() as int, x);
    if m >= 0 {
        let i = list[m] as int;
        assert forall|j: int| s.selected(j) && #[trigger] s.opaque_at(j, x) && j != i implies s.in_front(
            i,
            j,
        ) by {
            assert(list.contains(j as usize));
            let n = choose|n: int| 0 <= n < list.len() && list[n] == j as usize;
            assert(list[n] as int == j);
        }
        assert(s.shows(i, x));
        let c = choose|i: int| s.shows(i, x);
        assert(s.shows(c, x));
        if c != i {
            assert(s.opaque_at(c, x) && s.opaque_at(i, x));
            assert(s.in_front(i, c));
            assert(s.in_front(c, i));
        }
    } else if exists|i: int| s.shows(i, x) {
        let i = choose|i: int| s.shows(i, x);
        assert(list.contains(i as usize));
        let n = choose|n: int| 0 <= n < list.len() && list[n] == i as usize;
        assert(s.opaque_at(list[n] as int, x));
    }
}

proof fn lemma_all_layers(s: PpuState, list: Seq<usize>)
    requires
        back_to_front(s, list, 40),
        s.lcdc(LCDC_OBJ_ENABLE),
    ensures
        with_layers(s, list, list.len() as int) == s.with_sprites(),
{
    assert forall|x: int| #[trigger] layered(s, list, list.len() as int, x) == s.sprite_pixel(x) by {
        lemma_front_shows(s, list, x);
    }
    assert(with_layers(s, list, list.len() as int) =~= s.with_sprites());
}

/// The count of entries on the line only grows along OAM.
proof fn lemma_count_grows(s: PpuState, a: int, b: int)
    requires
        0 <= a <= b,
    ensures
        0 <= s.on_line_before(a) <= s.on_line_before(b),
    decreases b,
{
    if a < b {
        lemma_count_grows(s, a, b - 1);
    } else if a > 0 {
        lemma_count_grows(s, a - 1, b - 1);
    }
}

impl Ppu {
    /// The sprites to draw on this line: the first ten entries of OAM that
    /// cross it, the furthest back first.
    fn sprites_on_line(&self) -> (list: Vec<usize>)
        ensures
            back_to_front(self@, list@, 40),
    {
        let ghost s = self@;
        let height: u16 = if (self.regs.lcdc & LCDC_OBJ_SIZE) != 0 {
            16
        } else {
            8
        };
        let line: u16 = self.regs.ly as u16 + 16;
        let mut list: Vec<usize> = Vec::new();
        let mut i: usize = 0;
        while i < 40 && list.len() < 10
            invariant
                i <= 40,
                s == self@,
                height == s.sprite_height(),
                line == s.regs.ly + 16,
                list.len() == s.on_line_before(i as int),
                list.len() <= 10,
                back_to_front(s, list@, i as int),
            decreases 40 - i,
        {
            let top: u16 = self.oam[i * 4] as u16;
            if top <= line && line < top + height {
                let x: u8 = self.oam[i * 4 + 1];
                let mut p: usize = 0;
                while p < list.len() && self.oam[list[p] * 4 + 1] > x
                    invariant
                        i < 40,
                        p <= list.len(),
                        s == self@,
                        x == s.oam[i * 4 + 1],
                        back_to_front(s, list@, i as int),
                        forall|k: int|
                            0 <= k < p ==> s.oam[(#[trigger] list@[k]) as int * 4 + 1] > x,
                    decreases list.len() - p,
                {
                    p = p + 1;
                }
                let ghost before = list@;
                list.insert(p, i);
                proof {
                    assert(s.selected(i as int));
                    lemma_inserted(s, before, p as int, i);
                }
            } else {
                assert(!s.selected(i as int));
            }
            i = i + 1;
        }
        proof {
            assert forall|j: int| i <= j < 40 implies !#[trigger] s.selected(j) by {
                lemma_count_grows(s, i as int, j);
            }
        }
        list
    }

    /// Draw the row of sprite `i` that falls on this line.
    fn draw_sprite(&mut self, i: usize)
        requires
            old(self).regs.ly < VBLANK_LINE,
            i < 40,
            old(self)@.on_line(i as int),
        ensures
            final(self)@ == with_columns(old(self)@, i as int, 8),
    {
        let ghost s = self@;
        let tall: bool = (self.regs.lcdc & LCDC_OBJ_SIZE) != 0;
        let x: u8 = self.oam[i * 4 + 1];
        let attrs: u8 = self.oam[i * 4 + 3];
        let palette: u8 = if (attrs & OAM_ATTR_PALETTE) != 0 {
            self.regs.obp1
        } else {
            self.regs.obp0
        };
        let mut row: u16 = self.regs.ly as u16 + 16 - self.oam[i * 4] as u16;
        if (attrs & OAM_ATTR_Y_FLIP) != 0 {
            row = if tall {
                15 - row
            } else {
                7 - row
            };
        }
        let tile: u16 = self.oam[i * 4 + 2] as u16;
        let first: u16 = if tall {
            tile - tile % 2 + row / 8
        } else {
            tile
        };
        assert(first == s.sprite_tile(i as int));
        let addr: u16 = 0x8000 + first * 16 + row % 8 * 2;
        let lo: u8 = self.read_vram(addr);
        let hi: u8 = self.read_vram(addr + 1);
        let mut col: u8 = 0;
        assert(self@ =~= with_columns(s, i as int, 0));
        while col < 8
            invariant
                col <= 8,
                i < 40,
                s.wf(),
                s.regs.ly < VBLANK_LINE,
                self@ == with_columns(s, i as int, col as int),
                x == s.oam[i * 4 + 1],
                attrs == s.oam[i * 4 + 3],
                palette == (if s.attr(i as int, OAM_ATTR_PALETTE) {
                    s.regs.obp1
                } else {
                    s.regs.obp0
                }),
                addr == 0x8000 + s.sprite_tile(i as int) * 16 + s.sprite_row(i as int) % 8 * 2,
                lo == s.vram_at(addr as int),
                hi == s.vram_at(addr + 1),
            decreases 8 - col,
        {
            let at: u16 = x as u16 + col as u16;
            let ghost here = at - 8;
            let ghost next = with_columns(s, i as int, col + 1);
            if 8 <= at && at < 168 {
                let color: u8 = plane_color(
                    lo,
                    hi,
                    if (attrs & OAM_ATTR_X_FLIP) != 0 {
                        7 - col
                    } else {
                        col
                    },
                );
                assert(color == s.sprite_color(i as int, here));
                let column: usize = (at - 8) as usize;
                let hidden: bool = (attrs & OAM_ATTR_PRIORITY) != 0 && self.bg_color_index[column]
                    != 0;
                assert(s.opaque_at(i as int, here) == (color != 0 && !hidden));
                if color != 0 && !hidden {
                    let shade: u8 = palette_shade(palette, color);
                    let ghost before = self@;
                    self.framebuffer.set_pixel(column, self.regs.ly as usize, shade);
                    assert(self@.pixels =~= before.pixels.update(s.line_start() + here, shade));
                    assert(self@ =~= next);
                } else {
                    assert(self@ =~= next);
                }
            } else {
                assert(self@ =~= next);
            }
            col = col + 1;
        }
    }

    /// Draw the sprites of this line.
    pub(super) fn render_sprites_scanline(&mut self)
        requires
            old(self).regs.ly < VBLANK_LINE,
        ensures
            final(self)@ == old(self)@.with_sprites(),
    {
        if (self.regs.lcdc & LCDC_OBJ_ENABLE) == 0 {
            return;
        }
        let ghost s = self@;
        let list: Vec<usize> = self.sprites_on_line();
        let mut k: usize = 0;
        assert(self@ =~= with_layers(s, list@, 0));
        while k < list.len()
            invariant
                k <= list.len(),
                s.wf(),
                s.regs.ly < VBLANK_LINE,
                back_to_front(s, list@, 40),
                self@ == with_layers(s, list@, k as int),
            decreases list.len() - k,
        {
            assert(s.selected(list@[k as int] as int));
            self.draw_sprite(list[k]);
            assert(self@ =~= with_layers(s, list@, k + 1));
            k = k + 1;
        }
        proof {
            lemma_all_layers(s, list@);
        }
    }
}

/// Sprite `i` goes behind those at its column or further left.
proof fn lemma_inserted(s: PpuState, list: Seq<usize>, p: int, i: usize)
    requires
        0 <= p <= list.len(),
        back_to_front(s, list, i as int),
        s.selected(i as int),
        forall|k: int| 0 <= k < p ==> s.oam[(#[trigger] list[k]) as int * 4 + 1] > s.oam[i * 4 + 1],
        p < list.len() ==> s.oam[list[p] as int * 4 + 1] <= s.oam[i * 4 + 1],
    ensures
        back_to_front(s, list.insert(p, i), i + 1),
{
    let t = list.insert(p, i);
    assert forall|j: int| 0 <= j < i + 1 && #[trigger] s.selected(j) implies t.contains(j as usize) by {
        if j < i {
            assert(list.contains(j as usize));
            let n = choose|n: int| 0 <= n < list.len() && list[n] == j as usize;
            if n < p {
                assert(t[n] == j as usize);
            } else {
                assert(t[n + 1] == j as usize);
            }
        } else {
            assert(t[p] == i);
        }
    }
    assert forall|a: int, b: int| 0 <= a < b < t.len() implies s.in_front(t[b] as int, t[a] as int) by {
        let la = if a < p {
            a
        } else {
            a - 1
        };
        let lb = if b < p {
            b
        } else {
            b - 1
        };
        if a == p {
            assert(t[b] == list[lb]);
            if lb > p {
                assert(s.in_front(list[lb] as int, list[p] as int));
            }
        } else if b == p {
            assert(t[a] == list[la]);
        } else {
            assert(t[a] == list[la] && t[b] == list[lb]);
            assert(s.in_front(list[lb] as int, list[la] as int));
        }
    }
    assert forall|k: int| 0 <= k < t.len() implies s.selected(#[trigger] t[k] as int) && t[k] < i + 1 by {
        if k < p {
            assert(t[k] == list[k]);
        } else if k > p {
            assert(t[k] == list[k - 1]);
        }
    }
}

} // verus!
