//! What holds over a stretch of time with writes in between.
//!
//! A history is the sequence of dots that pass and writes that are made. What
//! the PPU promises of a whole frame is stated over it.

use super::mode::PpuMode;
use super::model::{
    PpuState, Raised, FRAME_LINES, HBLANK_START, LCDC_BG_ENABLE, LCDC_LCD_ENABLE,
    LCDC_WINDOW_ENABLE, VBLANK_LINE,
};
use super::registers::Registers;
use vstd::prelude::*;

verus! {

/// Something that happens to the PPU.
pub enum Event {
    /// A dot passes.
    Dot,
    /// A register is written.
    Register { addr: u16, value: u8 },
    /// A byte of VRAM is written, by its address on the bus.
    Vram { addr: u16, value: u8 },
    /// A byte of OAM is written, by its address on the bus.
    Oam { addr: u16, value: u8 },
}

impl PpuState {
    pub open spec fn after(self, event: Event) -> PpuState {
        match event {
            Event::Dot => self.ticked(1).0,
            Event::Register { addr, value } => self.write(addr, value),
            Event::Vram { addr, value } => PpuState {
                vram: self.vram.update(addr - 0x8000, value),
                ..self
            },
            Event::Oam { addr, value } => PpuState {
                oam: self.oam.update(addr - 0xfe00, value),
                ..self
            },
        }
    }

    /// The state that a history leads to.
    pub open spec fn after_all(self, events: Seq<Event>) -> PpuState
        decreases events.len(),
    {
        if events.len() == 0 {
            self
        } else {
            self.after_all(events.drop_last()).after(events.last())
        }
    }

    /// That an event does not leave the frame: no switch of the LCD, no write
    /// to LY, and no step past the last dot. Writes are to addresses that the
    /// PPU has.
    pub open spec fn stays_in_frame(self, event: Event) -> bool {
        match event {
            Event::Dot => !(self.at_line_end() && self.regs.ly + 1 == FRAME_LINES),
            Event::Register { addr, value } => {
                &&& 0xff40 <= addr <= 0xff4b
                &&& addr != 0xff46
                &&& addr != 0xff44
                &&& addr == 0xff40 ==> value & LCDC_LCD_ENABLE != 0
            },
            Event::Vram { addr, .. } => 0x8000 <= addr <= 0x9fff,
            Event::Oam { addr, .. } => 0xfe00 <= addr <= 0xfe9f,
        }
    }

    /// That a history stays within one frame.
    pub open spec fn one_frame(self, events: Seq<Event>) -> bool
        decreases events.len(),
    {
        events.len() == 0 || (self.one_frame(events.drop_last()) && self.after_all(
            events.drop_last(),
        ).stays_in_frame(events.last()))
    }

    /// Whether an event composes a line on which the window shows.
    pub open spec fn shows_window(self, event: Event) -> bool {
        &&& event is Dot
        &&& self.lcdc(LCDC_LCD_ENABLE)
        &&& self.moved().dots == HBLANK_START
        &&& self.moved().regs.ly < VBLANK_LINE
        &&& self.moved().window_visible()
    }

    /// The lines on which the window has shown in a history.
    pub open spec fn window_lines(self, events: Seq<Event>) -> Set<int>
        decreases events.len(),
    {
        if events.len() == 0 {
            Set::empty()
        } else {
            let before = self.after_all(events.drop_last());
            let lines = self.window_lines(events.drop_last());
            if before.shows_window(events.last()) {
                lines.insert(before.regs.ly as int)
            } else {
                lines
            }
        }
    }

    /// The top of a frame, with the LCD on and no line composed yet.
    pub open spec fn at_frame_start(self) -> bool {
        &&& self.on_screen()
        &&& self.lcdc(LCDC_LCD_ENABLE)
        &&& self.regs.ly == 0
        &&& self.dots < HBLANK_START
        &&& self.wly == 0
    }

    /// Whether line `line` has been composed in this frame.
    pub open spec fn composed_already(self, line: int) -> bool {
        line < self.regs.ly || (line == self.regs.ly && self.dots >= HBLANK_START)
    }
}

/// A dot with the LCD on, as an event.
proof fn lemma_dot_event(s: PpuState)
    requires
        s.lcdc(LCDC_LCD_ENABLE),
    ensures
        s.after(Event::Dot) == s.dot().0,
{
    assert(s.run(0) == (s, Raised::none()));
}

/// Dots as events are ticks.
pub proof fn law_dots_are_ticks(s: PpuState, n: nat)
    requires
        s.on_screen(),
    ensures
        s.after_all(Seq::new(n, |i: int| Event::Dot)) == s.ticked(n).0,
    decreases n,
{
    let events = Seq::new(n, |i: int| Event::Dot);
    if n > 0 {
        let before = (n - 1) as nat;
        assert(events.drop_last() =~= Seq::new(before, |i: int| Event::Dot));
        law_dots_are_ticks(s, before);
        super::laws::law_ticks_add(s, before, 1);
    }
}

/// The top of a frame: what ends the last line of one is the start of the
/// next, and so is switching the LCD on.
pub proof fn law_frames_start(s: PpuState, value: u8)
    ensures
        s.on_screen() && s.lcdc(LCDC_LCD_ENABLE) && s.at_line_end() && s.regs.ly + 1 == FRAME_LINES
            ==> s.after(Event::Dot).at_frame_start(),
        !s.lcdc(LCDC_LCD_ENABLE) && value & LCDC_LCD_ENABLE != 0 ==> s.write(
            0xff40,
            value,
        ).at_frame_start(),
{
    if s.lcdc(LCDC_LCD_ENABLE) {
        lemma_dot_event(s);
    }
}

/// The window's line counter is the number of lines of this frame on which the
/// window has shown, whatever was written meanwhile. Each of them is composed
/// already: before a line is composed, the counter is the number of earlier
/// lines that showed the window.
pub proof fn law_window_row_counts_lines_of_the_frame(s: PpuState, events: Seq<Event>)
    requires
        s.at_frame_start(),
        s.one_frame(events),
    ensures
        s.window_lines(events).finite(),
        s.after_all(events).wly == s.window_lines(events).len(),
        forall|line: int| #[trigger]
            s.window_lines(events).contains(line) ==> 0 <= line < VBLANK_LINE && s.after_all(
                events,
            ).composed_already(line),
        s.window_lines(events).len() <= VBLANK_LINE,
        s.after_all(events).on_screen(),
        s.after_all(events).lcdc(LCDC_LCD_ENABLE),
        s.wf() ==> s.after_all(events).wf(),
    decreases events.len(),
{
    if events.len() > 0 {
        let rest = events.drop_last();
        let event = events.last();
        law_window_row_counts_lines_of_the_frame(s, rest);
        let before = s.after_all(rest);
        let lines = s.window_lines(rest);
        if event is Dot {
            lemma_dot_event(before);
            if s.wf() {
                super::laws::law_tick_keeps_sizes(before, 1);
            }
            if before.shows_window(event) {
                assert(!lines.contains(before.regs.ly as int));
            }
        }
    }
    let lines = s.window_lines(events);
    let visible = vstd::set_lib::set_int_range(0, VBLANK_LINE as int);
    vstd::set_lib::lemma_int_range(0, VBLANK_LINE as int);
    assert(lines.subset_of(visible));
    vstd::set_lib::lemma_len_subset(lines, visible);
}

/// What the window puts on a line, over the background: nothing unless
/// background and window are switched on, LY has reached WY and WX is at most
/// 166; else, from column WX - 7 on, row `w` of its map, with `w` the number of
/// earlier lines of this frame on which it showed.
pub proof fn law_window_shows_its_next_row(s: PpuState, events: Seq<Event>, p: int)
    requires
        s.at_frame_start(),
        s.one_frame(events),
        s.wf(),
        s.after_all(events).regs.ly < VBLANK_LINE,
        s.after_all(events).dots < HBLANK_START,
        0 <= p < 23040,
    ensures
        ({
            let t = s.after_all(events);
            let w = s.window_lines(events).len() as int;
            let under = t.with_bg();
            let x = p - t.line_start();
            &&& forall|line: int| #[trigger]
                s.window_lines(events).contains(line) ==> 0 <= line < t.regs.ly
            &&& under.window_visible() <==> t.lcdc(LCDC_BG_ENABLE) && t.lcdc(LCDC_WINDOW_ENABLE)
                && t.regs.wy <= t.regs.ly && t.regs.wx <= 166
            &&& under.with_window().pixels[p] == (if under.window_visible() && 0 <= x < 160 && x
                >= t.regs.wx - 7 {
                super::model::shade_of(
                    t.regs.bgp,
                    t.map_color(t.window_map(), x - (t.regs.wx - 7), w),
                )
            } else {
                under.pixels[p]
            })
        }),
{
    law_window_row_counts_lines_of_the_frame(s, events);
}

/// Whatever happens, the selects of STAT stay among its writable bits.
pub proof fn law_selects_stay_masked_throughout(s: PpuState, events: Seq<Event>)
    requires
        s.selects_masked(),
    ensures
        s.after_all(events).selects_masked(),
    decreases events.len(),
{
    if events.len() > 0 {
        law_selects_stay_masked_throughout(s, events.drop_last());
        let before = s.after_all(events.drop_last());
        match events.last() {
            Event::Register { addr, value } => {
                super::laws::law_stat_selects_stay_masked(before, addr, value, 1);
            },
            _ => {
                super::laws::law_stat_selects_stay_masked(before, 0, 0, 1);
            },
        }
    }
}

/// Switching the LCD off: LCDC reads back, LY and the mode read zero, and
/// nothing else that can be read changes.
pub proof fn law_switching_off(s: PpuState, value: u8)
    requires
        s.lcdc(LCDC_LCD_ENABLE),
        value & LCDC_LCD_ENABLE == 0,
        s.selects_masked(),
    ensures
        ({
            let t = s.write(0xff40, value);
            &&& t.read(0xff40) == value
            &&& t.read(0xff44) == 0
            &&& t.mode == PpuMode::HBlank
            &&& t.read(0xff41) & 0x03 == 0
            &&& t.regs == (Registers { lcdc: value, ly: 0, ..s.regs })
            &&& t.vram == s.vram
            &&& t.oam == s.oam
            &&& t.pixels == s.pixels
            &&& forall|n: nat| #[trigger] t.ticked(n) == (t, Raised::none())
        }),
{
    super::laws::law_stat_reads(s.write(0xff40, value), value);
}

/// Until LCDC bit 7 is set, an LCD that is off stays off, whatever else
/// happens: no number of dots changes anything or raises an interrupt.
pub proof fn law_off_until_switched_on(s: PpuState, events: Seq<Event>)
    requires
        !s.lcdc(LCDC_LCD_ENABLE),
        forall|i: int|
            0 <= i < events.len() ==> ((#[trigger] events[i]) matches Event::Register {
                addr,
                value,
            } ==> addr == 0xff40 ==> value & LCDC_LCD_ENABLE == 0),
    ensures
        !s.after_all(events).lcdc(LCDC_LCD_ENABLE),
        forall|n: nat| #[trigger]
            s.after_all(events).ticked(n) == (s.after_all(events), Raised::none()),
    decreases events.len(),
{
    if events.len() > 0 {
        let rest = events.drop_last();
        assert forall|i: int| 0 <= i < rest.len() implies ((#[trigger] rest[i]) matches Event::Register {
            addr,
            value,
        } ==> addr == 0xff40 ==> value & LCDC_LCD_ENABLE == 0) by {
            assert(rest[i] == events[i]);
        }
        law_off_until_switched_on(s, rest);
        assert(events.last() == events[events.len() - 1]);
    }
}

} // verus!
