//! The joypad register at 0xFF00.
//!
//! The host says which of the eight buttons are down; the game selects one or
//! both rows of the button matrix by bits 5 and 4, and reads the lines of the
//! selected rows back in bits 3 to 0, low where a button is down. A button
//! going down latches an interrupt; holding it does not latch another.

use vstd::prelude::*;

verus! {

pub const BUTTON_A: u8 = 0x01;

pub const BUTTON_B: u8 = 0x02;

pub const BUTTON_SELECT: u8 = 0x04;

pub const BUTTON_START: u8 = 0x08;

pub const BUTTON_RIGHT: u8 = 0x10;

pub const BUTTON_LEFT: u8 = 0x20;

pub const BUTTON_UP: u8 = 0x40;

pub const BUTTON_DOWN: u8 = 0x80;

/// The joypad as contracts speak of it.
pub struct JoypadState {
    /// The buttons that are down, by their masks.
    pub pressed: u8,
    /// Bits 5 and 4 as the game wrote them; a row is selected by a zero.
    pub select: u8,
    /// Whether a press has not been reported yet.
    pub interrupt: bool,
}

impl JoypadState {
    pub open spec fn reset() -> JoypadState {
        JoypadState { pressed: 0, select: 0x30, interrupt: false }
    }

    pub open spec fn dpad_selected(self) -> bool {
        self.select & 0x10 == 0
    }

    pub open spec fn action_selected(self) -> bool {
        self.select & 0x20 == 0
    }

    /// Whether a line is pulled low: by the button of the direction row, or by
    /// the button of the action row, in so far as its row is selected.
    pub open spec fn pulled(self, dpad_button: u8, action_button: u8) -> bool {
        (self.dpad_selected() && self.pressed & dpad_button != 0) || (self.action_selected()
            && self.pressed & action_button != 0)
    }

    /// Bits 7 and 6 high, the selection mirrored, and the four lines.
    pub open spec fn read(self) -> u8 {
        let high = 0xc0u8 | (self.select & 0x30) | 0x0f;
        let line0 = if self.pulled(BUTTON_RIGHT, BUTTON_A) {
            high & !0x01u8
        } else {
            high
        };
        let line1 = if self.pulled(BUTTON_LEFT, BUTTON_B) {
            line0 & !0x02u8
        } else {
            line0
        };
        let line2 = if self.pulled(BUTTON_UP, BUTTON_SELECT) {
            line1 & !0x04u8
        } else {
            line1
        };
        if self.pulled(BUTTON_DOWN, BUTTON_START) {
            line2 & !0x08u8
        } else {
            line2
        }
    }

    pub open spec fn write(self, value: u8) -> JoypadState {
        JoypadState { select: value & 0x30, ..self }
    }

    pub open spec fn with_pressed(self, pressed: u8) -> JoypadState {
        JoypadState {
            pressed,
            interrupt: self.interrupt || pressed & !self.pressed != 0,
            ..self
        }
    }
}

pub struct Joypad {
    pressed: u8,
    select: u8,
    interrupt_pending: bool,
}

impl View for Joypad {
    type V = JoypadState;

    closed spec fn view(&self) -> JoypadState {
        JoypadState {
            pressed: self.pressed,
            select: self.select,
            interrupt: self.interrupt_pending,
        }
    }
}

impl Joypad {
    /// Nothing pressed, no row selected.
    pub fn new() -> (r: Self)
        ensures
            r@ == JoypadState::reset(),
    {
        Self { pressed: 0, select: 0x30, interrupt_pending: false }
    }

    /// The register byte.
    pub fn read(&self, addr: u16) -> (r: u8)
        requires
            addr == 0xff00,
        ensures
            r == self@.read(),
    {
        let dpad: bool = (self.select & 0x10) == 0;
        let action: bool = (self.select & 0x20) == 0;
        let mut value: u8 = 0xc0 | (self.select & 0x30) | 0x0f;
        if (dpad && self.pressed & BUTTON_RIGHT != 0) || (action && self.pressed & BUTTON_A != 0) {
            value = value & !0x01u8;
        }
        if (dpad && self.pressed & BUTTON_LEFT != 0) || (action && self.pressed & BUTTON_B != 0) {
            value = value & !0x02u8;
        }
        if (dpad && self.pressed & BUTTON_UP != 0) || (action && self.pressed & BUTTON_SELECT != 0) {
            value = value & !0x04u8;
        }
        if (dpad && self.pressed & BUTTON_DOWN != 0) || (action && self.pressed & BUTTON_START
            != 0) {
            value = value & !0x08u8;
        }
        value
    }

    /// Select rows by bits 5 and 4; the other bits are not writable.
    pub fn write(&mut self, addr: u16, value: u8)
        requires
            addr == 0xff00,
        ensures
            final(self)@ == old(self)@.write(value),
    {
        self.select = value & 0x30;
    }

    /// Say which buttons are down now. A button that was up latches the
    /// interrupt.
    pub fn set_pressed(&mut self, new_state: u8)
        ensures
            final(self)@ == old(self)@.with_pressed(new_state),
    {
        let newly_pressed: u8 = new_state & !self.pressed;
        if newly_pressed != 0 {
            self.interrupt_pending = true;
        }
        self.pressed = new_state;
    }

    /// Whether a press has been latched since the last call.
    pub fn take_interrupt(&mut self) -> (r: bool)
        ensures
            r == old(self)@.interrupt,
            final(self)@ == (JoypadState { interrupt: false, ..old(self)@ }),
    {
        let pending: bool = self.interrupt_pending;
        self.interrupt_pending = false;
        pending
    }
}

impl Default for Joypad {
    fn default() -> (r: Self)
        ensures
            r@ == JoypadState::reset(),
    {
        Self::new()
    }
}

/// A register read has bits 7 and 6 set, gives back the selection that was
/// written, and has each of its four lines low exactly where a button on a
/// selected row holds it down.
pub proof fn law_register_lines(s: JoypadState, value: u8)
    ensures
        ({
            let t = s.write(value);
            let r = t.read();
            &&& r & 0xf0 == 0xc0 | (value & 0x30)
            &&& (r & 0x01 == 0) == t.pulled(BUTTON_RIGHT, BUTTON_A)
            &&& (r & 0x02 == 0) == t.pulled(BUTTON_LEFT, BUTTON_B)
            &&& (r & 0x04 == 0) == t.pulled(BUTTON_UP, BUTTON_SELECT)
            &&& (r & 0x08 == 0) == t.pulled(BUTTON_DOWN, BUTTON_START)
        }),
{
    crate::bits::lemma_joypad_lines(
        value,
        s.write(value).pulled(BUTTON_RIGHT, BUTTON_A),
        s.write(value).pulled(BUTTON_LEFT, BUTTON_B),
        s.write(value).pulled(BUTTON_UP, BUTTON_SELECT),
        s.write(value).pulled(BUTTON_DOWN, BUTTON_START),
    );
}

/// With neither row selected no button shows.
pub proof fn law_no_row_selected_reads_high(s: JoypadState)
    requires
        s.select == 0x30,
    ensures
        s.read() == 0xff,
{
    crate::bits::lemma_joypad_idle();
}

/// A press latches an interrupt; saying again that the same buttons are down,
/// or letting buttons go, latches none.
pub proof fn law_only_presses_latch(s: JoypadState, before: u8, after: u8)
    requires
        after & before == after,
    ensures
        s.with_pressed(before).with_pressed(after).interrupt == s.with_pressed(before).interrupt,
{
    crate::bits::lemma_subset_has_no_new_bit(before, after);
}

} // verus!
