//! DIV, TIMA, TMA and TAC at 0xFF04-0xFF07.
//!
//! One 16-bit counter goes up every T-cycle; DIV is its high byte, and any
//! write to DIV clears the whole counter. TIMA goes up on each falling edge of
//! the counter bit that TAC selects, that is every 1024, 16, 64 or 256
//! T-cycles. Writes to DIV and TAC can make such an edge themselves. When TIMA
//! overflows it stays at zero for four T-cycles; then it is reloaded from TMA
//! and the interrupt is raised.

use crate::bits;
use vstd::prelude::*;

verus! {

/// T-cycles from TIMA's overflow to its reload.
pub const RELOAD_DELAY: u8 = 4;

/// The timer as contracts speak of it.
pub struct TimerState {
    pub counter: u16,
    pub tima: u8,
    pub tma: u8,
    pub tac: u8,
    /// T-cycles left until the reload that an overflow has set off.
    pub reload_in: Option<u8>,
}

impl TimerState {
    pub open spec fn reset() -> TimerState {
        TimerState { counter: 0, tima: 0, tma: 0, tac: 0, reload_in: None }
    }

    /// T-cycles from one increment of TIMA to the next.
    pub open spec fn period(tac: u8) -> int {
        if tac % 4 == 0 {
            1024
        } else if tac % 4 == 1 {
            16
        } else if tac % 4 == 2 {
            64
        } else {
            256
        }
    }

    pub open spec fn enabled(tac: u8) -> bool {
        (tac / 4) % 2 == 1
    }

    /// The signal whose falling edges count: high in the second half of each
    /// period while the timer is enabled.
    pub open spec fn input(counter: u16, tac: u8) -> bool {
        Self::enabled(tac) && counter as int % Self::period(tac) >= Self::period(tac) / 2
    }

    pub open spec fn increment(self) -> TimerState {
        if self.tima == 0xff {
            TimerState { tima: 0, reload_in: Some(RELOAD_DELAY), ..self }
        } else {
            TimerState { tima: (self.tima + 1) as u8, ..self }
        }
    }

    /// A pending reload comes one T-cycle nearer, or happens; whether it did.
    pub open spec fn advance_reload(self) -> (TimerState, bool) {
        match self.reload_in {
            None => (self, false),
            Some(left) => if left <= 1 {
                (TimerState { reload_in: None, tima: self.tma, ..self }, true)
            } else {
                (TimerState { reload_in: Some((left - 1) as u8), ..self }, false)
            },
        }
    }

    /// The timer with its clock source changed, which counts as an edge where
    /// the signal falls by it.
    pub open spec fn with_source(self, counter: u16, tac: u8) -> TimerState {
        let s = TimerState { counter, tac, ..self };
        if Self::input(self.counter, self.tac) && !Self::input(counter, tac) {
            s.increment()
        } else {
            s
        }
    }

    /// One T-cycle; whether it raised the interrupt.
    pub open spec fn cycle(self) -> (TimerState, bool) {
        let (s, raised) = self.advance_reload();
        (s.with_source(((s.counter + 1) % 0x10000) as u16, s.tac), raised)
    }

    /// `n` T-cycles; whether any of them raised the interrupt.
    pub open spec fn run(self, n: nat) -> (TimerState, bool)
        decreases n,
    {
        if n == 0 {
            (self, false)
        } else {
            let (s, before) = self.run((n - 1) as nat);
            let (t, raised) = s.cycle();
            (t, before || raised)
        }
    }

    /// Whether a reload is pending after `n` T-cycles that an overflow among
    /// them set off: one that is not the reload pending before, counted down.
    pub open spec fn overflowed_in(self, n: nat) -> bool {
        match (self.reload_in, self.run(n).0.reload_in) {
            (_, None) => false,
            (None, Some(_)) => true,
            (Some(before), Some(left)) => left + n != before,
        }
    }

    /// `n` T-cycles as one stretch: the reload that an overflow among them set
    /// off has come by their end, and with it the interrupt. A reload that was
    /// pending before takes its four T-cycles.
    pub open spec fn stretch(self, n: nat) -> (TimerState, bool) {
        let (s, raised) = self.run(n);
        if self.overflowed_in(n) {
            (TimerState { reload_in: None, tima: s.tma, ..s }, true)
        } else {
            (s, raised)
        }
    }

    /// That a pending reload is one to four T-cycles away.
    pub open spec fn wf(self) -> bool {
        self.reload_in matches Some(left) ==> 1 <= left <= RELOAD_DELAY
    }

    pub open spec fn read(self, addr: u16) -> u8 {
        if addr == 0xff04 {
            (self.counter / 256) as u8
        } else if addr == 0xff05 {
            self.tima
        } else if addr == 0xff06 {
            self.tma
        } else {
            self.tac | 0xf8
        }
    }

    pub open spec fn write(self, addr: u16, value: u8) -> TimerState {
        if addr == 0xff04 {
            self.with_source(0, self.tac)
        } else if addr == 0xff05 {
            TimerState { reload_in: None, tima: value, ..self }
        } else if addr == 0xff06 {
            TimerState { tma: value, ..self }
        } else {
            self.with_source(self.counter, value % 8)
        }
    }
}

pub struct Timer {
    counter: u16,
    tima: u8,
    tma: u8,
    tac: u8,
    overflow_delay: Option<u8>,
}

impl View for Timer {
    type V = TimerState;

    closed spec fn view(&self) -> TimerState {
        TimerState {
            counter: self.counter,
            tima: self.tima,
            tma: self.tma,
            tac: self.tac,
            reload_in: self.overflow_delay,
        }
    }
}

impl Timer {
    pub fn new() -> (r: Self)
        ensures
            r@ == TimerState::reset(),
    {
        Self { counter: 0, tima: 0, tma: 0, tac: 0, overflow_delay: None }
    }

    /// The counter bit whose falling edges TIMA counts.
    fn selected_mask(tac: u8) -> (r: u16)
        ensures
            r == TimerState::period(tac) / 2,
    {
        match tac % 4 {
            0 => 0x200,
            1 => 0x08,
            2 => 0x20,
            _ => 0x80,
        }
    }

    fn timer_input(counter: u16, tac: u8) -> (r: bool)
        ensures
            r == TimerState::input(counter, tac),
    {
        proof {
            bits::lemma_timer_bits(counter);
            bits::lemma_byte_bits(tac);
        }
        tac & 0x04 != 0 && (counter & Self::selected_mask(tac)) != 0
    }

    fn increment_tima(&mut self)
        ensures
            final(self)@ == old(self)@.increment(),
    {
        if self.tima == 0xff {
            self.tima = 0;
            self.overflow_delay = Some(RELOAD_DELAY);
        } else {
            self.tima = self.tima + 1;
        }
    }

    fn advance_overflow(&mut self) -> (raised: bool)
        ensures
            (final(self)@, raised) == old(self)@.advance_reload(),
    {
        match self.overflow_delay {
            None => false,
            Some(left) => {
                if left <= 1 {
                    self.overflow_delay = None;
                    self.tima = self.tma;
                    true
                } else {
                    self.overflow_delay = Some(left - 1);
                    false
                }
            },
        }
    }

    fn apply_timer_control_write(&mut self, new_counter: u16, new_tac: u8)
        ensures
            final(self)@ == old(self)@.with_source(new_counter, new_tac),
    {
        let old_input: bool = Self::timer_input(self.counter, self.tac);
        let new_input: bool = Self::timer_input(new_counter, new_tac);
        self.counter = new_counter;
        self.tac = new_tac;
        if old_input && !new_input {
            self.increment_tima();
        }
    }

    /// Read DIV, TIMA, TMA or TAC. The upper five bits of TAC read as one.
    pub fn read(&self, addr: u16) -> (r: u8)
        requires
            0xff04 <= addr <= 0xff07,
        ensures
            r == self@.read(addr),
    {
        match addr {
            0xff04 => (self.counter / 256) as u8,
            0xff05 => self.tima,
            0xff06 => self.tma,
            _ => self.tac | 0xf8,
        }
    }

    /// Write DIV, TIMA, TMA or TAC. A write to DIV, of whatever value, clears
    /// all sixteen bits of the counter. A write to TIMA calls off a reload.
    pub fn write(&mut self, addr: u16, value: u8)
        requires
            0xff04 <= addr <= 0xff07,
        ensures
            final(self)@ == old(self)@.write(addr, value),
    {
        match addr {
            0xff04 => self.apply_timer_control_write(0, self.tac),
            0xff05 => {
                self.overflow_delay = None;
                self.tima = value;
            },
            0xff06 => self.tma = value,
            _ => self.apply_timer_control_write(self.counter, value % 8),
        }
    }

    /// Advance by `cycles` T-cycles. Returns whether the timer interrupt was
    /// raised on the way.
    pub fn tick(&mut self, cycles: u8) -> (raised: bool)
        ensures
            (final(self)@, raised) == old(self)@.run(cycles as nat),
    {
        let mut raised: bool = false;
        let mut done: u8 = 0;
        while done < cycles
            invariant
                done <= cycles,
                (self@, raised) == old(self)@.run(done as nat),
            decreases cycles - done,
        {
            let now: bool = self.advance_overflow();
            raised = raised || now;
            let next: u16 = self.counter.wrapping_add(1);
            self.apply_timer_control_write(next, self.tac);
            done = done + 1;
        }
        raised
    }

    /// Advance by `cycles` T-cycles as one stretch: an overflow on the way is
    /// carried through to its reload at once. Returns whether the timer
    /// interrupt was raised.
    pub fn tick_through(&mut self, cycles: u8) -> (raised: bool)
        ensures
            (final(self)@, raised) == old(self)@.stretch(cycles as nat),
    {
        let before: Option<u8> = self.overflow_delay;
        let raised: bool = self.tick(cycles);
        let overflowed: bool = match (before, self.overflow_delay) {
            (_, None) => false,
            (None, Some(_)) => true,
            (Some(b), Some(left)) => left as u16 + cycles as u16 != b as u16,
        };
        if overflowed {
            self.overflow_delay = None;
            self.tima = self.tma;
            true
        } else {
            raised
        }
    }
}

impl Default for Timer {
    fn default() -> (r: Self)
        ensures
            r@ == TimerState::reset(),
    {
        Self::new()
    }
}

/// The counter goes up by one every T-cycle, modulo 2^16, whatever else the
/// timer does: DIV is its high byte.
pub proof fn law_div_counts_cycles(s: TimerState, n: nat)
    ensures
        s.run(n).0.counter == (s.counter + n) % 0x10000,
        s.run(n).0.read(0xff04) == ((s.counter + n) % 0x10000) / 256,
        s.run(n).0.tac == s.tac,
        s.run(n).0.tma == s.tma,
    decreases n,
{
    if n > 0 {
        let before = (n - 1) as nat;
        law_div_counts_cycles(s, before);
        lemma_cycle_counts(s.run(before).0);
        lemma_counter_wraps(s.counter + before);
    }
}

/// The counter goes round at 2^16.
proof fn lemma_counter_wraps(a: int)
    requires
        a >= 0,
    ensures
        (a % 0x10000 + 1) % 0x10000 == (a + 1) % 0x10000,
{
}

/// What a cycle does to the registers that only writes change, and to the
/// counter.
proof fn lemma_cycle_counts(s: TimerState)
    ensures
        s.cycle().0.counter == (s.counter + 1) % 0x10000,
        s.cycle().0.tac == s.tac,
        s.cycle().0.tma == s.tma,
{
}

/// While the timer is enabled, no reload is pending and TIMA does not run
/// over, TIMA goes up once per period: by the number of multiples of the
/// period that the counter reaches. No interrupt is raised.
pub proof fn law_tima_counts_periods(s: TimerState, n: nat)
    requires
        TimerState::enabled(s.tac),
        s.reload_in is None,
        s.tima + ((s.counter + n) / TimerState::period(s.tac) - s.counter as int / TimerState::period(
            s.tac,
        )) <= 0xff,
    ensures
        s.run(n).0.tima == s.tima + ((s.counter + n) / TimerState::period(s.tac) - s.counter as int
            / TimerState::period(s.tac)),
        s.run(n).0.reload_in is None,
        !s.run(n).1,
    decreases n,
{
    let p = TimerState::period(s.tac);
    if n > 0 {
        let m = (n - 1) as nat;
        bits::lemma_next_multiple(s.counter + m, p);
        law_tima_counts_periods(s, m);
        law_div_counts_cycles(s, m);
        law_div_counts_cycles(s, n);
        bits::lemma_mod_of_wrapped(s.counter + m, p);
        bits::lemma_mod_of_wrapped(s.counter + n, p);
    }
}

/// A disabled timer leaves TIMA alone and raises nothing, apart from a reload
/// that was pending already.
pub proof fn law_disabled_timer_is_still(s: TimerState, n: nat)
    requires
        !TimerState::enabled(s.tac),
        s.reload_in is None,
    ensures
        s.run(n).0.tima == s.tima,
        s.run(n).0.reload_in is None,
        !s.run(n).1,
    decreases n,
{
    if n > 0 {
        law_disabled_timer_is_still(s, (n - 1) as nat);
        law_div_counts_cycles(s, (n - 1) as nat);
    }
}

/// After an overflow TIMA reads zero for four T-cycles; the fourth brings the
/// reload from TMA and the interrupt, and none of the first three does.
pub proof fn law_overflow_reloads_after_four_cycles(s: TimerState)
    requires
        s.tima == 0,
        s.reload_in == Some(RELOAD_DELAY),
        !TimerState::input(s.counter, s.tac),
    ensures
        s.run(1).0.tima == 0 && !s.run(1).1,
        s.run(2).0.tima == 0 && !s.run(2).1,
        s.run(3).0.tima == 0 && !s.run(3).1,
        s.run(4).0.tima == s.tma,
        s.run(4).1,
        s.run(4).0.reload_in is None,
{
    let s0 = s.run(0).0;
    let s1 = s.run(1).0;
    let s2 = s.run(2).0;
    let s3 = s.run(3).0;
    lemma_quiet_cycle(s0, 4);
    assert(s.run(1) == (s1, false));
    lemma_quiet_cycle(s1, 3);
    assert(s.run(2) == (s2, false));
    lemma_quiet_cycle(s2, 2);
    assert(s.run(3) == (s3, false));
    lemma_quiet_cycle(s3, 1);
}

/// That the counter is no more than `k` T-cycles past the first half of its
/// period, or is not looked at.
spec fn settled_low(s: TimerState, k: int) -> bool {
    TimerState::enabled(s.tac) ==> s.counter as int % TimerState::period(s.tac) < TimerState::period(
        s.tac,
    ) / 2 + k
}

/// A cycle in which TIMA's clock cannot fall only brings the reload nearer.
proof fn lemma_quiet_cycle(s: TimerState, left: int)
    requires
        1 <= left <= 4,
        s.reload_in == Some(left as u8),
        settled_low(s, 4 - left),
    ensures
        s.cycle().0 == (TimerState {
            counter: ((s.counter + 1) % 0x10000) as u16,
            ..s.advance_reload().0
        }),
        s.cycle().1 == (left == 1),
        settled_low(s.cycle().0, 5 - left),
{
    if TimerState::enabled(s.tac) {
        let p = TimerState::period(s.tac);
        bits::lemma_next_multiple(s.counter as int, p);
        bits::lemma_mod_of_wrapped(s.counter + 1, p);
    }
}

/// An edge that makes TIMA run over, in a cycle or by a write to DIV or TAC,
/// leaves the timer as the four-cycle reload finds it.
pub proof fn law_overflow_starts_the_delay(s: TimerState, counter: u16, tac: u8)
    requires
        s.tima == 0xff,
        TimerState::input(s.counter, s.tac),
        !TimerState::input(counter, tac),
    ensures
        s.with_source(counter, tac).tima == 0,
        s.with_source(counter, tac).reload_in == Some(RELOAD_DELAY),
        !TimerState::input(s.with_source(counter, tac).counter, s.with_source(counter, tac).tac),
{
}

/// A write to TIMA while a reload is pending calls it off.
pub proof fn law_tima_write_cancels_reload(s: TimerState, value: u8)
    ensures
        s.write(0xff05, value).reload_in is None,
        s.write(0xff05, value).tima == value,
        !s.write(0xff05, value).cycle().1,
{
}

/// Running twice is running by the sum: how a stretch of time is cut up makes
/// no difference to the timer, and no interrupt is lost or made up.
pub proof fn law_timer_runs_add(s: TimerState, a: nat, b: nat)
    ensures
        s.run(a + b).0 == s.run(a).0.run(b).0,
        s.run(a + b).1 == (s.run(a).1 || s.run(a).0.run(b).1),
    decreases b,
{
    if b > 0 {
        law_timer_runs_add(s, a, (b - 1) as nat);
        assert((a + b - 1) as nat == a + (b - 1) as nat);
    }
}

/// TIMA and TMA read back what was written, TAC with its unused bits set; DIV
/// reads zero whatever was written.
pub proof fn law_timer_registers_read_back(s: TimerState, value: u8)
    ensures
        s.write(0xff04, value).read(0xff04) == 0,
        s.write(0xff05, value).read(0xff05) == value,
        s.write(0xff06, value).read(0xff06) == value,
        s.write(0xff07, value).read(0xff07) == value | 0xf8,
{
    bits::lemma_tac_reads(value);
}

/// A write to DIV or TAC moves TIMA on by one just where it makes the counted
/// signal fall.
pub proof fn law_writes_can_count(s: TimerState, value: u8)
    ensures
        s.write(0xff04, value).tima == (if TimerState::input(s.counter, s.tac) {
            (s.tima + 1) % 256
        } else {
            s.tima as int
        }),
        s.write(0xff07, value).tima == (if TimerState::input(s.counter, s.tac)
            && !TimerState::input(s.counter, value % 8) {
            (s.tima + 1) % 256
        } else {
            s.tima as int
        }),
{
}

/// A pending reload is never more than four T-cycles away: so it is at first,
/// and neither time nor a write changes it.
pub proof fn law_reload_is_at_most_four_cycles_away(s: TimerState, n: nat, addr: u16, value: u8)
    requires
        s.wf(),
    ensures
        TimerState::reset().wf(),
        s.run(n).0.wf(),
        s.stretch(n).0.wf(),
        s.write(addr, value).wf(),
    decreases n,
{
    if n > 0 {
        law_reload_is_at_most_four_cycles_away(s, (n - 1) as nat, addr, value);
    }
}

/// A reload that is pending after `n` T-cycles was set off in them, or was
/// pending before and has been counted down.
proof fn lemma_pending_reload(s: TimerState, n: nat)
    requires
        s.wf(),
    ensures
        s.run(n).0.reload_in matches Some(left) ==> left + n > RELOAD_DELAY || (s.reload_in
            matches Some(before) && before == left + n),
    decreases n,
{
    if n > 0 {
        lemma_pending_reload(s, (n - 1) as nat);
        law_reload_is_at_most_four_cycles_away(s, (n - 1) as nat, 0, 0);
    }
}

/// An overflow is in the stretch just where its reload is further off at the
/// end than one from before could be.
pub proof fn law_overflow_in_a_stretch(s: TimerState, n: nat)
    requires
        s.wf(),
    ensures
        s.overflowed_in(n) <==> (s.run(n).0.reload_in matches Some(left) && left + n
            > RELOAD_DELAY),
{
    lemma_pending_reload(s, n);
}

/// In a stretch without an overflow that is still pending, time passes as
/// always: a reload set off before it is not hurried, and no time at all
/// changes nothing.
pub proof fn law_stretch_hurries_no_earlier_reload(s: TimerState, n: nat)
    ensures
        !s.overflowed_in(n) ==> s.stretch(n) == s.run(n),
        s.reload_in matches Some(before) ==> (s.run(n).0.reload_in matches Some(left) && left + n
            == before ==> s.stretch(n) == s.run(n)),
        s.stretch(0) == (s, false),
{
}

/// An overflow in a stretch has brought its reload and the interrupt by the
/// end.
pub proof fn law_stretch_carries_overflow_through(s: TimerState, n: nat)
    requires
        s.overflowed_in(n),
    ensures
        s.stretch(n).0.tima == s.tma,
        s.stretch(n).0.reload_in is None,
        s.stretch(n).1,
{
    law_div_counts_cycles(s, n);
}

} // verus!
