//! The timer, the joypad, the serial port and the sound registers, in numbers
//! and bit by bit.

use crate::apu::ApuState;
use crate::bits;
use crate::joypad::JoypadState;
use crate::serial::SerialState;
use crate::timer::TimerState;
use vstd::prelude::*;

verus! {

// ----- timer -----

/// The T-cycles between two counts of TIMA, by the low two bits of TAC.
pub open spec fn clock(tac: u8) -> int {
    if bits::has_bit(tac, 1) {
        if bits::has_bit(tac, 0) {
            256
        } else {
            64
        }
    } else {
        if bits::has_bit(tac, 0) {
            16
        } else {
            1024
        }
    }
}

/// How many times in `n` T-cycles the counter passes a multiple of the clock.
pub open spec fn counts(s: TimerState, n: nat) -> int {
    (s.counter + n) / clock(s.tac) - s.counter as int / clock(s.tac)
}

/// The signal whose fall TIMA counts: with TAC bit 2 set, whether the counter
/// is in the second half of the clock.
pub open spec fn signal(counter: u16, tac: u8) -> bool {
    bits::has_bit(tac, 2) && 2 * (counter as int % clock(tac)) >= clock(tac)
}

proof fn lemma_timer_in_numbers(tac: u8)
    ensures
        TimerState::period(tac) == clock(tac),
        TimerState::enabled(tac) == bits::has_bit(tac, 2),
{
    bits::lemma_low_three_bits(tac);
}

/// An enabled timer counts once each 1024, 16, 64 or 256 T-cycles.
pub proof fn law_tima_in_numbers(s: TimerState, n: nat)
    requires
        bits::has_bit(s.tac, 2),
        s.reload_in is None,
        s.tima + counts(s, n) <= 255,
    ensures
        s.run(n).0.tima == s.tima + counts(s, n),
        !s.run(n).1,
        s.run(n).0.counter == (s.counter + n) % 65536,
        s.run(n).0.tac == s.tac,
        s.run(n).0.tma == s.tma,
{
    lemma_timer_in_numbers(s.tac);
    crate::timer::law_tima_counts_periods(s, n);
    crate::timer::law_div_counts_cycles(s, n);
}

/// A timer whose TAC bit 2 is clear does not count.
pub proof fn law_stopped_timer(s: TimerState, n: nat)
    requires
        !bits::has_bit(s.tac, 2),
        s.reload_in is None,
    ensures
        s.run(n).0.tima == s.tima,
        !s.run(n).1,
        s.run(n).0.counter == (s.counter + n) % 65536,
        s.run(n).0.tac == s.tac,
        s.run(n).0.tma == s.tma,
{
    lemma_timer_in_numbers(s.tac);
    crate::timer::law_disabled_timer_is_still(s, n);
    crate::timer::law_div_counts_cycles(s, n);
}

/// One count past 255: TIMA is zero for four T-cycles, and at the end of the
/// fourth it holds TMA and the interrupt is raised, no sooner.
pub proof fn law_overflow_in_numbers(s: TimerState)
    requires
        bits::has_bit(s.tac, 2),
        s.reload_in is None,
        s.tima == 255,
        (s.counter + 1) % clock(s.tac) == 0,
    ensures
        s.run(1).0.tima == 0 && !s.run(1).1,
        s.run(2).0.tima == 0 && !s.run(2).1,
        s.run(3).0.tima == 0 && !s.run(3).1,
        s.run(4).0.tima == 0 && !s.run(4).1,
        s.run(5).0.tima == s.tma && s.run(5).1,
{
    lemma_timer_in_numbers(s.tac);
    let p = clock(s.tac);
    assert(s.run(0) == (s, false));
    assert(s.run(1) == s.cycle());
    bits::lemma_next_multiple(s.counter as int, p);
    bits::lemma_mod_of_wrapped(s.counter as int, p);
    bits::lemma_mod_of_wrapped(s.counter + 1, p);
    assert(TimerState::input(s.counter, s.tac));
    let t = s.run(1).0;
    assert(t.counter == (s.counter + 1) % 65536);
    assert(!TimerState::input(t.counter, t.tac));
    crate::timer::law_overflow_reloads_after_four_cycles(t);
    crate::timer::law_timer_runs_add(s, 1, 1);
    crate::timer::law_timer_runs_add(s, 1, 2);
    crate::timer::law_timer_runs_add(s, 1, 3);
    crate::timer::law_timer_runs_add(s, 1, 4);
}

/// Writes to the timer. DIV clears the counter, whatever is written; TAC takes
/// three bits; either counts where the signal falls by it. TIMA and TMA take
/// the byte. Nothing else changes.
pub proof fn law_timer_writes(s: TimerState, value: u8)
    ensures
        s.write(0xff04, value).counter == 0,
        s.write(0xff04, value).tac == s.tac,
        s.write(0xff04, value).tma == s.tma,
        s.write(0xff04, value).tima == (if signal(s.counter, s.tac) {
            (s.tima + 1) % 256
        } else {
            s.tima as int
        }),
        s.write(0xff05, value).counter == s.counter,
        s.write(0xff05, value).tac == s.tac,
        s.write(0xff05, value).tma == s.tma,
        s.write(0xff05, value).tima == value,
        s.write(0xff05, value).reload_in is None,
        s.write(0xff06, value).counter == s.counter,
        s.write(0xff06, value).tac == s.tac,
        s.write(0xff06, value).tma == value,
        s.write(0xff06, value).tima == s.tima,
        s.write(0xff06, value).reload_in == s.reload_in,
        s.write(0xff07, value).counter == s.counter,
        s.write(0xff07, value).tac == value as int % 8,
        s.write(0xff07, value).tma == s.tma,
        s.write(0xff07, value).tima == (if signal(s.counter, s.tac) && !signal(
            s.counter,
            (value as int % 8) as u8,
        ) {
            (s.tima + 1) % 256
        } else {
            s.tima as int
        }),
{
    lemma_timer_in_numbers(s.tac);
    lemma_timer_in_numbers((value as int % 8) as u8);
}

/// A write that makes the signal fall at 255 sets off the reload, four
/// T-cycles away; any other leaves a pending reload where it is.
pub proof fn law_timer_writes_and_reloads(s: TimerState, value: u8)
    ensures
        s.write(0xff04, value).reload_in == (if signal(s.counter, s.tac) && s.tima == 255 {
            Some(4u8)
        } else {
            s.reload_in
        }),
        s.write(0xff07, value).reload_in == (if signal(s.counter, s.tac) && !signal(
            s.counter,
            (value as int % 8) as u8,
        ) && s.tima == 255 {
            Some(4u8)
        } else {
            s.reload_in
        }),
{
    lemma_timer_in_numbers(s.tac);
    lemma_timer_in_numbers((value as int % 8) as u8);
}

/// What the timer's registers read: the counter's high byte, TIMA, TMA, and
/// TAC below five ones.
pub proof fn law_timer_reads(s: TimerState)
    ensures
        256 * s.read(0xff04) <= s.counter < 256 * s.read(0xff04) + 256,
        s.read(0xff05) == s.tima,
        s.read(0xff06) == s.tma,
        s.tac < 8 ==> s.read(0xff07) == 248 + s.tac,
        TimerState::reset().counter == 0,
        TimerState::reset().tima == 0,
        TimerState::reset().tma == 0,
        TimerState::reset().tac == 0,
        TimerState::reset().reload_in is None,
{
    bits::lemma_five_ones(s.tac);
}

// ----- joypad -----

/// The joypad byte. Bits 4 and 5 select: where bit 4 of the selection is clear,
/// right, left, up and down pull bits 0 to 3 low; where bit 5 is, A, B, select
/// and start do. Bits 6 and 7 are high.
pub proof fn law_joypad_bits(s: JoypadState)
    ensures
        !bits::has_bit(s.read(), 0) <==> (!bits::has_bit(s.select, 4) && bits::has_bit(
            s.pressed,
            4,
        )) || (!bits::has_bit(s.select, 5) && bits::has_bit(s.pressed, 0)),
        !bits::has_bit(s.read(), 1) <==> (!bits::has_bit(s.select, 4) && bits::has_bit(
            s.pressed,
            5,
        )) || (!bits::has_bit(s.select, 5) && bits::has_bit(s.pressed, 1)),
        !bits::has_bit(s.read(), 2) <==> (!bits::has_bit(s.select, 4) && bits::has_bit(
            s.pressed,
            6,
        )) || (!bits::has_bit(s.select, 5) && bits::has_bit(s.pressed, 2)),
        !bits::has_bit(s.read(), 3) <==> (!bits::has_bit(s.select, 4) && bits::has_bit(
            s.pressed,
            7,
        )) || (!bits::has_bit(s.select, 5) && bits::has_bit(s.pressed, 3)),
        bits::has_bit(s.read(), 4) == bits::has_bit(s.select, 4),
        bits::has_bit(s.read(), 5) == bits::has_bit(s.select, 5),
        bits::has_bit(s.read(), 6),
        bits::has_bit(s.read(), 7),
{
    bits::lemma_joypad_bits(
        s.select,
        s.pulled(0x10, 0x01),
        s.pulled(0x20, 0x02),
        s.pulled(0x40, 0x04),
        s.pulled(0x80, 0x08),
    );
    bits::lemma_masks_are_bits(s.select);
    bits::lemma_masks_are_bits(s.pressed);
}

/// A write takes bits 4 and 5 and nothing else.
pub proof fn law_joypad_selection(s: JoypadState, value: u8)
    ensures
        bits::has_bit(s.write(value).select, 4) == bits::has_bit(value, 4),
        bits::has_bit(s.write(value).select, 5) == bits::has_bit(value, 5),
        s.write(value).pressed == s.pressed,
        s.write(value).interrupt == s.interrupt,
        bits::has_bit(JoypadState::reset().select, 4),
        bits::has_bit(JoypadState::reset().select, 5),
        JoypadState::reset().pressed == 0,
        !JoypadState::reset().interrupt,
{
    bits::lemma_selection_bits(value);
}

/// The buttons are what they are said to be, and a button that was up and is
/// down now latches the interrupt.
pub proof fn law_presses_latch(s: JoypadState, now: u8)
    ensures
        s.with_pressed(now).pressed == now,
        s.with_pressed(now).select == s.select,
        s.with_pressed(now).interrupt <==> s.interrupt || exists|k: u8|
            k < 8 && #[trigger] bits::has_bit(now, k) && !bits::has_bit(s.pressed, k),
{
    bits::lemma_new_bits(now, s.pressed);
    if exists|k: u8| k < 8 && #[trigger] bits::has_bit(now, k) && !bits::has_bit(s.pressed, k) {
        let k = choose|k: u8|
            k < 8 && #[trigger] bits::has_bit(now, k) && !bits::has_bit(s.pressed, k);
        assert(k == 0 || k == 1 || k == 2 || k == 3 || k == 4 || k == 5 || k == 6 || k == 7);
    }
}

// ----- serial port -----

/// SB holds what was written and no more happens; SC keeps bit 0, and with bit
/// 7 set sends SB once.
pub proof fn law_serial_writes(s: SerialState, value: u8)
    ensures
        s.write(0xff01, value).sb == value,
        s.write(0xff01, value).sc == s.sc,
        s.write(0xff01, value).output == s.output,
        s.write(0xff01, value).interrupt == s.interrupt,
        s.write(0xff02, value).sb == s.sb,
        s.write(0xff02, value).sc == value as int % 2,
        bits::has_bit(value, 7) ==> s.write(0xff02, value).output == s.output.push(s.sb)
            && s.write(0xff02, value).interrupt,
        !bits::has_bit(value, 7) ==> s.write(0xff02, value).output == s.output && s.write(
            0xff02,
            value,
        ).interrupt == s.interrupt,
        SerialState::reset().sb == 0,
        SerialState::reset().sc == 0,
        SerialState::reset().output.len() == 0,
        !SerialState::reset().interrupt,
{
    bits::lemma_top_bit(value);
}

/// What SB and SC read: SC with bits 1 to 6 high.
pub proof fn law_serial_reads(s: SerialState)
    requires
        s.sc < 2,
    ensures
        s.read(0xff01) == s.sb,
        s.read(0xff02) == 126 + s.sc,
{
    bits::lemma_six_ones(s.sc);
}

// ----- sound registers -----

/// The bits of a sound register that always read as one.
pub open spec fn stuck_bits(addr: u16) -> u8 {
    if addr == 0xff10 {
        0x80
    } else if addr == 0xff11 || addr == 0xff16 {
        0x3f
    } else if addr == 0xff12 || addr == 0xff17 || addr == 0xff21 || addr == 0xff22 || addr == 0xff24
        || addr == 0xff25 {
        0x00
    } else if addr == 0xff14 || addr == 0xff19 || addr == 0xff1e || addr == 0xff23 {
        0xbf
    } else if addr == 0xff1a {
        0x7f
    } else if addr == 0xff1c {
        0x9f
    } else {
        0xff
    }
}

/// A powered register reads what was written with its stuck bits high, and a
/// write to it changes nothing else; without power it reads its stuck bits and
/// takes no write.
pub proof fn law_sound_registers(s: ApuState, addr: u16, other: u16, value: u8)
    requires
        s.regs.len() == 23,
        s.wave_ram.len() == 16,
        0xff10 <= addr < 0xff26,
        other != addr,
    ensures
        s.powered ==> s.write(addr, value).read(addr) == value | stuck_bits(addr),
        s.powered ==> s.write(addr, value).read(other) == s.read(other),
        s.write(addr, value).powered == s.powered,
        s.write(addr, value).wave_ram == s.wave_ram,
        !s.powered ==> s.read(addr) == stuck_bits(addr),
        !s.powered ==> s.write(addr, value) == s,
{
    assert(ApuState::read_mask(addr - 0xff10) == stuck_bits(addr)) by {
        lemma_stuck_bits(addr);
    }
    bits::lemma_masked_readback(value, stuck_bits(addr));
}

proof fn lemma_stuck_bits(addr: u16)
    requires
        0xff10 <= addr < 0xff26,
    ensures
        ApuState::read_mask(addr - 0xff10) == stuck_bits(addr),
{
}

/// The power switch: NR52 reads 0xF0 or 0x70 by its bit 7, and switching off
/// clears all other registers, so that after switching on again they read their
/// stuck bits. The wave RAM is left alone either way.
pub proof fn law_sound_power(s: ApuState, value: u8, addr: u16)
    requires
        s.regs.len() == 23,
    ensures
        s.write(0xff26, value).powered == bits::has_bit(value, 7),
        s.read(0xff26) == (if s.powered {
            0xf0u8
        } else {
            0x70u8
        }),
        s.write(0xff26, value).wave_ram == s.wave_ram,
        bits::has_bit(value, 7) ==> s.write(0xff26, value).regs == s.regs,
        !bits::has_bit(value, 7) && 0xff10 <= addr < 0xff26 ==> s.write(0xff26, value).write(
            0xff26,
            0x80,
        ).read(addr) == stuck_bits(addr),
        !ApuState::reset().powered,
{
    bits::lemma_top_bit(value);
    if 0xff10 <= addr < 0xff26 {
        lemma_stuck_bits(addr);
        bits::lemma_or_zero(stuck_bits(addr));
    }
}

/// The wave RAM's sixteen bytes are apart and take writes with or without
/// power; between them and the registers nothing answers.
pub proof fn law_wave_ram(s: ApuState, addr: u16, other: u16, value: u8)
    requires
        s.regs.len() == 23,
        s.wave_ram.len() == 16,
        0xff30 <= addr <= 0xff3f,
        other != addr,
    ensures
        s.write(addr, value).read(addr) == value,
        s.write(addr, value).read(other) == s.read(other),
        0xff27 <= other < 0xff30 ==> s.read(other) == 0xff && s.write(other, value) == s,
        ApuState::reset().read(addr) == 0,
{
}

} // verus!
