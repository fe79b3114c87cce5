//! What a program around the console decides: how it starts, when it stops,
//! how it keeps time, and what it shows.

use crate::bus::Bus;
use crate::cpu::Cpu;
use crate::flags::{FlagState, Flags};
use crate::isa::{CpuState, Machine};
use crate::joypad::{
    BUTTON_A, BUTTON_B, BUTTON_DOWN, BUTTON_LEFT, BUTTON_RIGHT, BUTTON_SELECT, BUTTON_START,
    BUTTON_UP,
};
use vstd::prelude::*;

verus! {

/// The T-cycles after which a program is stopped whatever it does.
pub const MAX_CYCLES: u64 = 2_000_000_000;

/// The steps that PC may stay where it is before the program counts as parked.
pub const PARK_STEPS: u32 = 1_000_000;

/// How long a frame lasts: 70224 T-cycles at 4194304 Hz, in nanoseconds.
pub const FRAME_NANOS: u64 = 16_742_706;

/// The registers as the DMG boot ROM leaves them.
pub open spec fn post_boot_state() -> CpuState {
    CpuState {
        a: 0x01,
        f: FlagState { z: true, n: false, h: true, c: true },
        b: 0x00,
        c: 0x13,
        d: 0x00,
        e: 0xd8,
        h: 0x01,
        l: 0x4d,
        sp: 0xfffe,
        pc: 0x0100,
        ..CpuState::reset()
    }
}

/// A CPU as the boot ROM leaves it.
pub fn post_boot_cpu() -> (r: Cpu)
    ensures
        r@ == post_boot_state(),
{
    let mut cpu = Cpu::new();
    cpu.a = 0x01;
    cpu.f = Flags::from_bits(0xb0);
    cpu.b = 0x00;
    cpu.c = 0x13;
    cpu.d = 0x00;
    cpu.e = 0xd8;
    cpu.h = 0x01;
    cpu.l = 0x4d;
    cpu.sp = 0xfffe;
    cpu.pc = 0x0100;
    cpu
}

/// The I/O registers as the boot ROM leaves them: the LCD on, and the palettes
/// that games rely on.
pub open spec fn after_boot<B: Bus>(s: B::State) -> B::State {
    let lcdc = B::after_write(s, 0xff40, 0x91);
    let bgp = B::after_write(lcdc, 0xff47, 0xfc);
    let obp0 = B::after_write(bgp, 0xff48, 0xff);
    B::after_write(obp0, 0xff49, 0xff)
}

/// Put the I/O registers where the boot ROM leaves them.
pub fn mmu_write_post_boot_io<B: Bus>(bus: &mut B)
    ensures
        final(bus).state() == after_boot::<B>(old(bus).state()),
{
    bus.write8(0xff40, 0x91);
    bus.write8(0xff47, 0xfc);
    bus.write8(0xff48, 0xff);
    bus.write8(0xff49, 0xff);
}

/// The colour of a shade, from the lightest green to the darkest.
pub open spec fn palette(shade: u8) -> u32 {
    if shade % 4 == 0 {
        0x9bbc0f
    } else if shade % 4 == 1 {
        0x8bac0f
    } else if shade % 4 == 2 {
        0x306230
    } else {
        0x0f380f
    }
}

/// Colour the picture. Where the two differ in length the rest of the buffer
/// stays, or the rest of the picture is left out.
pub fn blit_framebuffer(buffer: &mut [u32], framebuffer: &[u8])
    ensures
        final(buffer)@ == Seq::new(
            old(buffer)@.len(),
            |i: int|
                if i < framebuffer@.len() {
                    palette(framebuffer@[i])
                } else {
                    old(buffer)@[i]
                },
        ),
{
    let ghost before = buffer@;
    let mut i: usize = 0;
    while i < buffer.len() && i < framebuffer.len()
        invariant
            i <= framebuffer@.len(),
            i <= buffer@.len(),
            buffer@.len() == before.len(),
            forall|k: int| 0 <= k < i ==> buffer@[k] == palette(framebuffer@[k]),
            forall|k: int| i <= k < before.len() ==> buffer@[k] == before[k],
        decreases framebuffer@.len() - i,
    {
        let color: u32 = match framebuffer[i] % 4 {
            0 => 0x9bbc0f,
            1 => 0x8bac0f,
            2 => 0x306230,
            _ => 0x0f380f,
        };
        buffer[i] = color;
        i = i + 1;
    }
    assert(buffer@ =~= Seq::new(
        before.len(),
        |i: int|
            if i < framebuffer@.len() {
                palette(framebuffer@[i])
            } else {
                before[i]
            },
    ));
}

/// The keys that stand for the eight buttons, as they are held.
pub struct HeldKeys {
    pub up: bool,
    pub down: bool,
    pub left: bool,
    pub right: bool,
    pub a: bool,
    pub b: bool,
    pub start: bool,
    pub select: bool,
}

impl HeldKeys {
    /// The keys as a mask of buttons.
    pub open spec fn mask(self) -> int {
        let weight = |held: bool, button: u8|
            if held {
                button as int
            } else {
                0
            };
        weight(self.a, BUTTON_A) + weight(self.b, BUTTON_B) + weight(self.select, BUTTON_SELECT)
            + weight(self.start, BUTTON_START) + weight(self.right, BUTTON_RIGHT) + weight(
            self.left,
            BUTTON_LEFT,
        ) + weight(self.up, BUTTON_UP) + weight(self.down, BUTTON_DOWN)
    }
}

/// The buttons that are down.
pub fn read_joypad(keys: &HeldKeys) -> (state: u8)
    ensures
        state == keys.mask(),
{
    let mut state: u8 = 0;
    if keys.a {
        state = state + BUTTON_A;
    }
    if keys.b {
        state = state + BUTTON_B;
    }
    if keys.select {
        state = state + BUTTON_SELECT;
    }
    if keys.start {
        state = state + BUTTON_START;
    }
    if keys.right {
        state = state + BUTTON_RIGHT;
    }
    if keys.left {
        state = state + BUTTON_LEFT;
    }
    if keys.up {
        state = state + BUTTON_UP;
    }
    if keys.down {
        state = state + BUTTON_DOWN;
    }
    state
}

/// How far a program has come.
pub struct Progress {
    pub total_cycles: u64,
    /// For how many steps on end PC has not moved.
    pub same_pc_count: u32,
    /// That the program spins in place: it has finished.
    pub parked: bool,
}

impl Progress {
    pub open spec fn start() -> Progress {
        Progress { total_cycles: 0, same_pc_count: 0, parked: false }
    }

    pub fn new() -> (r: Self)
        ensures
            r == Self::start(),
    {
        Self { total_cycles: 0, same_pc_count: 0, parked: false }
    }

    /// That nothing more is to be run.
    pub open spec fn over(self, locked: bool) -> bool {
        self.parked || locked || self.total_cycles >= MAX_CYCLES
    }

    /// Whether nothing more is to be run: the program has parked, the CPU has
    /// locked up, or its time is up.
    pub fn is_over(&self, locked: bool) -> (r: bool)
        ensures
            r == self.over(locked),
    {
        self.parked || locked || self.total_cycles >= MAX_CYCLES
    }

    /// After a step that took `cycles` and went from `before` to `after`.
    pub open spec fn stepped(self, cycles: u8, before: u16, after: u16, halted: bool) -> Progress {
        let still = !halted && before == after;
        let count = if !still {
            0
        } else if self.same_pc_count == u32::MAX {
            u32::MAX
        } else {
            (self.same_pc_count + 1) as u32
        };
        Progress {
            total_cycles: (self.total_cycles + cycles) as u64,
            same_pc_count: count,
            parked: self.parked || count >= PARK_STEPS,
        }
    }

    /// Take note of a step. A program whose PC stays in place for long, with
    /// the CPU not halted, has parked; one that waits there for a while only
    /// has not.
    pub fn note_step(&mut self, cycles: u8, before: u16, after: u16, halted: bool)
        requires
            old(self).total_cycles < MAX_CYCLES,
        ensures
            *final(self) == old(self).stepped(cycles, before, after, halted),
    {
        self.total_cycles = self.total_cycles + cycles as u64;
        if !halted && before == after {
            if self.same_pc_count < u32::MAX {
                self.same_pc_count = self.same_pc_count + 1;
            }
            if self.same_pc_count >= PARK_STEPS {
                self.parked = true;
            }
        } else {
            self.same_pc_count = 0;
        }
    }

    /// Run one step of the CPU, unless the program is over. Returns whether
    /// one was run.
    pub fn advance<B: Bus>(&mut self, cpu: &mut Cpu, bus: &mut B) -> (ran: bool)
        ensures
            ran == !old(self).over(old(cpu)@.locked),
            ran ==> ({
                let m = Machine::<B>::of(old(cpu)@, old(bus).state()).step();
                &&& final(cpu)@ == m.cpu
                &&& final(bus).state() == m.bus
                &&& 4 <= m.elapsed <= 24
                &&& *final(self) == old(self).stepped(
                    m.elapsed as u8,
                    old(cpu)@.pc,
                    m.cpu.pc,
                    m.cpu.halted,
                )
            }),
            !ran ==> *final(self) == *old(self) && *final(cpu) == *old(cpu) && *final(bus) == *old(
                bus,
            ),
    {
        if self.is_over(cpu.locked) {
            return false;
        }
        proof {
            crate::cpu_laws::law_step_takes_one_to_six_mcycles(
                Machine::<B>::of(cpu@, bus.state()),
            );
        }
        let before: u16 = cpu.pc;
        let cycles: u8 = cpu.step(bus);
        self.note_step(cycles, before, cpu.pc, cpu.halted);
        true
    }
}

impl Default for Progress {
    fn default() -> (r: Self)
        ensures
            r == Self::start(),
    {
        Self::new()
    }
}

/// When the next frame is due, and how long to wait before this one is shown,
/// with `now` and `deadline` in nanoseconds. Early, the rest of the time is
/// waited out; late by more than a frame, the beat starts anew from now.
pub open spec fn pacing(now: int, deadline: int) -> (int, int) {
    if now < deadline {
        (deadline - now, deadline + FRAME_NANOS)
    } else if now - deadline > FRAME_NANOS {
        (0, now + FRAME_NANOS)
    } else {
        (0, deadline + FRAME_NANOS)
    }
}

/// The wait before this frame, and the deadline of the next.
pub fn pace(now: u64, deadline: u64) -> (r: (u64, u64))
    requires
        now <= u64::MAX - FRAME_NANOS,
        deadline <= u64::MAX - FRAME_NANOS,
    ensures
        (r.0 as int, r.1 as int) == pacing(now as int, deadline as int),
{
    if now < deadline {
        (deadline - now, deadline + FRAME_NANOS)
    } else if now - deadline > FRAME_NANOS {
        (0, now + FRAME_NANOS)
    } else {
        (0, deadline + FRAME_NANOS)
    }
}

/// An entry of OAM, with the position on the screen that it stands for.
#[derive(Debug, Copy, Clone, PartialEq, Eq, Structural)]
pub struct OamEntry {
    pub index: u8,
    pub y: u8,
    pub x: u8,
    pub tile: u8,
    pub attr: u8,
    pub screen_y: i16,
    pub screen_x: i16,
}

/// Entry `i` of OAM.
pub open spec fn oam_entry<B: Bus>(s: B::State, i: int) -> OamEntry {
    let y = B::read_of(s, (0xfe00 + i * 4) as u16);
    let x = B::read_of(s, (0xfe00 + i * 4 + 1) as u16);
    OamEntry {
        index: i as u8,
        y,
        x,
        tile: B::read_of(s, (0xfe00 + i * 4 + 2) as u16),
        attr: B::read_of(s, (0xfe00 + i * 4 + 3) as u16),
        screen_y: (y - 16) as i16,
        screen_x: (x - 8) as i16,
    }
}

impl OamEntry {
    pub open spec fn is_zero(self) -> bool {
        self.y == 0 && self.x == 0 && self.tile == 0 && self.attr == 0
    }
}

/// Those of the first `n` entries of OAM that are not all zero.
pub open spec fn used_entries<B: Bus>(s: B::State, n: int) -> Seq<OamEntry>
    decreases n,
{
    if n <= 0 {
        Seq::empty()
    } else if oam_entry::<B>(s, n - 1).is_zero() {
        used_entries::<B>(s, n - 1)
    } else {
        used_entries::<B>(s, n - 1).push(oam_entry::<B>(s, n - 1))
    }
}

/// The entries of OAM that are not all zero, for a dump.
pub fn used_oam<B: Bus>(bus: &B) -> (r: Vec<OamEntry>)
    ensures
        r@ == used_entries::<B>(bus.state(), 40),
{
    let mut r: Vec<OamEntry> = Vec::new();
    let mut i: u16 = 0;
    while i < 40
        invariant
            i <= 40,
            r@ == used_entries::<B>(bus.state(), i as int),
        decreases 40 - i,
    {
        let base: u16 = 0xfe00 + i * 4;
        let y: u8 = bus.read8(base);
        let x: u8 = bus.read8(base + 1);
        let tile: u8 = bus.read8(base + 2);
        let attr: u8 = bus.read8(base + 3);
        if !(y == 0 && x == 0 && tile == 0 && attr == 0) {
            r.push(
                OamEntry {
                    index: i as u8,
                    y,
                    x,
                    tile,
                    attr,
                    screen_y: y as i16 - 16,
                    screen_x: x as i16 - 8,
                },
            );
        }
        i = i + 1;
    }
    r
}

/// A program that spins in place is parked after a million steps, and not
/// before.
pub proof fn law_parks_after_many_still_steps(p: Progress, cycles: u8, pc: u16)
    requires
        !p.parked,
        p.same_pc_count < PARK_STEPS,
    ensures
        p.stepped(cycles, pc, pc, false).parked <==> p.same_pc_count + 1 == PARK_STEPS,
        !p.stepped(cycles, pc, pc, true).parked,
        p.stepped(cycles, pc, pc, true).same_pc_count == 0,
{
}

/// A frame is never shown before its deadline, and the next is due a frame
/// after it, or after now where that was long past.
pub proof fn law_pacing_keeps_the_beat(now: int, deadline: int)
    ensures
        now + pacing(now, deadline).0 >= deadline,
        pacing(now, deadline).1 == deadline + FRAME_NANOS || (now > deadline + FRAME_NANOS
            && pacing(now, deadline).1 == now + FRAME_NANOS),
{
}

// ----- in numbers -----

/// The four shades of green; of a pixel the low two bits count.
pub proof fn law_palette_in_numbers(shade: u8)
    ensures
        shade as int % 4 == 0 ==> palette(shade) == 0x9bbc0f,
        shade as int % 4 == 1 ==> palette(shade) == 0x8bac0f,
        shade as int % 4 == 2 ==> palette(shade) == 0x306230,
        shade as int % 4 == 3 ==> palette(shade) == 0x0f380f,
{
}

/// A bit for each key: from bit 0 on A, B, select, start, right, left, up and
/// down.
pub proof fn law_keys_bit_by_bit(keys: HeldKeys)
    ensures
        0 <= keys.mask() < 256,
        crate::bits::has_bit(keys.mask() as u8, 0) == keys.a,
        crate::bits::has_bit(keys.mask() as u8, 1) == keys.b,
        crate::bits::has_bit(keys.mask() as u8, 2) == keys.select,
        crate::bits::has_bit(keys.mask() as u8, 3) == keys.start,
        crate::bits::has_bit(keys.mask() as u8, 4) == keys.right,
        crate::bits::has_bit(keys.mask() as u8, 5) == keys.left,
        crate::bits::has_bit(keys.mask() as u8, 6) == keys.up,
        crate::bits::has_bit(keys.mask() as u8, 7) == keys.down,
{
    crate::bits::lemma_eight_weights(
        keys.a,
        keys.b,
        keys.select,
        keys.start,
        keys.right,
        keys.left,
        keys.up,
        keys.down,
    );
}

/// The registers after the boot ROM, in numbers.
pub proof fn law_registers_after_boot()
    ensures
        post_boot_state().a == 0x01,
        post_boot_state().f.packed() == 0xb0,
        post_boot_state().b == 0x00,
        post_boot_state().c == 0x13,
        post_boot_state().d == 0x00,
        post_boot_state().e == 0xd8,
        post_boot_state().h == 0x01,
        post_boot_state().l == 0x4d,
        post_boot_state().sp == 0xfffe,
        post_boot_state().pc == 0x0100,
        !post_boot_state().halted,
        !post_boot_state().locked,
{
}

/// A step adds its cycles; a step in place, not halted, adds one to the count
/// of such steps, and any other starts it again. At a million the program has
/// parked, for good.
pub proof fn law_progress_in_numbers(
    p: Progress,
    cycles: u8,
    before: u16,
    after: u16,
    halted: bool,
    locked: bool,
)
    requires
        p.total_cycles < 2_000_000_000,
        p.same_pc_count < 1_000_000,
    ensures
        ({
            let q = p.stepped(cycles, before, after, halted);
            &&& q.total_cycles == p.total_cycles + cycles
            &&& before == after && !halted ==> q.same_pc_count == p.same_pc_count + 1
            &&& before != after || halted ==> q.same_pc_count == 0
            &&& q.parked <==> p.parked || q.same_pc_count >= 1_000_000
            &&& q.over(locked) <==> q.parked || locked || q.total_cycles >= 2_000_000_000
        }),
        Progress::start().total_cycles == 0,
        Progress::start().same_pc_count == 0,
        !Progress::start().parked,
{
}

/// A frame is 70224 T-cycles at 4194304 in a second, to the nanosecond. Early,
/// the wait is exactly what is left to the deadline; late, there is none. The
/// next deadline is a frame after this one, or after now where that is itself
/// past.
pub proof fn law_pacing_in_numbers(now: int, deadline: int)
    ensures
        FRAME_NANOS * 4194304 <= 70224 * 1_000_000_000 < (FRAME_NANOS + 1) * 4194304,
        pacing(now, deadline).0 == (if now < deadline {
            deadline - now
        } else {
            0
        }),
        pacing(now, deadline).1 == (if now <= deadline + FRAME_NANOS {
            deadline + FRAME_NANOS
        } else {
            now + FRAME_NANOS
        }),
{
}

/// The dump of OAM: an entry is in it just where one of its four bytes is not
/// zero, once, in order, with its bytes as they stand and its position 16 above
/// and 8 to the left of the first two.
pub proof fn law_dump_of_oam<B: Bus>(s: B::State, i: int, n: int)
    requires
        0 <= i < n <= 40,
    ensures
        ({
            let dump = used_entries::<B>(s, n);
            let y = B::read_of(s, (0xfe00 + 4 * i) as u16);
            let x = B::read_of(s, (0xfe01 + 4 * i) as u16);
            let tile = B::read_of(s, (0xfe02 + 4 * i) as u16);
            let attr = B::read_of(s, (0xfe03 + 4 * i) as u16);
            &&& (exists|k: int| 0 <= k < dump.len() && (#[trigger] dump[k]).index == i) <==> y != 0
                || x != 0 || tile != 0 || attr != 0
            &&& forall|k: int|
                0 <= k < dump.len() && (#[trigger] dump[k]).index == i ==> dump[k] == (OamEntry {
                    index: i as u8,
                    y,
                    x,
                    tile,
                    attr,
                    screen_y: (y - 16) as i16,
                    screen_x: (x - 8) as i16,
                })
            &&& forall|k: int, l: int|
                0 <= k < l < dump.len() ==> (#[trigger] dump[k]).index < (#[trigger] dump[l]).index
        }),
{
    lemma_dump_of_oam::<B>(s, n);
    let dump = used_entries::<B>(s, n);
    if !oam_entry::<B>(s, i).is_zero() {
        assert(dump.contains(oam_entry::<B>(s, i)));
        let k = choose|k: int| 0 <= k < dump.len() && dump[k] == oam_entry::<B>(s, i);
        assert(dump[k].index == i);
    }
}

proof fn lemma_dump_of_oam<B: Bus>(s: B::State, n: int)
    requires
        0 <= n <= 40,
    ensures
        ({
            let dump = used_entries::<B>(s, n);
            &&& forall|i: int|
                0 <= i < n && !(#[trigger] oam_entry::<B>(s, i)).is_zero() ==> dump.contains(
                    oam_entry::<B>(s, i),
                )
            &&& forall|k: int|
                0 <= k < dump.len() ==> (#[trigger] dump[k]).index < n && !dump[k].is_zero()
                    && dump[k] == oam_entry::<B>(s, dump[k].index as int)
            &&& forall|k: int, l: int|
                0 <= k < l < dump.len() ==> (#[trigger] dump[k]).index < (#[trigger] dump[l]).index
        }),
    decreases n,
{
    if n > 0 {
        lemma_dump_of_oam::<B>(s, n - 1);
        let before = used_entries::<B>(s, n - 1);
        let dump = used_entries::<B>(s, n);
        assert forall|i: int|
            0 <= i < n && !(#[trigger] oam_entry::<B>(s, i)).is_zero() implies dump.contains(
            oam_entry::<B>(s, i),
        ) by {
            if i == n - 1 {
                assert(dump[before.len() as int] == oam_entry::<B>(s, i));
            } else {
                let k = choose|k: int| 0 <= k < before.len() && before[k] == oam_entry::<B>(s, i);
                assert(dump[k] == oam_entry::<B>(s, i));
            }
        }
    }
}

} // verus!
