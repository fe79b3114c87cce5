//! In which order an instruction ticks the bus and accesses it, on any bus:
//! what a clocked part sees of each instruction.

use crate::bus::Bus;
use crate::isa::{CpuState, Machine};
use vstd::prelude::*;

verus! {

/// One M-cycle, as the bus sees it.
pub open spec fn idle<B: Bus>(s: B::State) -> B::State {
    B::after_tick(s, 4)
}

/// A read in an M-cycle.
pub open spec fn reading<B: Bus>(s: B::State, addr: u16) -> B::State {
    B::after_read_cpu(B::after_tick(s, 4), addr)
}

/// The byte that it yields.
pub open spec fn byte_read<B: Bus>(s: B::State, addr: u16) -> u8 {
    B::read_cpu_of(B::after_tick(s, 4), addr)
}

/// A write in an M-cycle.
pub open spec fn writing<B: Bus>(s: B::State, addr: u16, value: u8) -> B::State {
    B::after_write_cpu(B::after_tick(s, 4), addr, value)
}

/// The address `n` away, going round.
pub open spec fn away(addr: u16, n: int) -> u16 {
    ((addr + n) % 65536) as u16
}

/// Two bytes at PC and after it.
pub open spec fn two_read<B: Bus>(s: B::State, pc: u16) -> B::State {
    reading::<B>(reading::<B>(s, pc), away(pc, 1))
}

/// The word that they make.
pub open spec fn word_read<B: Bus>(s: B::State, pc: u16) -> u16 {
    (byte_read::<B>(s, pc) + 256 * byte_read::<B>(reading::<B>(s, pc), away(pc, 1))) as u16
}

/// A push: SP exposed, the high byte, the low byte, an M-cycle each.
pub open spec fn pushing<B: Bus>(s: B::State, sp: u16, w: u16) -> B::State {
    let exposed = B::after_idu_glitch(B::after_tick(s, 4), sp);
    two_pushed::<B>(exposed, sp, w)
}

/// The two writes of a push.
pub open spec fn two_pushed<B: Bus>(s: B::State, sp: u16, w: u16) -> B::State {
    let high = B::after_write_cpu_idu(B::after_tick(s, 4), away(sp, -1), (w / 256) as u8, sp);
    B::after_write_cpu_idu(B::after_tick(high, 4), away(sp, -2), (w % 256) as u8, away(sp, -1))
}

/// The two reads of a pop.
pub open spec fn two_popped<B: Bus>(s: B::State, sp: u16) -> B::State {
    reading::<B>(reading::<B>(s, sp), away(sp, 1))
}

/// Whether condition NZ, Z, NC or C, as an opcode names it, holds.
pub open spec fn met(cpu: CpuState, opcode: u8) -> bool {
    if (opcode as int / 8) % 4 == 0 {
        !cpu.f.z
    } else if (opcode as int / 8) % 4 == 1 {
        cpu.f.z
    } else if (opcode as int / 8) % 4 == 2 {
        !cpu.f.c
    } else {
        cpu.f.c
    }
}

/// RET and RETI pop and then idle; RET with a condition idles first, and does
/// no more where the condition fails.
pub proof fn law_order_of_returns<B: Bus>(m: Machine<B>)
    requires
        !m.cpu.halt_bug,
    ensures
        m.execute(0xc9).bus == idle::<B>(two_popped::<B>(m.bus, m.cpu.sp)),
        m.execute(0xd9).bus == idle::<B>(two_popped::<B>(m.bus, m.cpu.sp)),
        m.execute(0xc0).bus == (if met(m.cpu, 0xc0) {
            idle::<B>(two_popped::<B>(idle::<B>(m.bus), m.cpu.sp))
        } else {
            idle::<B>(m.bus)
        }),
        m.execute(0xc8).bus == (if met(m.cpu, 0xc8) {
            idle::<B>(two_popped::<B>(idle::<B>(m.bus), m.cpu.sp))
        } else {
            idle::<B>(m.bus)
        }),
        m.execute(0xd0).bus == (if met(m.cpu, 0xd0) {
            idle::<B>(two_popped::<B>(idle::<B>(m.bus), m.cpu.sp))
        } else {
            idle::<B>(m.bus)
        }),
        m.execute(0xd8).bus == (if met(m.cpu, 0xd8) {
            idle::<B>(two_popped::<B>(idle::<B>(m.bus), m.cpu.sp))
        } else {
            idle::<B>(m.bus)
        }),
{
}

/// CALL reads its target and then pushes, with SP exposed first; where its
/// condition fails it only reads. RST pushes alone.
pub proof fn law_order_of_calls<B: Bus>(m: Machine<B>)
    requires
        !m.cpu.halt_bug,
    ensures
        m.execute(0xcd).bus == pushing::<B>(
            two_read::<B>(m.bus, m.cpu.pc),
            m.cpu.sp,
            away(m.cpu.pc, 2),
        ),
        m.execute(0xcd).cpu.pc == word_read::<B>(m.bus, m.cpu.pc),
        m.execute(0xc4).bus == (if met(m.cpu, 0xc4) {
            pushing::<B>(two_read::<B>(m.bus, m.cpu.pc), m.cpu.sp, away(m.cpu.pc, 2))
        } else {
            two_read::<B>(m.bus, m.cpu.pc)
        }),
        m.execute(0xcc).bus == (if met(m.cpu, 0xcc) {
            pushing::<B>(two_read::<B>(m.bus, m.cpu.pc), m.cpu.sp, away(m.cpu.pc, 2))
        } else {
            two_read::<B>(m.bus, m.cpu.pc)
        }),
        m.execute(0xd4).bus == (if met(m.cpu, 0xd4) {
            pushing::<B>(two_read::<B>(m.bus, m.cpu.pc), m.cpu.sp, away(m.cpu.pc, 2))
        } else {
            two_read::<B>(m.bus, m.cpu.pc)
        }),
        m.execute(0xdc).bus == (if met(m.cpu, 0xdc) {
            pushing::<B>(two_read::<B>(m.bus, m.cpu.pc), m.cpu.sp, away(m.cpu.pc, 2))
        } else {
            two_read::<B>(m.bus, m.cpu.pc)
        }),
        m.execute(0xc7).bus == pushing::<B>(m.bus, m.cpu.sp, m.cpu.pc),
        m.execute(0xcf).bus == pushing::<B>(m.bus, m.cpu.sp, m.cpu.pc),
        m.execute(0xd7).bus == pushing::<B>(m.bus, m.cpu.sp, m.cpu.pc),
        m.execute(0xdf).bus == pushing::<B>(m.bus, m.cpu.sp, m.cpu.pc),
        m.execute(0xe7).bus == pushing::<B>(m.bus, m.cpu.sp, m.cpu.pc),
        m.execute(0xef).bus == pushing::<B>(m.bus, m.cpu.sp, m.cpu.pc),
        m.execute(0xf7).bus == pushing::<B>(m.bus, m.cpu.sp, m.cpu.pc),
        m.execute(0xff).bus == pushing::<B>(m.bus, m.cpu.sp, m.cpu.pc),
{
}

/// A jump reads its operand and, where it is taken, idles. JP HL does neither.
pub proof fn law_order_of_jumps<B: Bus>(m: Machine<B>)
    requires
        !m.cpu.halt_bug,
    ensures
        m.execute(0xc3).bus == idle::<B>(two_read::<B>(m.bus, m.cpu.pc)),
        m.execute(0xc3).cpu.pc == word_read::<B>(m.bus, m.cpu.pc),
        m.execute(0x18).bus == idle::<B>(reading::<B>(m.bus, m.cpu.pc)),
        m.execute(0xe9).bus == m.bus,
        m.execute(0xc2).bus == (if met(m.cpu, 0xc2) {
            idle::<B>(two_read::<B>(m.bus, m.cpu.pc))
        } else {
            two_read::<B>(m.bus, m.cpu.pc)
        }),
        m.execute(0xca).bus == (if met(m.cpu, 0xca) {
            idle::<B>(two_read::<B>(m.bus, m.cpu.pc))
        } else {
            two_read::<B>(m.bus, m.cpu.pc)
        }),
        m.execute(0xd2).bus == (if met(m.cpu, 0xd2) {
            idle::<B>(two_read::<B>(m.bus, m.cpu.pc))
        } else {
            two_read::<B>(m.bus, m.cpu.pc)
        }),
        m.execute(0xda).bus == (if met(m.cpu, 0xda) {
            idle::<B>(two_read::<B>(m.bus, m.cpu.pc))
        } else {
            two_read::<B>(m.bus, m.cpu.pc)
        }),
        m.execute(0x20).bus == (if met(m.cpu, 0x20) {
            idle::<B>(reading::<B>(m.bus, m.cpu.pc))
        } else {
            reading::<B>(m.bus, m.cpu.pc)
        }),
        m.execute(0x28).bus == (if met(m.cpu, 0x28) {
            idle::<B>(reading::<B>(m.bus, m.cpu.pc))
        } else {
            reading::<B>(m.bus, m.cpu.pc)
        }),
        m.execute(0x30).bus == (if met(m.cpu, 0x30) {
            idle::<B>(reading::<B>(m.bus, m.cpu.pc))
        } else {
            reading::<B>(m.bus, m.cpu.pc)
        }),
        m.execute(0x38).bus == (if met(m.cpu, 0x38) {
            idle::<B>(reading::<B>(m.bus, m.cpu.pc))
        } else {
            reading::<B>(m.bus, m.cpu.pc)
        }),
{
}

/// PUSH exposes SP and writes twice, POP reads twice.
pub proof fn law_order_of_stack_operations<B: Bus>(m: Machine<B>)
    requires
        !m.cpu.halt_bug,
    ensures
        m.execute(0xc5).bus == pushing::<B>(m.bus, m.cpu.sp, (m.cpu.b * 256 + m.cpu.c) as u16),
        m.execute(0xd5).bus == pushing::<B>(m.bus, m.cpu.sp, (m.cpu.d * 256 + m.cpu.e) as u16),
        m.execute(0xe5).bus == pushing::<B>(m.bus, m.cpu.sp, (m.cpu.h * 256 + m.cpu.l) as u16),
        m.execute(0xf5).bus == pushing::<B>(m.bus, m.cpu.sp, (m.cpu.a * 256 + m.cpu.f.packed()) as u16),
        m.execute(0xc1).bus == two_popped::<B>(m.bus, m.cpu.sp),
        m.execute(0xd1).bus == two_popped::<B>(m.bus, m.cpu.sp),
        m.execute(0xe1).bus == two_popped::<B>(m.bus, m.cpu.sp),
        m.execute(0xf1).bus == two_popped::<B>(m.bus, m.cpu.sp),
{
}

/// The arithmetic of words idles once, ADD SP twice after its operand. LD (nn),
/// SP reads its operand and writes the low byte, then the high one.
pub proof fn law_order_of_word_operations<B: Bus>(m: Machine<B>)
    requires
        !m.cpu.halt_bug,
    ensures
        m.execute(0x09).bus == idle::<B>(m.bus),
        m.execute(0x19).bus == idle::<B>(m.bus),
        m.execute(0x29).bus == idle::<B>(m.bus),
        m.execute(0x39).bus == idle::<B>(m.bus),
        m.execute(0xf9).bus == idle::<B>(m.bus),
        m.execute(0xe8).bus == idle::<B>(idle::<B>(reading::<B>(m.bus, m.cpu.pc))),
        m.execute(0xf8).bus == idle::<B>(reading::<B>(m.bus, m.cpu.pc)),
        m.execute(0x08).bus == writing::<B>(
            writing::<B>(
                two_read::<B>(m.bus, m.cpu.pc),
                word_read::<B>(m.bus, m.cpu.pc),
                (m.cpu.sp % 256) as u8,
            ),
            away(word_read::<B>(m.bus, m.cpu.pc), 1),
            (m.cpu.sp / 256) as u8,
        ),
        m.execute(0x01).bus == two_read::<B>(m.bus, m.cpu.pc),
        m.execute(0x11).bus == two_read::<B>(m.bus, m.cpu.pc),
        m.execute(0x21).bus == two_read::<B>(m.bus, m.cpu.pc),
        m.execute(0x31).bus == two_read::<B>(m.bus, m.cpu.pc),
        m.execute(0x03).bus == B::after_idu_glitch(B::after_tick(m.bus, 4), (m.cpu.b * 256 + m.cpu.c) as u16),
        m.execute(0x0b).bus == B::after_idu_glitch(B::after_tick(m.bus, 4), (m.cpu.b * 256 + m.cpu.c) as u16),
        m.execute(0x13).bus == B::after_idu_glitch(B::after_tick(m.bus, 4), (m.cpu.d * 256 + m.cpu.e) as u16),
        m.execute(0x1b).bus == B::after_idu_glitch(B::after_tick(m.bus, 4), (m.cpu.d * 256 + m.cpu.e) as u16),
        m.execute(0x23).bus == B::after_idu_glitch(B::after_tick(m.bus, 4), (m.cpu.h * 256 + m.cpu.l) as u16),
        m.execute(0x2b).bus == B::after_idu_glitch(B::after_tick(m.bus, 4), (m.cpu.h * 256 + m.cpu.l) as u16),
        m.execute(0x33).bus == B::after_idu_glitch(B::after_tick(m.bus, 4), m.cpu.sp),
        m.execute(0x3b).bus == B::after_idu_glitch(B::after_tick(m.bus, 4), m.cpu.sp),
{
}

/// Loads of A read their operand, then access memory once; the two that step HL
/// expose it to the increment unit.
pub proof fn law_order_of_loads_of_a<B: Bus>(m: Machine<B>)
    requires
        !m.cpu.halt_bug,
    ensures
        m.execute(0x02).bus == writing::<B>(m.bus, (m.cpu.b * 256 + m.cpu.c) as u16, m.cpu.a),
        m.execute(0x12).bus == writing::<B>(m.bus, (m.cpu.d * 256 + m.cpu.e) as u16, m.cpu.a),
        m.execute(0x0a).bus == reading::<B>(m.bus, (m.cpu.b * 256 + m.cpu.c) as u16),
        m.execute(0x0a).cpu.a == byte_read::<B>(m.bus, (m.cpu.b * 256 + m.cpu.c) as u16),
        m.execute(0x1a).bus == reading::<B>(m.bus, (m.cpu.d * 256 + m.cpu.e) as u16),
        m.execute(0x1a).cpu.a == byte_read::<B>(m.bus, (m.cpu.d * 256 + m.cpu.e) as u16),
        m.execute(0x22).bus == B::after_write_cpu_idu(
            B::after_tick(m.bus, 4),
            (m.cpu.h * 256 + m.cpu.l) as u16,
            m.cpu.a,
            (m.cpu.h * 256 + m.cpu.l) as u16,
        ),
        m.execute(0x32).bus == B::after_write_cpu_idu(
            B::after_tick(m.bus, 4),
            (m.cpu.h * 256 + m.cpu.l) as u16,
            m.cpu.a,
            (m.cpu.h * 256 + m.cpu.l) as u16,
        ),
        m.execute(0x2a).bus == B::after_read_cpu_idu(
            B::after_tick(m.bus, 4),
            (m.cpu.h * 256 + m.cpu.l) as u16,
            (m.cpu.h * 256 + m.cpu.l) as u16,
        ),
        m.execute(0x3a).bus == B::after_read_cpu_idu(
            B::after_tick(m.bus, 4),
            (m.cpu.h * 256 + m.cpu.l) as u16,
            (m.cpu.h * 256 + m.cpu.l) as u16,
        ),
        m.execute(0x2a).cpu.a == B::read_cpu_idu_of(
            B::after_tick(m.bus, 4),
            (m.cpu.h * 256 + m.cpu.l) as u16,
            (m.cpu.h * 256 + m.cpu.l) as u16,
        ),
        m.execute(0x3a).cpu.a == B::read_cpu_idu_of(
            B::after_tick(m.bus, 4),
            (m.cpu.h * 256 + m.cpu.l) as u16,
            (m.cpu.h * 256 + m.cpu.l) as u16,
        ),
        m.execute(0xe0).bus == writing::<B>(
            reading::<B>(m.bus, m.cpu.pc),
            (0xff00 + byte_read::<B>(m.bus, m.cpu.pc)) as u16,
            m.cpu.a,
        ),
        m.execute(0xf0).bus == reading::<B>(
            reading::<B>(m.bus, m.cpu.pc),
            (0xff00 + byte_read::<B>(m.bus, m.cpu.pc)) as u16,
        ),
        m.execute(0xf0).cpu.a == byte_read::<B>(
            reading::<B>(m.bus, m.cpu.pc),
            (0xff00 + byte_read::<B>(m.bus, m.cpu.pc)) as u16,
        ),
        m.execute(0xe2).bus == writing::<B>(m.bus, (0xff00 + m.cpu.c) as u16, m.cpu.a),
        m.execute(0xf2).bus == reading::<B>(m.bus, (0xff00 + m.cpu.c) as u16),
        m.execute(0xea).bus == writing::<B>(
            two_read::<B>(m.bus, m.cpu.pc),
            word_read::<B>(m.bus, m.cpu.pc),
            m.cpu.a,
        ),
        m.execute(0xfa).bus == reading::<B>(
            two_read::<B>(m.bus, m.cpu.pc),
            word_read::<B>(m.bus, m.cpu.pc),
        ),
        m.execute(0xfa).cpu.a == byte_read::<B>(
            two_read::<B>(m.bus, m.cpu.pc),
            word_read::<B>(m.bus, m.cpu.pc),
        ),
{
}

/// INC (HL), DEC (HL) and the rotations and bit operations on (HL) read the
/// byte and write it back in the next M-cycle; BIT on (HL) only reads it. LD
/// (HL), n reads its operand first.
pub proof fn law_order_of_memory_operands<B: Bus>(m: Machine<B>)
    requires
        !m.cpu.halt_bug,
    ensures
        m.execute(0x34).bus == writing::<B>(
            reading::<B>(m.bus, (m.cpu.h * 256 + m.cpu.l) as u16),
            (m.cpu.h * 256 + m.cpu.l) as u16,
            ((byte_read::<B>(m.bus, (m.cpu.h * 256 + m.cpu.l) as u16) + 1) % 256) as u8,
        ),
        m.execute(0x35).bus == writing::<B>(
            reading::<B>(m.bus, (m.cpu.h * 256 + m.cpu.l) as u16),
            (m.cpu.h * 256 + m.cpu.l) as u16,
            ((byte_read::<B>(m.bus, (m.cpu.h * 256 + m.cpu.l) as u16) + 255) % 256) as u8,
        ),
        m.execute(0x36).bus == writing::<B>(
            reading::<B>(m.bus, m.cpu.pc),
            (m.cpu.h * 256 + m.cpu.l) as u16,
            byte_read::<B>(m.bus, m.cpu.pc),
        ),
        exists|v: u8|
            m.execute(0xcb).bus == (if byte_read::<B>(m.bus, m.cpu.pc) as int % 8 != 6 {
                reading::<B>(m.bus, m.cpu.pc)
            } else if 0x40 <= byte_read::<B>(m.bus, m.cpu.pc) < 0x80 {
                reading::<B>(reading::<B>(m.bus, m.cpu.pc), (m.cpu.h * 256 + m.cpu.l) as u16)
            } else {
                #[trigger] writing::<B>(
                    reading::<B>(reading::<B>(m.bus, m.cpu.pc), (m.cpu.h * 256 + m.cpu.l) as u16),
                    (m.cpu.h * 256 + m.cpu.l) as u16,
                    v,
                )
            }),
{
    let opcode = byte_read::<B>(m.bus, m.cpu.pc);
    let fetched = m.fetch8().0;
    assert(fetched.bus == reading::<B>(m.bus, m.cpu.pc));
    let hl = (m.cpu.h * 256 + m.cpu.l) as u16;
    let b = byte_read::<B>(fetched.bus, hl);
    let y = (opcode / 8) % 8;
    let v = if opcode < 0x40 {
        m.cpu.rotated(y as int, b)
    } else if opcode < 0xc0 {
        b & !(1u8 << y)
    } else {
        b | (1u8 << y)
    };
    assert(writing::<B>(reading::<B>(fetched.bus, hl), hl, v) == B::after_write_cpu(
        B::after_tick(reading::<B>(fetched.bus, hl), 4),
        hl,
        v,
    ));
    assert(m.execute(0xcb) == m.execute_cb());
}

/// Taking an interrupt: three M-cycles go by, then PC is pushed; only then IF
/// and IE are looked at.
pub proof fn law_order_of_interrupts<B: Bus>(m: Machine<B>)
    requires
        !m.cpu.locked,
        m.cpu.ime,
        m.pending() != 0,
    ensures
        ({
            let waited = idle::<B>(idle::<B>(idle::<B>(m.bus)));
            let pushed = two_pushed::<B>(waited, m.cpu.sp, m.cpu.pc);
            let lines = B::read_of(pushed, 0xff0f) & B::read_of(pushed, 0xffff) & 0x1f;
            &&& lines == 0 ==> m.step().bus == pushed && m.step().cpu.pc == 0
            &&& lines != 0 ==> exists|k: u8|
                k < 5 && #[trigger] crate::bits::has_bit(lines, k) && (forall|j: u8|
                    j < k ==> !#[trigger] crate::bits::has_bit(lines, j)) && m.step().cpu.pc == 0x40
                    + 8 * k && m.step().bus == B::after_write(
                    pushed,
                    0xff0f,
                    B::read_of(pushed, 0xff0f) & !(1u8 << k),
                )
        }),
{
    let waited = idle::<B>(idle::<B>(idle::<B>(m.bus)));
    let pushed = two_pushed::<B>(waited, m.cpu.sp, m.cpu.pc);
    assert(crate::cpu_laws::settling(m).bus == pushed);
    let lines = B::read_of(pushed, 0xff0f) & B::read_of(pushed, 0xffff) & 0x1f;
    if lines != 0 {
        let k = crate::isa::lowest_line(lines);
        crate::bits::lemma_masks_are_bits(lines);
        crate::bits::lemma_five_lines(B::read_of(pushed, 0xff0f), B::read_of(pushed, 0xffff));
        assert(crate::bits::has_bit(lines, k));
        assert forall|j: u8| j < k implies !#[trigger] crate::bits::has_bit(lines, j) by {
            assert(j == 0 || j == 1 || j == 2 || j == 3);
        }
    }
}

/// An instruction's first M-cycle reads the opcode at PC; a CPU that is locked,
/// or halted with nothing pending, only lets an M-cycle go by.
pub proof fn law_order_of_a_step<B: Bus>(m: Machine<B>)
    requires
        !m.cpu.halt_bug,
    ensures
        m.cpu.locked || (m.cpu.halted && m.pending() == 0) ==> m.step().bus == idle::<B>(m.bus)
            && m.step().cpu == m.cpu,
        !m.cpu.locked && !m.cpu.halted && (!m.cpu.ime || m.pending() == 0) ==> m.step().bus == (
        Machine::<B> {
            cpu: CpuState { pc: away(m.cpu.pc, 1), ..m.cpu },
            bus: reading::<B>(m.bus, m.cpu.pc),
            elapsed: m.elapsed + 4,
        }).execute(byte_read::<B>(m.bus, m.cpu.pc)).bus,
{
}

} // verus!
