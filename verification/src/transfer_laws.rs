//! Loads, 16-bit arithmetic and control flow, opcode by opcode
//!
//! Stated as in [`crate::instruction_laws`]: after the opcode fetch, in flat
//! memory where memory is involved, with times beyond the fetch.

use crate::bus::Bus;
use crate::flags::FlagState;
use crate::isa::{CpuState, Machine};
use crate::memory::Memory;
use vstd::prelude::*;

verus! {

/// `m` with these registers, `time` T-cycles on.
pub open spec fn with_regs(m: Machine<Memory>, cpu: CpuState, time: int) -> Machine<Memory> {
    Machine { cpu, elapsed: m.elapsed + time, ..m }
}

/// `m` with these registers and one byte of memory written, `time` T-cycles on.
pub open spec fn with_byte(
    m: Machine<Memory>,
    cpu: CpuState,
    addr: int,
    value: u8,
    time: int,
) -> Machine<Memory> {
    Machine { cpu, bus: m.bus.update(addr, value), elapsed: m.elapsed + time }
}

/// LD r, r': the source operand is copied to the destination. Bits 5 to 3 of
/// the opcode name the destination, bits 2 to 0 the source.
pub proof fn law_load_operand<B: Bus>(m: Machine<B>, dst: u8, src: u8)
    requires
        dst < 8,
        src < 8,
        !(dst == 6 && src == 6),
    ensures
        m.execute((0x40 + 8 * dst + src) as u8) == m.operand(src as int).0.with_operand(
            dst as int,
            m.operand(src as int).1,
        ),
{
    let opcode = (0x40 + 8 * dst + src) as u8;
    assert(opcode as int % 8 == src && (opcode as int / 8) % 8 == dst);
}

/// LD r, n: the byte after the opcode goes to the operand that bits 5 to 3
/// name.
pub proof fn law_load_immediate<B: Bus>(m: Machine<B>, dst: u8)
    requires
        dst < 8,
    ensures
        m.execute((0x06 + 8 * dst) as u8) == m.fetch8().0.with_operand(dst as int, m.fetch8().1),
{
    let opcode = (0x06 + 8 * dst) as u8;
    assert(opcode as int % 8 == 6 && (opcode as int / 8) % 8 == dst);
}


/// LD A from and to memory at BC, DE, (C), (n) and (nn).
pub proof fn law_loads_of_a(m: Machine<Memory>)
    requires
        crate::instruction_laws::flat(m),
    ensures
        m.execute(0x0a) == with_regs(m, CpuState { a: m.bus[(m.cpu.b * 256 + m.cpu.c)], ..m.cpu }, 4),
        m.execute(0x1a) == with_regs(m, CpuState { a: m.bus[(m.cpu.d * 256 + m.cpu.e)], ..m.cpu }, 4),
        m.execute(0x02) == with_byte(m, m.cpu, (m.cpu.b * 256 + m.cpu.c), m.cpu.a, 4),
        m.execute(0x12) == with_byte(m, m.cpu, (m.cpu.d * 256 + m.cpu.e), m.cpu.a, 4),
        m.execute(0xf2) == with_regs(m, CpuState { a: m.bus[0xff00 + m.cpu.c], ..m.cpu }, 4),
        m.execute(0xe2) == with_byte(m, m.cpu, 0xff00 + m.cpu.c, m.cpu.a, 4),
        m.execute(0xf0) == with_regs(m, CpuState { a: m.bus[0xff00 + crate::instruction_laws::byte_past(m, 0)], pc: crate::instruction_laws::past(m.cpu.pc, 1), ..m.cpu }, 8),
        m.execute(0xe0) == with_byte(m, CpuState { pc: crate::instruction_laws::past(m.cpu.pc, 1), ..m.cpu }, 0xff00 + crate::instruction_laws::byte_past(m, 0), m.cpu.a, 8),
        m.execute(0xfa) == with_regs(m, CpuState { a: m.bus[crate::instruction_laws::word_past(m)], pc: crate::instruction_laws::past(m.cpu.pc, 2), ..m.cpu }, 12),
        m.execute(0xea) == with_byte(m, CpuState { pc: crate::instruction_laws::past(m.cpu.pc, 2), ..m.cpu }, crate::instruction_laws::word_past(m), m.cpu.a, 12),
{
}

/// LD between A and memory at HL, which then goes up or down by one.
pub proof fn law_loads_that_step_hl(m: Machine<Memory>)
    requires
        crate::instruction_laws::flat(m),
    ensures
        ({
            let hl = m.cpu.h * 256 + m.cpu.l;
            let up = if hl == 0xffff { 0 } else { hl + 1 };
            let down = if hl == 0 { 0xffff } else { hl - 1 };
            &&& m.execute(0x2a) == with_regs(m, CpuState { a: m.bus[hl], h: (up / 256) as u8, l: (up % 256) as u8, ..m.cpu }, 4)
            &&& m.execute(0x3a) == with_regs(m, CpuState { a: m.bus[hl], h: (down / 256) as u8, l: (down % 256) as u8, ..m.cpu }, 4)
            &&& m.execute(0x22) == with_byte(m, CpuState { h: (up / 256) as u8, l: (up % 256) as u8, ..m.cpu }, hl, m.cpu.a, 4)
            &&& m.execute(0x32) == with_byte(m, CpuState { h: (down / 256) as u8, l: (down % 256) as u8, ..m.cpu }, hl, m.cpu.a, 4)
        }),
{
}

/// LD rr, nn; LD SP, HL; LD (nn), SP; LD HL, SP + e.
pub proof fn law_loads_of_pairs(m: Machine<Memory>)
    requires
        crate::instruction_laws::flat(m),
    ensures
        m.execute(0x01) == with_regs(m, CpuState { b: crate::instruction_laws::byte_past(m, 1), c: crate::instruction_laws::byte_past(m, 0), pc: crate::instruction_laws::past(m.cpu.pc, 2), ..m.cpu }, 8),
        m.execute(0x11) == with_regs(m, CpuState { d: crate::instruction_laws::byte_past(m, 1), e: crate::instruction_laws::byte_past(m, 0), pc: crate::instruction_laws::past(m.cpu.pc, 2), ..m.cpu }, 8),
        m.execute(0x21) == with_regs(m, CpuState { h: crate::instruction_laws::byte_past(m, 1), l: crate::instruction_laws::byte_past(m, 0), pc: crate::instruction_laws::past(m.cpu.pc, 2), ..m.cpu }, 8),
        m.execute(0x31) == with_regs(m, CpuState { sp: crate::instruction_laws::word_past(m) as u16, pc: crate::instruction_laws::past(m.cpu.pc, 2), ..m.cpu }, 8),
        m.execute(0xf9) == with_regs(m, CpuState { sp: (m.cpu.h * 256 + m.cpu.l) as u16, ..m.cpu }, 4),
        m.execute(0x08) == with_byte(with_byte(m, CpuState { pc: crate::instruction_laws::past(m.cpu.pc, 2), ..m.cpu }, crate::instruction_laws::word_past(m), (m.cpu.sp % 256) as u8, 12), CpuState { pc: crate::instruction_laws::past(m.cpu.pc, 2), ..m.cpu }, (crate::instruction_laws::word_past(m) + 1) % 0x10000, (m.cpu.sp / 256) as u8, 4),
{
}

/// INC rr: the pair moves by one, round 0x10000, and no flag changes.
pub proof fn law_inc_of_pairs(m: Machine<Memory>)
    requires
        crate::instruction_laws::flat(m),
    ensures
        m.execute(0x03) == with_regs(m, CpuState { b: (((m.cpu.b * 256 + m.cpu.c + 1) % 0x10000) / 256) as u8, c: (((m.cpu.b * 256 + m.cpu.c + 1) % 0x10000) % 256) as u8, ..m.cpu }, 4),
        m.execute(0x13) == with_regs(m, CpuState { d: (((m.cpu.d * 256 + m.cpu.e + 1) % 0x10000) / 256) as u8, e: (((m.cpu.d * 256 + m.cpu.e + 1) % 0x10000) % 256) as u8, ..m.cpu }, 4),
        m.execute(0x23) == with_regs(m, CpuState { h: (((m.cpu.h * 256 + m.cpu.l + 1) % 0x10000) / 256) as u8, l: (((m.cpu.h * 256 + m.cpu.l + 1) % 0x10000) % 256) as u8, ..m.cpu }, 4),
        m.execute(0x33) == with_regs(m, CpuState { sp: ((m.cpu.sp + 1) % 0x10000) as u16, ..m.cpu }, 4),
{
}

/// DEC rr: the pair moves by one, round 0x10000, and no flag changes.
pub proof fn law_dec_of_pairs(m: Machine<Memory>)
    requires
        crate::instruction_laws::flat(m),
    ensures
        m.execute(0x0b) == with_regs(m, CpuState { b: (((m.cpu.b * 256 + m.cpu.c - 1) % 0x10000) / 256) as u8, c: (((m.cpu.b * 256 + m.cpu.c - 1) % 0x10000) % 256) as u8, ..m.cpu }, 4),
        m.execute(0x1b) == with_regs(m, CpuState { d: (((m.cpu.d * 256 + m.cpu.e - 1) % 0x10000) / 256) as u8, e: (((m.cpu.d * 256 + m.cpu.e - 1) % 0x10000) % 256) as u8, ..m.cpu }, 4),
        m.execute(0x2b) == with_regs(m, CpuState { h: (((m.cpu.h * 256 + m.cpu.l - 1) % 0x10000) / 256) as u8, l: (((m.cpu.h * 256 + m.cpu.l - 1) % 0x10000) % 256) as u8, ..m.cpu }, 4),
        m.execute(0x3b) == with_regs(m, CpuState { sp: ((m.cpu.sp - 1) % 0x10000) as u16, ..m.cpu }, 4),
{
}

/// ADD HL, rr: sum and carry make up HL and the pair, and so do the low twelve
/// bits with the half carry. Z stays.
pub proof fn law_add_to_hl(m: Machine<Memory>)
    ensures
        added_to_hl(m, m.execute(0x09), m.cpu.b * 256 + m.cpu.c),
        added_to_hl(m, m.execute(0x19), m.cpu.d * 256 + m.cpu.e),
        added_to_hl(m, m.execute(0x29), m.cpu.h * 256 + m.cpu.l),
        added_to_hl(m, m.execute(0x39), m.cpu.sp as int),
{
    lemma_added_to_hl(m.cpu, m.cpu.bc());
    lemma_added_to_hl(m.cpu, m.cpu.de());
    lemma_added_to_hl(m.cpu, m.cpu.hl());
    lemma_added_to_hl(m.cpu, m.cpu.sp);
}

proof fn lemma_added_to_hl(cpu: CpuState, w: u16)
    ensures
        ({
            let r = cpu.add_hl(w);
            let hl = cpu.h * 256 + cpu.l;
            let sum = r.h * 256 + r.l;
            &&& sum + 0x10000 * crate::instruction_laws::one(r.f.c) == hl + w
            &&& sum % 0x1000 + 0x1000 * crate::instruction_laws::one(r.f.h) == hl % 0x1000 + w
                % 0x1000
            &&& !r.f.n
            &&& r.f.z == cpu.f.z
            &&& r == (CpuState { h: r.h, l: r.l, f: r.f, ..cpu })
        }),
{
    lemma_wide_sum(cpu.h * 256 + cpu.l, w as int);
}

/// A 16-bit sum with its carries out of bit 15 and bit 11.
proof fn lemma_wide_sum(a: int, b: int)
    requires
        0 <= a < 0x10000,
        0 <= b < 0x10000,
    ensures
        ({
            let s = (a + b) % 0x10000;
            &&& s == (if a + b > 0xffff {
                a + b - 0x10000
            } else {
                a + b
            })
            &&& s % 0x1000 == (if a % 0x1000 + b % 0x1000 > 0xfff {
                a % 0x1000 + b % 0x1000 - 0x1000
            } else {
                a % 0x1000 + b % 0x1000
            })
            &&& s / 256 * 256 + s % 256 == s
        }),
{
    let low = a % 0x1000 + b % 0x1000;
    let high = a / 0x1000 + b / 0x1000;
    assert(a + b == 0x1000 * high + low);
    let s = (a + b) % 0x10000;
    assert(s == a + b || s == a + b - 0x10000);
    lemma_low_twelve(high, low);
    lemma_low_twelve(high - 16, low);
}

proof fn lemma_low_twelve(high: int, low: int)
    requires
        0 <= low < 0x2000,
    ensures
        (0x1000 * high + low) % 0x1000 == (if low > 0xfff {
            low - 0x1000
        } else {
            low
        }),
{
}

pub open spec fn added_to_hl(m: Machine<Memory>, r: Machine<Memory>, w: int) -> bool {
    let hl = m.cpu.h * 256 + m.cpu.l;
    let sum = r.cpu.h * 256 + r.cpu.l;
    &&& sum + 0x10000 * crate::instruction_laws::one(r.cpu.f.c) == hl + w
    &&& sum % 0x1000 + 0x1000 * crate::instruction_laws::one(r.cpu.f.h) == hl % 0x1000 + w
        % 0x1000
    &&& !r.cpu.f.n
    &&& r.cpu.f.z == m.cpu.f.z
    &&& r == with_regs(m, CpuState { h: r.cpu.h, l: r.cpu.l, f: r.cpu.f, ..m.cpu }, 4)
}

/// SP plus a signed byte, with the carries out of the low nibble and the low
/// byte as flags.
pub open spec fn sp_plus(cpu: CpuState, e: u8) -> (int, FlagState) {
    (
        if e < 0x80 {
            (cpu.sp + e) % 0x10000
        } else {
            (cpu.sp + e - 0x100) % 0x10000
        },
        FlagState {
            z: false,
            n: false,
            h: cpu.sp % 16 + e % 16 >= 16,
            c: cpu.sp % 256 + e >= 256,
        },
    )
}

/// ADD SP, e and LD HL, SP + e.
pub proof fn law_sp_plus_offset(m: Machine<Memory>)
    requires
        crate::instruction_laws::flat(m),
    ensures
        ({
            let (sum, f) = sp_plus(m.cpu, crate::instruction_laws::byte_past(m, 0));
            let pc = crate::instruction_laws::past(m.cpu.pc, 1);
            &&& m.execute(0xe8) == with_regs(m, CpuState { sp: sum as u16, f, pc, ..m.cpu }, 12)
            &&& m.execute(0xf8) == with_regs(
                m,
                CpuState { h: (sum / 256) as u8, l: (sum % 256) as u8, f, pc, ..m.cpu },
                8,
            )
        }),
{
}

/// Where a relative jump leads: the signed offset counts from behind the
/// instruction.
pub open spec fn jump_from(pc: int, e: u8) -> u16 {
    (if e < 0x80 {
        (pc + 1 + e) % 0x10000
    } else {
        (pc + 1 + e - 0x100) % 0x10000
    }) as u16
}

/// JR and its four conditions.
pub proof fn law_relative_jumps(m: Machine<Memory>)
    requires
        crate::instruction_laws::flat(m),
    ensures
        m.execute(0x18) == jr_if(m, true),
        m.execute(0x20) == jr_if(m, !m.cpu.f.z),
        m.execute(0x28) == jr_if(m, m.cpu.f.z),
        m.execute(0x30) == jr_if(m, !m.cpu.f.c),
        m.execute(0x38) == jr_if(m, m.cpu.f.c),
{
    let e = crate::instruction_laws::byte_past(m, 0);
    lemma_jump_from(m.cpu.pc, e);
}

proof fn lemma_jump_from(pc: u16, e: u8)
    ensures
        crate::isa::offset(crate::isa::offset(pc, 1), crate::isa::signed(e)) == jump_from(
            pc as int,
            e,
        ),
{
    let next = (pc + 1) % 0x10000;
    let d = crate::isa::signed(e);
    assert(next == pc + 1 || next == pc + 1 - 0x10000);
    assert((next + d) % 0x10000 == (pc + 1 + d) % 0x10000);
}

pub open spec fn jr_if(m: Machine<Memory>, taken: bool) -> Machine<Memory> {
    if taken {
        with_regs(
            m,
            CpuState {
                pc: jump_from(m.cpu.pc as int, crate::instruction_laws::byte_past(m, 0)),
                ..m.cpu
            },
            8,
        )
    } else {
        with_regs(m, CpuState { pc: crate::instruction_laws::past(m.cpu.pc, 1), ..m.cpu }, 4)
    }
}

/// JP, its four conditions, and JP HL.
pub proof fn law_absolute_jumps(m: Machine<Memory>)
    requires
        crate::instruction_laws::flat(m),
    ensures
        m.execute(0xc3) == jp_if(m, true),
        m.execute(0xc2) == jp_if(m, !m.cpu.f.z),
        m.execute(0xca) == jp_if(m, m.cpu.f.z),
        m.execute(0xd2) == jp_if(m, !m.cpu.f.c),
        m.execute(0xda) == jp_if(m, m.cpu.f.c),
        m.execute(0xe9) == with_regs(
            m,
            CpuState { pc: (m.cpu.h * 256 + m.cpu.l) as u16, ..m.cpu },
            0,
        ),
{
    crate::instruction_laws::law_fetches_in_flat_memory(m);
}

pub open spec fn jp_if(m: Machine<Memory>, taken: bool) -> Machine<Memory> {
    if taken {
        with_regs(
            m,
            CpuState { pc: crate::instruction_laws::word_past(m) as u16, ..m.cpu },
            12,
        )
    } else {
        with_regs(m, CpuState { pc: crate::instruction_laws::past(m.cpu.pc, 2), ..m.cpu }, 8)
    }
}

/// A push of `w`, with PC then at `pc`.
pub open spec fn pushed(m: Machine<Memory>, w: int, pc: u16, time: int) -> Machine<Memory> {
    let below = (m.cpu.sp - 1) % 0x10000;
    let lowest = (m.cpu.sp - 2) % 0x10000;
    Machine {
        cpu: CpuState { pc, sp: lowest as u16, ..m.cpu },
        bus: m.bus.update(below, (w / 256) as u8).update(lowest, (w % 256) as u8),
        elapsed: m.elapsed + time,
    }
}

/// CALL and its four conditions: the address behind the instruction goes on
/// the stack, its high byte above its low.
pub proof fn law_calls(m: Machine<Memory>)
    requires
        crate::instruction_laws::flat(m),
    ensures
        m.execute(0xcd) == call_if(m, true),
        m.execute(0xc4) == call_if(m, !m.cpu.f.z),
        m.execute(0xcc) == call_if(m, m.cpu.f.z),
        m.execute(0xd4) == call_if(m, !m.cpu.f.c),
        m.execute(0xdc) == call_if(m, m.cpu.f.c),
{
    crate::instruction_laws::law_fetches_in_flat_memory(m);
    lemma_call_if(m, true);
    lemma_call_if(m, false);
}

proof fn lemma_call_if(m: Machine<Memory>, taken: bool)
    requires
        crate::instruction_laws::flat(m),
    ensures
        m.call(taken) == call_if(m, taken),
{
    crate::instruction_laws::law_fetches_in_flat_memory(m);
}

pub open spec fn call_if(m: Machine<Memory>, taken: bool) -> Machine<Memory> {
    let behind = crate::instruction_laws::past(m.cpu.pc, 2);
    if taken {
        pushed(m, behind as int, crate::instruction_laws::word_past(m) as u16, 20)
    } else {
        with_regs(m, CpuState { pc: behind, ..m.cpu }, 8)
    }
}

/// RST: a call to 0, 8, 16, ... 56, by bits 5 to 3 of the opcode.
pub proof fn law_rst(m: Machine<Memory>, y: u8)
    requires
        crate::instruction_laws::flat(m),
        y < 8,
    ensures
        m.execute((0xc7 + 8 * y) as u8) == pushed(m, m.cpu.pc as int, (8 * y) as u16, 12),
{
    let opcode = (0xc7 + 8 * y) as u8;
    assert(opcode as int % 8 == 7 && (opcode as int / 8) % 8 == y);
}

/// PUSH rr.
pub proof fn law_push(m: Machine<Memory>)
    requires
        crate::instruction_laws::flat(m),
    ensures
        m.execute(0xc5) == pushed(m, m.cpu.b * 256 + m.cpu.c, m.cpu.pc, 12),
        m.execute(0xd5) == pushed(m, m.cpu.d * 256 + m.cpu.e, m.cpu.pc, 12),
        m.execute(0xe5) == pushed(m, m.cpu.h * 256 + m.cpu.l, m.cpu.pc, 12),
        m.execute(0xf5) == pushed(
            m,
            m.cpu.a * 256 + crate::instruction_laws::one(m.cpu.f.z) * 128
                + crate::instruction_laws::one(m.cpu.f.n) * 64 + crate::instruction_laws::one(
                m.cpu.f.h,
            ) * 32 + crate::instruction_laws::one(m.cpu.f.c) * 16,
            m.cpu.pc,
            12,
        ),
{
    crate::instruction_laws::law_pairs_are_named(m.cpu);
}

/// The byte at SP, and the one above it.
pub open spec fn top(m: Machine<Memory>, k: int) -> u8 {
    m.bus[(m.cpu.sp + k) % 0x10000]
}

/// POP rr: the low byte comes from SP, the high byte from above it.
pub proof fn law_pop(m: Machine<Memory>)
    requires
        crate::instruction_laws::flat(m),
    ensures
        ({
            let lo = top(m, 0);
            let hi = top(m, 1);
            let sp = crate::instruction_laws::past(m.cpu.sp, 2);
            &&& m.execute(0xc1) == with_regs(m, CpuState { b: hi, c: lo, sp, ..m.cpu }, 8)
            &&& m.execute(0xd1) == with_regs(m, CpuState { d: hi, e: lo, sp, ..m.cpu }, 8)
            &&& m.execute(0xe1) == with_regs(m, CpuState { h: hi, l: lo, sp, ..m.cpu }, 8)
            &&& m.execute(0xf1) == with_regs(
                m,
                CpuState {
                    a: hi,
                    f: FlagState {
                        z: lo >= 128,
                        n: lo % 128 >= 64,
                        h: lo % 64 >= 32,
                        c: lo % 32 >= 16,
                    },
                    sp,
                    ..m.cpu
                },
                8,
            )
        }),
{
}

/// RET, its four conditions, and RETI, which turns interrupts on at once.
pub proof fn law_returns(m: Machine<Memory>)
    requires
        crate::instruction_laws::flat(m),
    ensures
        m.execute(0xc9) == returned(m, m.cpu, 12),
        m.execute(0xd9) == returned(m, CpuState { ime: true, ime_delay: 0, ..m.cpu }, 12),
        m.execute(0xc0) == ret_if(m, !m.cpu.f.z),
        m.execute(0xc8) == ret_if(m, m.cpu.f.z),
        m.execute(0xd0) == ret_if(m, !m.cpu.f.c),
        m.execute(0xd8) == ret_if(m, m.cpu.f.c),
{
}

pub open spec fn returned(m: Machine<Memory>, cpu: CpuState, time: int) -> Machine<Memory> {
    with_regs(
        m,
        CpuState {
            pc: (top(m, 0) + 256 * top(m, 1)) as u16,
            sp: crate::instruction_laws::past(m.cpu.sp, 2),
            ..cpu
        },
        time,
    )
}

pub open spec fn ret_if(m: Machine<Memory>, taken: bool) -> Machine<Memory> {
    if taken {
        returned(m, m.cpu, 16)
    } else {
        with_regs(m, m.cpu, 4)
    }
}

/// NOP does nothing. STOP skips the byte behind it and clears the divider. DI
/// turns interrupts off at once, and EI sets off turning them on.
pub proof fn law_nop_stop_di_and_ei<B: Bus>(m: Machine<B>)
    ensures
        m.execute(0x00) == m,
        m.execute(0x10) == (Machine::<B> {
            cpu: CpuState { pc: crate::instruction_laws::past(m.cpu.pc, 1), ..m.cpu },
            bus: B::after_write(m.bus, 0xff04, 0),
            ..m
        }),
        m.execute(0xf3) == (Machine::<B> {
            cpu: CpuState { ime: false, ime_delay: 0, ..m.cpu },
            ..m
        }),
        m.execute(0xfb) == (Machine::<B> { cpu: CpuState { ime_delay: 2, ..m.cpu }, ..m }),
{
}

/// After each instruction the latch of EI runs down by one, and interrupts are
/// on when it has run out.
pub proof fn law_latch_of_ei(cpu: CpuState)
    ensures
        cpu.ime_delay == 0 ==> cpu.settle_ime() == cpu,
        cpu.ime_delay == 1 ==> cpu.settle_ime() == (CpuState { ime: true, ime_delay: 0, ..cpu }),
        cpu.ime_delay > 1 ==> cpu.settle_ime() == (CpuState {
            ime_delay: (cpu.ime_delay - 1) as u8,
            ..cpu
        }),
{
}

/// HALT stops the CPU where nothing is pending. Else it steps back onto itself
/// with interrupts on, and with them off it arms its bug.
pub proof fn law_halt<B: Bus>(m: Machine<B>)
    ensures
        m.pending() == 0 ==> m.execute(0x76) == (Machine::<B> {
            cpu: CpuState { halted: true, ..m.cpu },
            ..m
        }),
        m.pending() != 0 && m.cpu.ime ==> m.execute(0x76) == (Machine::<B> {
            cpu: CpuState { pc: crate::instruction_laws::past(m.cpu.pc, -1), ..m.cpu },
            ..m
        }),
        m.pending() != 0 && !m.cpu.ime ==> m.execute(0x76) == (Machine::<B> {
            cpu: CpuState { halt_bug: true, ..m.cpu },
            ..m
        }),
{
}

/// A running CPU with nothing to take fetches the byte at PC and executes it.
pub proof fn law_step_executes_the_byte_at_pc(m: Machine<Memory>)
    requires
        crate::instruction_laws::flat(m),
        !m.cpu.locked,
        !m.cpu.halted,
        !m.cpu.ime || m.pending() == 0,
    ensures
        ({
            let fetched = with_regs(
                m,
                CpuState { pc: crate::instruction_laws::past(m.cpu.pc, 1), ..m.cpu },
                4,
            );
            let done = fetched.execute(m.bus[m.cpu.pc as int]);
            m.step() == done.with_cpu(done.cpu.settle_ime())
        }),
{
    crate::instruction_laws::law_fetches_in_flat_memory(m);
    let awake = if m.pending() != 0 {
        m.with_cpu(CpuState { halted: false, ..m.cpu })
    } else {
        m
    };
    assert(awake == m);
}

} // verus!
