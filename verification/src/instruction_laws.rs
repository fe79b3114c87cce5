//! The instruction set, instruction by instruction
//!
//! What each instruction leaves in registers, flags and flat memory, in terms
//! of what was there before. An instruction is given after its opcode has been
//! fetched: PC is at its operand, and the times are those beyond the fetch.

use crate::bus::Bus;
use crate::flags::FlagState;
use crate::isa::{CpuState, Machine};
use crate::memory::Memory;
use vstd::prelude::*;

verus! {

/// A machine on flat memory with the HALT bug not armed.
pub open spec fn flat(m: Machine<Memory>) -> bool {
    m.bus.len() == 0x10000 && !m.cpu.halt_bug
}

/// The byte `k` bytes past PC.
pub open spec fn byte_past(m: Machine<Memory>, k: int) -> u8 {
    m.bus[(m.cpu.pc + k) % 0x10000]
}

/// The little-endian word at PC.
pub open spec fn word_past(m: Machine<Memory>) -> int {
    byte_past(m, 0) + 256 * byte_past(m, 1)
}

/// `pc` moved on by `k` bytes, round the address space.
pub open spec fn past(pc: u16, k: int) -> u16 {
    ((pc + k) % 0x10000) as u16
}

pub open spec fn one(set: bool) -> int {
    if set {
        1
    } else {
        0
    }
}

// ----- accesses, on any bus -----

/// Every access is an M-cycle: the bus is ticked by four T-cycles and then
/// accessed, and the CPU is left alone.
pub proof fn law_accesses_tick_first<B: Bus>(m: Machine<B>, addr: u16, value: u8, idu: u16)
    ensures
        m.mcycle().cpu == m.cpu,
        m.mcycle().bus == B::after_tick(m.bus, 4),
        m.mcycle().elapsed == m.elapsed + 4,
        m.read8(addr).1 == B::read_cpu_of(B::after_tick(m.bus, 4), addr),
        m.read8(addr).0 == (Machine::<B> {
            cpu: m.cpu,
            bus: B::after_read_cpu(B::after_tick(m.bus, 4), addr),
            elapsed: m.elapsed + 4,
        }),
        m.write8(addr, value) == (Machine::<B> {
            cpu: m.cpu,
            bus: B::after_write_cpu(B::after_tick(m.bus, 4), addr, value),
            elapsed: m.elapsed + 4,
        }),
        m.read8_idu(addr, idu).1 == B::read_cpu_idu_of(B::after_tick(m.bus, 4), addr, idu),
        m.read8_idu(addr, idu).0 == (Machine::<B> {
            cpu: m.cpu,
            bus: B::after_read_cpu_idu(B::after_tick(m.bus, 4), addr, idu),
            elapsed: m.elapsed + 4,
        }),
        m.write8_idu(addr, value, idu) == (Machine::<B> {
            cpu: m.cpu,
            bus: B::after_write_cpu_idu(B::after_tick(m.bus, 4), addr, value, idu),
            elapsed: m.elapsed + 4,
        }),
        m.idu(addr) == (Machine::<B> {
            cpu: m.cpu,
            bus: B::after_idu_glitch(B::after_tick(m.bus, 4), addr),
            elapsed: m.elapsed + 4,
        }),
{
}

/// A fetch yields the byte at PC and moves PC on by one.
pub proof fn law_fetch_takes_the_byte_at_pc<B: Bus>(m: Machine<B>)
    requires
        !m.cpu.halt_bug,
    ensures
        m.fetch8().1 == B::read_cpu_of(B::after_tick(m.bus, 4), m.cpu.pc),
        m.fetch8().0 == (Machine::<B> {
            cpu: CpuState { pc: past(m.cpu.pc, 1), ..m.cpu },
            bus: B::after_read_cpu(B::after_tick(m.bus, 4), m.cpu.pc),
            elapsed: m.elapsed + 4,
        }),
{
}

/// The operand fetches, in flat memory: a byte, or two with the low one first.
pub proof fn law_fetches_in_flat_memory(m: Machine<Memory>)
    requires
        flat(m),
    ensures
        m.fetch8().1 == byte_past(m, 0),
        m.fetch8().0 == (Machine::<Memory> {
            cpu: CpuState { pc: past(m.cpu.pc, 1), ..m.cpu },
            elapsed: m.elapsed + 4,
            ..m
        }),
        m.fetch16().1 == word_past(m),
        m.fetch16().0 == (Machine::<Memory> {
            cpu: CpuState { pc: past(m.cpu.pc, 2), ..m.cpu },
            elapsed: m.elapsed + 8,
            ..m
        }),
{
}

/// A push writes the high byte below SP and the low byte below that, with SP
/// and then the address under it exposed to the increment unit.
pub proof fn law_push_order<B: Bus>(m: Machine<B>, w: u16)
    ensures
        ({
            let sp = m.cpu.sp;
            let first = B::after_write_cpu_idu(
                B::after_tick(m.bus, 4),
                past(sp, -1),
                (w / 256) as u8,
                sp,
            );
            m.push16(w) == (Machine::<B> {
                cpu: CpuState { sp: past(sp, -2), ..m.cpu },
                bus: B::after_write_cpu_idu(
                    B::after_tick(first, 4),
                    past(sp, -2),
                    (w % 256) as u8,
                    past(sp, -1),
                ),
                elapsed: m.elapsed + 8,
            })
        }),
{
}

/// A pop reads the low byte at SP and the high byte above it, as plain reads.
pub proof fn law_pop_order<B: Bus>(m: Machine<B>)
    ensures
        ({
            let sp = m.cpu.sp;
            let t1 = B::after_tick(m.bus, 4);
            let t2 = B::after_tick(B::after_read_cpu(t1, sp), 4);
            let lo = B::read_cpu_of(t1, sp);
            let hi = B::read_cpu_of(t2, past(sp, 1));
            &&& m.pop16().1 == hi * 256 + lo
            &&& m.pop16().0 == (Machine::<B> {
                cpu: CpuState { sp: past(sp, 2), ..m.cpu },
                bus: B::after_read_cpu(t2, past(sp, 1)),
                elapsed: m.elapsed + 8,
            })
        }),
{
}

/// CALL, RST and PUSH expose SP to the increment unit before they push; INC
/// and DEC of a pair expose the pair.
pub proof fn law_idu_is_exposed<B: Bus>(m: Machine<B>, target: u16)
    ensures
        m.call_to(target) == m.idu(m.cpu.sp).push16(m.cpu.pc).with_cpu(
            CpuState { pc: target, sp: past(m.cpu.sp, -2), ..m.cpu },
        ),
        m.execute(0xc5) == m.idu(m.cpu.sp).push16((m.cpu.b * 256 + m.cpu.c) as u16),
        m.execute(0xd5) == m.idu(m.cpu.sp).push16((m.cpu.d * 256 + m.cpu.e) as u16),
        m.execute(0xe5) == m.idu(m.cpu.sp).push16((m.cpu.h * 256 + m.cpu.l) as u16),
        m.execute(0x03).bus == m.idu((m.cpu.b * 256 + m.cpu.c) as u16).bus,
        m.execute(0x0b).bus == m.idu((m.cpu.b * 256 + m.cpu.c) as u16).bus,
        m.execute(0x13).bus == m.idu((m.cpu.d * 256 + m.cpu.e) as u16).bus,
        m.execute(0x1b).bus == m.idu((m.cpu.d * 256 + m.cpu.e) as u16).bus,
        m.execute(0x23).bus == m.idu((m.cpu.h * 256 + m.cpu.l) as u16).bus,
        m.execute(0x2b).bus == m.idu((m.cpu.h * 256 + m.cpu.l) as u16).bus,
        m.execute(0x33).bus == m.idu(m.cpu.sp).bus,
        m.execute(0x3b).bus == m.idu(m.cpu.sp).bus,
{
}

/// The interrupt lines that are pending are those whose bits are set both in
/// IF and in IE, of the lower five.
pub proof fn law_pending_lines<B: Bus>(m: Machine<B>, k: u8)
    requires
        k < 8,
    ensures
        crate::bits::has_bit(m.pending(), k) <==> k < 5 && crate::bits::has_bit(
            B::read_of(m.bus, 0xff0f),
            k,
        ) && crate::bits::has_bit(B::read_of(m.bus, 0xffff), k),
{
    crate::bits::lemma_bits_of_pending(
        B::read_of(m.bus, 0xff0f),
        B::read_of(m.bus, 0xffff),
        k,
    );
}

// ----- names of registers -----

/// The eight operands are B, C, D, E, H, L, the byte at HL, and A.
pub proof fn law_operands_are_named<B: Bus>(m: Machine<B>)
    ensures
        m.operand(0) == (m, m.cpu.b),
        m.operand(1) == (m, m.cpu.c),
        m.operand(2) == (m, m.cpu.d),
        m.operand(3) == (m, m.cpu.e),
        m.operand(4) == (m, m.cpu.h),
        m.operand(5) == (m, m.cpu.l),
        m.operand(6) == m.read8((m.cpu.h * 256 + m.cpu.l) as u16),
        m.operand(7) == (m, m.cpu.a),
{
}

/// Writing an operand changes the register of that name and nothing else.
pub proof fn law_operands_are_written<B: Bus>(m: Machine<B>, v: u8)
    ensures
        m.with_operand(0, v) == (Machine::<B> { cpu: CpuState { b: v, ..m.cpu }, ..m }),
        m.with_operand(1, v) == (Machine::<B> { cpu: CpuState { c: v, ..m.cpu }, ..m }),
        m.with_operand(2, v) == (Machine::<B> { cpu: CpuState { d: v, ..m.cpu }, ..m }),
        m.with_operand(3, v) == (Machine::<B> { cpu: CpuState { e: v, ..m.cpu }, ..m }),
        m.with_operand(4, v) == (Machine::<B> { cpu: CpuState { h: v, ..m.cpu }, ..m }),
        m.with_operand(5, v) == (Machine::<B> { cpu: CpuState { l: v, ..m.cpu }, ..m }),
        m.with_operand(6, v) == m.write8((m.cpu.h * 256 + m.cpu.l) as u16, v),
        m.with_operand(7, v) == (Machine::<B> { cpu: CpuState { a: v, ..m.cpu }, ..m }),
{
}

/// A register pair is its first register times 256 plus its second; in AF the
/// flags stand in bits 7 to 4.
pub proof fn law_pairs_are_named(cpu: CpuState)
    ensures
        cpu.bc() == cpu.b * 256 + cpu.c,
        cpu.de() == cpu.d * 256 + cpu.e,
        cpu.hl() == cpu.h * 256 + cpu.l,
        cpu.af() == cpu.a * 256 + one(cpu.f.z) * 128 + one(cpu.f.n) * 64 + one(cpu.f.h) * 32 + one(
            cpu.f.c,
        ) * 16,
        cpu.pair(0) == cpu.bc(),
        cpu.pair(1) == cpu.de(),
        cpu.pair(2) == cpu.hl(),
        cpu.pair(3) == cpu.sp,
        cpu.stack_pair(0) == cpu.bc(),
        cpu.stack_pair(1) == cpu.de(),
        cpu.stack_pair(2) == cpu.hl(),
        cpu.stack_pair(3) == cpu.af(),
{
}

/// Writing a register pair changes its two registers and nothing else.
pub proof fn law_pairs_are_written(cpu: CpuState, hi: u8, lo: u8)
    ensures
        ({
            let w = (hi * 256 + lo) as u16;
            &&& cpu.with_bc(w) == (CpuState { b: hi, c: lo, ..cpu })
            &&& cpu.with_de(w) == (CpuState { d: hi, e: lo, ..cpu })
            &&& cpu.with_hl(w) == (CpuState { h: hi, l: lo, ..cpu })
            &&& cpu.with_af(w) == (CpuState {
                a: hi,
                f: FlagState {
                    z: lo >= 128,
                    n: lo % 128 >= 64,
                    h: lo % 64 >= 32,
                    c: lo % 32 >= 16,
                },
                ..cpu
            })
        }),
{
}

/// The four conditions are NZ, Z, NC and C.
pub proof fn law_conditions(cpu: CpuState)
    ensures
        cpu.condition(0) == !cpu.f.z,
        cpu.condition(1) == cpu.f.z,
        cpu.condition(2) == !cpu.f.c,
        cpu.condition(3) == cpu.f.c,
{
}

// ----- arithmetic and logic on A -----

/// What an operation on A takes in: the operand that opcodes 80-BF name, or the
/// byte after the opcode.
pub open spec fn alu_input<B: Bus>(m: Machine<B>, opcode: u8) -> (Machine<B>, u8) {
    if opcode < 0xc0 {
        m.operand(opcode as int % 8)
    } else {
        m.fetch8()
    }
}

/// That an opcode is in one of the families, with a register or with a byte.
pub open spec fn in_family(opcode: u8, first: u8, immediate: u8) -> bool {
    first <= opcode < first + 8 || opcode == immediate
}

/// That `r` differs from `m` in A and the flags alone.
pub open spec fn only_a_and_f<B: Bus>(m: Machine<B>, r: Machine<B>) -> bool {
    r == (Machine::<B> { cpu: CpuState { a: r.cpu.a, f: r.cpu.f, ..m.cpu }, ..m })
}

/// ADD and ADC: result and carry make up the sum, and so do the low nibbles
/// with the half carry.
pub proof fn law_add_and_adc<B: Bus>(m: Machine<B>, opcode: u8)
    requires
        in_family(opcode, 0x80, 0xc6) || in_family(opcode, 0x88, 0xce),
    ensures
        ({
            let (n, v) = alu_input(m, opcode);
            let r = m.execute(opcode);
            let carry = one(in_family(opcode, 0x88, 0xce) && n.cpu.f.c);
            &&& r.cpu.a + 256 * one(r.cpu.f.c) == n.cpu.a + v + carry
            &&& r.cpu.a % 16 + 16 * one(r.cpu.f.h) == n.cpu.a % 16 + v % 16 + carry
            &&& r.cpu.f.z <==> r.cpu.a == 0
            &&& !r.cpu.f.n
            &&& only_a_and_f(n, r)
        }),
{
    lemma_family(opcode);
    let (n, v) = alu_input(m, opcode);
    lemma_dispatch(m, opcode);
    lemma_sum(n.cpu, v, 0);
    lemma_sum(n.cpu, v, one(n.cpu.f.c));
    assert(one(n.cpu.f.c) == crate::isa::bit(n.cpu.f.c));
}

/// SUB, SBC and CP: result and what is taken away make up A and the borrow. CP
/// leaves A as it was.
pub proof fn law_sub_sbc_and_cp<B: Bus>(m: Machine<B>, opcode: u8)
    requires
        in_family(opcode, 0x90, 0xd6) || in_family(opcode, 0x98, 0xde) || in_family(
            opcode,
            0xb8,
            0xfe,
        ),
    ensures
        ({
            let (n, v) = alu_input(m, opcode);
            let r = m.execute(opcode);
            let carry = one(in_family(opcode, 0x98, 0xde) && n.cpu.f.c);
            let compare = in_family(opcode, 0xb8, 0xfe);
            &&& !compare ==> r.cpu.a + v + carry == n.cpu.a + 256 * one(r.cpu.f.c)
            &&& !compare ==> r.cpu.a % 16 + v % 16 + carry == n.cpu.a % 16 + 16 * one(r.cpu.f.h)
            &&& !compare ==> (r.cpu.f.z <==> r.cpu.a == 0)
            &&& compare ==> r.cpu.a == n.cpu.a
            &&& compare ==> (r.cpu.f.z <==> n.cpu.a == v)
            &&& compare ==> (r.cpu.f.c <==> n.cpu.a < v)
            &&& compare ==> (r.cpu.f.h <==> n.cpu.a % 16 < v % 16)
            &&& r.cpu.f.n
            &&& only_a_and_f(n, r)
        }),
{
    lemma_family(opcode);
    let (n, v) = alu_input(m, opcode);
    lemma_dispatch(m, opcode);
    lemma_difference(n.cpu, v, 0);
    lemma_difference(n.cpu, v, one(n.cpu.f.c));
    assert(one(n.cpu.f.c) == crate::isa::bit(n.cpu.f.c));
}

/// AND, XOR and OR work bit by bit: a bit of the result is set where both,
/// exactly one, or at least one of the two bits is.
pub proof fn law_and_xor_or<B: Bus>(m: Machine<B>, opcode: u8, k: u8)
    requires
        in_family(opcode, 0xa0, 0xe6) || in_family(opcode, 0xa8, 0xee) || in_family(
            opcode,
            0xb0,
            0xf6,
        ),
        k < 8,
    ensures
        ({
            let (n, v) = alu_input(m, opcode);
            let r = m.execute(opcode);
            let p = crate::bits::has_bit(n.cpu.a, k);
            let q = crate::bits::has_bit(v, k);
            &&& in_family(opcode, 0xa0, 0xe6) ==> (crate::bits::has_bit(r.cpu.a, k) <==> p && q)
            &&& in_family(opcode, 0xa8, 0xee) ==> (crate::bits::has_bit(r.cpu.a, k) <==> p != q)
            &&& in_family(opcode, 0xb0, 0xf6) ==> (crate::bits::has_bit(r.cpu.a, k) <==> p || q)
            &&& r.cpu.f.z <==> r.cpu.a == 0
            &&& !r.cpu.f.n
            &&& r.cpu.f.h <==> in_family(opcode, 0xa0, 0xe6)
            &&& !r.cpu.f.c
            &&& only_a_and_f(n, r)
        }),
{
    lemma_family(opcode);
    let (n, v) = alu_input(m, opcode);
    crate::bits::lemma_bits_of_logic(n.cpu.a, v, k);
}

/// OR of A with itself leaves A, and sets Z only for zero; XOR with itself
/// clears A; AND with itself leaves A.
pub proof fn law_logic_of_a_with_itself<B: Bus>(m: Machine<B>)
    ensures
        m.execute(0xb7).cpu.a == m.cpu.a,
        m.execute(0xb7).cpu.f.z <==> m.cpu.a == 0,
        m.execute(0xa7).cpu.a == m.cpu.a,
        m.execute(0xa7).cpu.f.z <==> m.cpu.a == 0,
        m.execute(0xaf).cpu.a == 0,
        m.execute(0xaf).cpu.f.z,
{
    crate::bits::lemma_logic_with_itself(m.cpu.a);
}

/// What the operations on A come to.
proof fn lemma_dispatch<B: Bus>(m: Machine<B>, opcode: u8)
    requires
        0x80 <= opcode < 0xc0 || (opcode >= 0xc0 && opcode % 8 == 6),
    ensures
        ({
            let (n, v) = alu_input(m, opcode);
            m.execute(opcode) == n.with_cpu(n.cpu.alu((opcode as int / 8) % 8, v))
        }),
{
}

proof fn lemma_sum(cpu: CpuState, v: u8, carry: int)
    requires
        0 <= carry <= 1,
    ensures
        ({
            let r = cpu.add(v, carry);
            &&& r.a + 256 * one(r.f.c) == cpu.a + v + carry
            &&& r.a % 16 + 16 * one(r.f.h) == cpu.a % 16 + v % 16 + carry
            &&& r.f.z <==> r.a == 0
            &&& !r.f.n
            &&& r == (CpuState { a: r.a, f: r.f, ..cpu })
        }),
{
    let sum = cpu.a + v + carry;
    let low = cpu.a as int % 16 + v as int % 16 + carry;
    let high = cpu.a as int / 16 + v as int / 16;
    assert(sum == 16 * high + low);
    if sum > 0xff {
        assert(sum % 0x100 == sum - 0x100);
    } else {
        assert(sum % 0x100 == sum);
    }
    if low > 15 {
        assert(sum % 0x100 % 16 == low - 16);
    } else {
        assert(sum % 0x100 % 16 == low);
    }
}

proof fn lemma_difference(cpu: CpuState, v: u8, carry: int)
    requires
        0 <= carry <= 1,
    ensures
        ({
            let r = cpu.sub(v, carry);
            &&& r.a + v + carry == cpu.a + 256 * one(r.f.c)
            &&& r.a % 16 + v % 16 + carry == cpu.a % 16 + 16 * one(r.f.h)
            &&& r.f.z <==> r.a == 0
            &&& r.f.n
            &&& r.f.c <==> cpu.a < v + carry
            &&& r.f.h <==> cpu.a % 16 < v % 16 + carry
            &&& r == (CpuState { a: r.a, f: r.f, ..cpu })
        }),
{
    let diff = cpu.a - v - carry;
    let low = cpu.a as int % 16 - v as int % 16 - carry;
    let high = cpu.a as int / 16 - v as int / 16;
    assert(diff == 16 * high + low);
    if diff < 0 {
        assert(diff % 0x100 == diff + 0x100);
    } else {
        assert(diff % 0x100 == diff);
    }
    if low < 0 {
        assert(diff % 0x100 % 16 == low + 16);
    } else {
        assert(diff % 0x100 % 16 == low);
    }
}

/// Where an opcode of such a family stands in the opcode table.
proof fn lemma_family(opcode: u8)
    ensures
        in_family(opcode, 0x80, 0xc6) ==> (opcode / 8) % 8 == 0,
        in_family(opcode, 0x88, 0xce) ==> (opcode / 8) % 8 == 1,
        in_family(opcode, 0x90, 0xd6) ==> (opcode / 8) % 8 == 2,
        in_family(opcode, 0x98, 0xde) ==> (opcode / 8) % 8 == 3,
        in_family(opcode, 0xa0, 0xe6) ==> (opcode / 8) % 8 == 4,
        in_family(opcode, 0xa8, 0xee) ==> (opcode / 8) % 8 == 5,
        in_family(opcode, 0xb0, 0xf6) ==> (opcode / 8) % 8 == 6,
        in_family(opcode, 0xb8, 0xfe) ==> (opcode / 8) % 8 == 7,
{
}

// ----- increments, rotations and the rest of the 8-bit work -----

proof fn lemma_inc_dec_dispatch<B: Bus>(m: Machine<B>, y: u8)
    requires
        y < 8,
    ensures
        m.execute((0x04 + 8 * y) as u8) == m.inc(y as int),
        m.execute((0x05 + 8 * y) as u8) == m.dec(y as int),
{
    let up = (0x04 + 8 * y) as u8;
    let down = (0x05 + 8 * y) as u8;
    assert(up as int % 8 == 4 && (up as int / 8) % 8 == y);
    assert(down as int % 8 == 5 && (down as int / 8) % 8 == y);
}

proof fn lemma_next_byte(v: u8)
    ensures
        crate::isa::byte_offset(v, 1) == (if v == 0xff {
            0
        } else {
            v + 1
        }),
        crate::isa::byte_offset(v, -1) == (if v == 0 {
            0xff
        } else {
            v - 1
        }),
{
}

/// `m` with operand `y` replaced and these flags.
pub open spec fn with_operand_and_flags<B: Bus>(
    m: Machine<B>,
    y: u8,
    w: u8,
    f: FlagState,
) -> Machine<B> {
    let n = m.with_operand(y as int, w);
    Machine { cpu: CpuState { f, ..n.cpu }, ..n }
}

/// INC r: the operand that bits 5 to 3 of the opcode name goes up by one, and
/// from 0xFF to 0. The carry flag stays.
pub proof fn law_inc<B: Bus>(m: Machine<B>, y: u8)
    requires
        y < 8,
    ensures
        ({
            let (n, v) = m.operand(y as int);
            let more = if v == 0xff {
                0u8
            } else {
                (v + 1) as u8
            };
            m.execute((0x04 + 8 * y) as u8) == with_operand_and_flags(
                n,
                y,
                more,
                FlagState { z: v == 0xff, n: false, h: v % 16 == 15, c: m.cpu.f.c },
            )
        }),
{
    lemma_inc_dec_dispatch(m, y);
    lemma_next_byte(m.operand(y as int).1);
    lemma_inc_value(m, y);
}

proof fn lemma_inc_value<B: Bus>(m: Machine<B>, y: u8)
    ensures
        ({
            let (n, v) = m.operand(y as int);
            let w = crate::isa::byte_offset(v, 1);
            m.inc(y as int) == with_operand_and_flags(
                n,
                y,
                w,
                FlagState { z: w == 0, n: false, h: v % 16 == 15, c: m.cpu.f.c },
            )
        }),
{
}

/// DEC r: the operand goes down by one, and from 0 to 0xFF. The carry flag
/// stays.
pub proof fn law_dec<B: Bus>(m: Machine<B>, y: u8)
    requires
        y < 8,
    ensures
        ({
            let (n, v) = m.operand(y as int);
            let less = if v == 0 {
                0xffu8
            } else {
                (v - 1) as u8
            };
            m.execute((0x05 + 8 * y) as u8) == with_operand_and_flags(
                n,
                y,
                less,
                FlagState { z: v == 1, n: true, h: v % 16 == 0, c: m.cpu.f.c },
            )
        }),
{
    lemma_inc_dec_dispatch(m, y);
    lemma_next_byte(m.operand(y as int).1);
    lemma_dec_value(m, y);
}

proof fn lemma_dec_value<B: Bus>(m: Machine<B>, y: u8)
    ensures
        ({
            let (n, v) = m.operand(y as int);
            let w = crate::isa::byte_offset(v, -1);
            m.dec(y as int) == with_operand_and_flags(
                n,
                y,
                w,
                FlagState { z: w == 0, n: true, h: v % 16 == 0, c: m.cpu.f.c },
            )
        }),
{
}

/// The CB page: bits 7 and 6 of the second opcode byte choose between the
/// rotations and BIT, RES and SET, bits 5 to 3 the rotation or the bit, and
/// bits 2 to 0 the operand.
pub open spec fn cb_input<B: Bus>(m: Machine<B>) -> (u8, Machine<B>, u8) {
    let (n, second) = m.fetch8();
    (second, n.operand(second as int % 8).0, n.operand(second as int % 8).1)
}

/// BIT, RES and SET. BIT tells in Z whether the bit is clear; RES and SET
/// change that bit of the operand, and no other bit and no flag.
pub proof fn law_bit_res_and_set<B: Bus>(m: Machine<B>)
    requires
        m.fetch8().1 >= 0x40,
    ensures
        ({
            let (second, n, v) = cb_input(m);
            let y = (second / 8) % 8;
            let r = m.execute(0xcb);
            &&& second < 0x80 ==> r == (Machine::<B> {
                cpu: CpuState {
                    f: FlagState {
                        z: !crate::bits::has_bit(v, y),
                        n: false,
                        h: true,
                        c: m.cpu.f.c,
                    },
                    ..n.cpu
                },
                ..n
            })
            &&& second >= 0x80 ==> exists|w: u8| #[trigger]
                n.with_operand(second as int % 8, w) == r && forall|k: u8| #![trigger crate::bits::has_bit(w, k)]
                    k < 8 ==> (crate::bits::has_bit(w, k) <==> (if k == y {
                        second >= 0xc0
                    } else {
                        crate::bits::has_bit(v, k)
                    }))
        }),
{
    let (second, n, v) = cb_input(m);
    let y = (second / 8) % 8;
    crate::bits::lemma_bits_of_masks(v, y, 0);
    assert(m.execute(0xcb) == m.execute_cb());
    let w = if second < 0xc0 {
        v & !(1u8 << y)
    } else {
        v | (1u8 << y)
    };
    if second >= 0x80 {
        assert forall|k: u8| #![trigger crate::bits::has_bit(w, k)] k < 8 implies (
        crate::bits::has_bit(w, k) <==> (if k == y {
            second >= 0xc0
        } else {
            crate::bits::has_bit(v, k)
        })) by {
            crate::bits::lemma_bits_of_masks(v, y, k);
        }
        assert(n.with_operand(second as int % 8, w) == m.execute_cb());
    }
}

/// What the eight rotations and shifts make of a byte, bit by bit.
pub proof fn law_rotations_bit_by_bit(cpu: CpuState, v: u8, k: u8)
    requires
        k < 8,
    ensures
        // RLC, RL, SLA: up by one; into bit 0 go bit 7, the carry, zero.
        crate::bits::has_bit(cpu.rotated(0, v), k) == (if k == 0 {
            crate::bits::has_bit(v, 7)
        } else {
            crate::bits::has_bit(v, (k - 1) as u8)
        }),
        crate::bits::has_bit(cpu.rotated(2, v), k) == (if k == 0 {
            cpu.f.c
        } else {
            crate::bits::has_bit(v, (k - 1) as u8)
        }),
        crate::bits::has_bit(cpu.rotated(4, v), k) == (k != 0 && crate::bits::has_bit(
            v,
            (k - 1) as u8,
        )),
        // RRC, RR, SRA, SRL: down by one; into bit 7 go bit 0, the carry, bit
        // 7 again, zero.
        crate::bits::has_bit(cpu.rotated(1, v), k) == (if k == 7 {
            crate::bits::has_bit(v, 0)
        } else {
            crate::bits::has_bit(v, (k + 1) as u8)
        }),
        crate::bits::has_bit(cpu.rotated(3, v), k) == (if k == 7 {
            cpu.f.c
        } else {
            crate::bits::has_bit(v, (k + 1) as u8)
        }),
        crate::bits::has_bit(cpu.rotated(5, v), k) == (if k == 7 {
            crate::bits::has_bit(v, 7)
        } else {
            crate::bits::has_bit(v, (k + 1) as u8)
        }),
        crate::bits::has_bit(cpu.rotated(7, v), k) == (k != 7 && crate::bits::has_bit(
            v,
            (k + 1) as u8,
        )),
        // SWAP: the nibbles change places.
        crate::bits::has_bit(cpu.rotated(6, v), k) == crate::bits::has_bit(v, ((k + 4) % 8) as u8),
        // The bit that falls out.
        CpuState::rotated_out(0, v) == crate::bits::has_bit(v, 7),
        CpuState::rotated_out(1, v) == crate::bits::has_bit(v, 0),
        CpuState::rotated_out(2, v) == crate::bits::has_bit(v, 7),
        CpuState::rotated_out(3, v) == crate::bits::has_bit(v, 0),
        CpuState::rotated_out(4, v) == crate::bits::has_bit(v, 7),
        CpuState::rotated_out(5, v) == crate::bits::has_bit(v, 0),
        !CpuState::rotated_out(6, v),
        CpuState::rotated_out(7, v) == crate::bits::has_bit(v, 0),
{
    let carry: u8 = if cpu.f.c {
        1
    } else {
        0
    };
    crate::bits::lemma_rotations(v, carry);
    crate::bits::lemma_bits_of_rotations(v, carry, k);
}

/// The rotations of the CB page put the rotated byte back, set Z by it and C by
/// the bit that fell out, and clear N and H.
pub proof fn law_cb_rotations<B: Bus>(m: Machine<B>)
    requires
        m.fetch8().1 < 0x40,
    ensures
        ({
            let (second, n, v) = cb_input(m);
            let op = second as int / 8;
            let w = n.cpu.rotated(op, v);
            let flags = FlagState { z: w == 0, n: false, h: false, c: CpuState::rotated_out(op, v) };
            m.execute(0xcb) == (Machine::<B> {
                cpu: CpuState { f: flags, ..n.cpu },
                ..n
            }).with_operand(second as int % 8, w)
        }),
{
    lemma_cb_page(m);
    let (second, n, v) = cb_input(m);
    assert((second / 8) % 8 == second as int / 8);
}

/// Opcode CB is the page of its own.
proof fn lemma_cb_page<B: Bus>(m: Machine<B>)
    ensures
        m.execute(0xcb) == m.execute_cb(),
{
}

/// RLCA, RRCA, RLA and RRA rotate A as their CB namesakes do, but clear Z.
pub proof fn law_rotations_of_a<B: Bus>(m: Machine<B>)
    ensures
        m.execute(0x07) == rotated_a(m, 0),
        m.execute(0x0f) == rotated_a(m, 1),
        m.execute(0x17) == rotated_a(m, 2),
        m.execute(0x1f) == rotated_a(m, 3),
{
}

/// A rotated, with the bit that fell out in C and the other flags clear.
pub open spec fn rotated_a<B: Bus>(m: Machine<B>, op: int) -> Machine<B> {
    Machine {
        cpu: CpuState {
            a: m.cpu.rotated(op, m.cpu.a),
            f: FlagState {
                z: false,
                n: false,
                h: false,
                c: CpuState::rotated_out(op, m.cpu.a),
            },
            ..m.cpu
        },
        ..m
    }
}

/// CPL turns every bit of A over and sets N and H; SCF sets the carry and CCF
/// turns it over, both clearing N and H; Z stays.
pub proof fn law_cpl_scf_and_ccf<B: Bus>(m: Machine<B>)
    ensures
        ({
            let f = m.cpu.f;
            &&& m.execute(0x2f) == (Machine::<B> {
                cpu: CpuState {
                    a: m.execute(0x2f).cpu.a,
                    f: FlagState { z: f.z, n: true, h: true, c: f.c },
                    ..m.cpu
                },
                ..m
            })
            &&& m.execute(0x2f).cpu.a + m.cpu.a == 0xff
            &&& m.execute(0x37) == (Machine::<B> {
                cpu: CpuState { f: FlagState { z: f.z, n: false, h: false, c: true }, ..m.cpu },
                ..m
            })
            &&& m.execute(0x3f) == (Machine::<B> {
                cpu: CpuState { f: FlagState { z: f.z, n: false, h: false, c: !f.c }, ..m.cpu },
                ..m
            })
        }),
{
}

/// DAA moves A by 0x06 where the low digit overran and by 0x60 where the high
/// one did: up after an addition, down after a subtraction. After a
/// subtraction the flags alone tell; after an addition so does the digit.
pub proof fn law_daa_on_every_value<B: Bus>(m: Machine<B>)
    ensures
        ({
            let a = m.cpu.a;
            let f = m.cpu.f;
            let r = m.execute(0x27);
            let low = f.h || (!f.n && a % 16 >= 10);
            let high = f.c || (!f.n && a >= 0x9a);
            let by = (if low {
                0x06int
            } else {
                0
            }) + (if high {
                0x60int
            } else {
                0
            });
            &&& f.n ==> (r.cpu.a - a + by) % 0x100 == 0
            &&& !f.n ==> (r.cpu.a - a - by) % 0x100 == 0
            &&& r == (Machine::<B> {
                cpu: CpuState {
                    a: r.cpu.a,
                    f: FlagState { z: r.cpu.a == 0, n: f.n, h: false, c: high },
                    ..m.cpu
                },
                ..m
            })
        }),
{
}

} // verus!
