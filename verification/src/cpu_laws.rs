//! What follows for the CPU as a whole.

use crate::bus::Bus;
use crate::isa::{CpuState, Machine};
use crate::memory::Memory;
use vstd::prelude::*;

verus! {

// ----- time -----

/// What an instruction may cost beyond its opcode fetch.
spec fn whole_mcycles(t: int, most: int) -> bool {
    0 <= t <= most && t % 4 == 0
}

proof fn lemma_time_cb<B: Bus>(m: Machine<B>)
    ensures
        whole_mcycles(m.execute_cb().elapsed - m.elapsed, 12),
{
}

proof fn lemma_time_quarter0<B: Bus>(m: Machine<B>, opcode: u8)
    ensures
        whole_mcycles(m.execute_quarter0(opcode).elapsed - m.elapsed, 16),
{
}

proof fn lemma_time_quarter1<B: Bus>(m: Machine<B>, opcode: u8)
    requires
        0x40 <= opcode < 0x80,
    ensures
        whole_mcycles(m.execute_quarter1(opcode).elapsed - m.elapsed, 4),
{
}

proof fn lemma_time_quarter2<B: Bus>(m: Machine<B>, opcode: u8)
    ensures
        whole_mcycles(m.execute_quarter2(opcode).elapsed - m.elapsed, 4),
{
}

proof fn lemma_time_quarter3<B: Bus>(m: Machine<B>, opcode: u8)
    ensures
        whole_mcycles(m.execute_quarter3(opcode).elapsed - m.elapsed, 20),
{
    lemma_time_cb(m);
}

proof fn lemma_time_execute<B: Bus>(m: Machine<B>, opcode: u8)
    ensures
        whole_mcycles(m.execute(opcode).elapsed - m.elapsed, 20),
{
    if opcode < 0x40 {
        lemma_time_quarter0(m, opcode);
    } else if opcode < 0x80 {
        lemma_time_quarter1(m, opcode);
    } else if opcode < 0xc0 {
        lemma_time_quarter2(m, opcode);
    } else {
        lemma_time_quarter3(m, opcode);
    }
}

proof fn lemma_time_fetched<B: Bus>(m: Machine<B>, m1: Machine<B>, opcode: u8)
    requires
        m1.elapsed == m.elapsed + 4,
    ensures
        ({
            let m2 = m1.execute(opcode);
            whole_mcycles(m2.with_cpu(m2.cpu.settle_ime()).elapsed - m.elapsed - 4, 20)
        }),
{
    lemma_time_execute(m1, opcode);
}

proof fn lemma_time_service<B: Bus>(m: Machine<B>)
    ensures
        m.service().elapsed == m.elapsed + 20,
{
}

/// A step takes 4, 8, 12, 16, 20 or 24 T-cycles.
#[verifier::rlimit(40)]
pub proof fn law_step_takes_one_to_six_mcycles<B: Bus>(m: Machine<B>)
    ensures
        4 <= m.step().elapsed - m.elapsed <= 24,
        (m.step().elapsed - m.elapsed) % 4 == 0,
{
    let awake = if m.pending() != 0 {
        m.with_cpu(CpuState { halted: false, ..m.cpu })
    } else {
        m
    };
    let (m1, opcode) = awake.fetch8();
    lemma_time_service(awake);
    lemma_time_fetched(m, m1, opcode);
    assert(whole_mcycles(m.step().elapsed - m.elapsed - 4, 20));
}

// ----- halting and locking -----

/// A locked CPU stays as it is for ever; time goes on, and no interrupt is
/// taken.
pub proof fn law_locked_cpu_stays_locked<B: Bus>(m: Machine<B>)
    requires
        m.cpu.locked,
    ensures
        m.step() == m.mcycle(),
        m.step().cpu == m.cpu,
{
}

/// A halted CPU with nothing pending idles for one M-cycle.
pub proof fn law_halted_cpu_idles<B: Bus>(m: Machine<B>)
    requires
        m.cpu.halted,
        !m.cpu.locked,
        m.pending() == 0,
    ensures
        m.step() == m.mcycle(),
{
}

/// An enabled interrupt that is raised ends HALT, whether or not interrupts
/// are on.
pub proof fn law_pending_interrupt_wakes<B: Bus>(m: Machine<B>)
    requires
        m.cpu.halted,
        !m.cpu.locked,
        m.pending() != 0,
    ensures
        m.step() == m.with_cpu(CpuState { halted: false, ..m.cpu }).step(),
{
}

/// The opcodes that the hardware does not have.
pub open spec fn illegal(opcode: u8) -> bool {
    ||| opcode == 0xd3
    ||| opcode == 0xdb
    ||| opcode == 0xdd
    ||| opcode == 0xe3
    ||| opcode == 0xe4
    ||| opcode == 0xeb
    ||| opcode == 0xec
    ||| opcode == 0xed
    ||| opcode == 0xf4
    ||| opcode == 0xfc
    ||| opcode == 0xfd
}

proof fn lemma_cb_keeps_lock<B: Bus>(m: Machine<B>)
    ensures
        m.execute_cb().cpu.locked == m.cpu.locked,
{
}

proof fn lemma_quarter0_keeps_lock<B: Bus>(m: Machine<B>, opcode: u8)
    ensures
        m.execute_quarter0(opcode).cpu.locked == m.cpu.locked,
{
}

proof fn lemma_quarter3_locks<B: Bus>(m: Machine<B>, opcode: u8)
    requires
        !m.cpu.locked,
        opcode >= 0xc0,
    ensures
        m.execute_quarter3(opcode).cpu.locked <==> illegal(opcode),
        illegal(opcode) ==> m.execute_quarter3(opcode) == m.lock(),
{
    let y = (opcode as int / 8) % 8;
    let z = opcode as int % 8;
    assert(opcode == 0xc0 + 8 * y + z);
    lemma_cb_keeps_lock(m);
}

/// Just the eleven illegal opcodes lock the CPU, and they do nothing else.
pub proof fn law_illegal_opcodes_lock<B: Bus>(m: Machine<B>, opcode: u8)
    requires
        !m.cpu.locked,
    ensures
        m.execute(opcode).cpu.locked <==> illegal(opcode),
        illegal(opcode) ==> m.execute(opcode) == m.lock(),
{
    if opcode < 0x40 {
        lemma_quarter0_keeps_lock(m, opcode);
    } else if opcode >= 0xc0 {
        lemma_quarter3_locks(m, opcode);
    }
}

/// With the HALT bug armed the byte at PC is read twice: the first fetch
/// leaves PC where it is and disarms the bug.
pub proof fn law_halt_bug_reads_a_byte_twice<B: Bus>(m: Machine<B>)
    requires
        m.cpu.halt_bug,
    ensures
        m.fetch8().0.cpu == (CpuState { halt_bug: false, ..m.cpu }),
        m.fetch8().1 == B::read_cpu_of(m.mcycle().bus, m.cpu.pc),
        m.fetch8().0.fetch8().1 == B::read_cpu_of(m.fetch8().0.mcycle().bus, m.cpu.pc),
        m.fetch8().0.fetch8().0.cpu.pc == crate::isa::offset(m.cpu.pc, 1),
{
}

/// HALT arms its bug just where interrupts are off and one is pending.
pub proof fn law_halt_bug_needs_pending_with_ime_off<B: Bus>(m: Machine<B>)
    requires
        !m.cpu.halt_bug,
    ensures
        m.execute(0x76).cpu.halt_bug <==> !m.cpu.ime && m.pending() != 0,
        m.execute(0x76).cpu.halted <==> m.cpu.halted || m.pending() == 0,
{
}

// ----- interrupts -----

/// EI alone does not turn interrupts on: they come on after the instruction
/// that follows it.
pub proof fn law_ei_takes_effect_one_instruction_late<B: Bus>(m: Machine<B>)
    ensures
        m.execute(0xfb).cpu.settle_ime() == (CpuState { ime_delay: 1, ..m.cpu }),
        m.cpu.ime_delay == 1 ==> m.cpu.settle_ime() == (CpuState { ime: true, ime_delay: 0, ..m.cpu }),
{
}

/// DI turns interrupts off at once, also those that an EI was about to turn
/// on.
pub proof fn law_di_cancels_ei<B: Bus>(m: Machine<B>)
    ensures
        m.execute(0xf3).cpu.settle_ime() == (CpuState { ime: false, ime_delay: 0, ..m.cpu }),
{
}

/// Of the raised and enabled lines the lowest is the one taken.
pub proof fn law_lowest_line_is_taken(pending: u8)
    requires
        pending & 0x1f != 0,
    ensures
        crate::isa::lowest_line(pending) < 5,
        pending & (1u8 << crate::isa::lowest_line(pending)) != 0,
        pending & ((1u8 << crate::isa::lowest_line(pending)) - 1) as u8 == 0,
{
    crate::bits::lemma_lowest_line(pending);
}

/// The machine at the point where an interrupt's vector is settled: woken, with
/// IME clear and PC pushed.
pub open spec fn settling<B: Bus>(m: Machine<B>) -> Machine<B> {
    m.with_cpu(CpuState { halted: false, ..m.cpu }).interrupted()
}

/// Taking an interrupt takes 20 T-cycles, turns interrupts off and pushes PC;
/// then execution goes to the vector of the lowest line that is raised and
/// enabled at that point, and of IF just its bit is cleared. Where the push has
/// left none, execution goes to 0x0000 and IF stays. The other registers stay.
pub proof fn law_interrupt_is_taken<B: Bus>(m: Machine<B>)
    requires
        !m.cpu.locked,
        m.cpu.ime,
        m.pending() != 0,
    ensures
        ({
            let pushed = settling(m);
            let line = crate::isa::lowest_line(pushed.pending());
            &&& m.step().elapsed == m.elapsed + 20
            &&& m.step().cpu == (CpuState {
                ime: false,
                halted: false,
                sp: crate::isa::offset(m.cpu.sp, -2),
                pc: if pushed.pending() != 0 {
                    (0x40 + 8 * line) as u16
                } else {
                    0x0000
                },
                ..m.cpu
            })
            &&& m.step().bus == (if pushed.pending() != 0 {
                B::after_write(
                    pushed.bus,
                    0xff0f,
                    B::read_of(pushed.bus, 0xff0f) & !(1u8 << line),
                )
            } else {
                pushed.bus
            })
        }),
{
}

/// In flat memory, where neither pushed byte lands on IF or IE, the interrupt
/// taken is the lowest that was pending when the step began.
pub proof fn law_interrupt_that_was_pending_is_taken(m: Machine<Memory>)
    requires
        m.bus.len() == 0x10000,
        !m.cpu.locked,
        m.cpu.ime,
        m.pending() != 0,
        crate::isa::offset(m.cpu.sp, -1) != 0xff0f,
        crate::isa::offset(m.cpu.sp, -1) != 0xffff,
        crate::isa::offset(m.cpu.sp, -2) != 0xff0f,
        crate::isa::offset(m.cpu.sp, -2) != 0xffff,
    ensures
        m.step().cpu.pc == 0x40 + 8 * crate::isa::lowest_line(m.pending()),
        m.step().bus[0xff0f] == m.bus[0xff0f] & !(1u8 << crate::isa::lowest_line(m.pending())),
{
    assert(settling(m).pending() == m.pending());
}

/// In flat memory a push of PC's high byte over IE enables just the lines that
/// the byte names, and the interrupt is one of those, or none.
pub proof fn law_push_over_ie_decides(m: Machine<Memory>)
    requires
        m.bus.len() == 0x10000,
        !m.cpu.locked,
        m.cpu.ime,
        m.pending() != 0,
        m.cpu.sp == 0x0000,
    ensures
        ({
            let left = m.bus[0xff0f] & crate::isa::hi_byte(m.cpu.pc) & 0x1f;
            &&& m.step().bus[0xffff] == crate::isa::hi_byte(m.cpu.pc)
            &&& left != 0 ==> m.step().cpu.pc == 0x40 + 8 * crate::isa::lowest_line(left)
            &&& left == 0 ==> m.step().cpu.pc == 0x0000 && m.step().bus[0xff0f] == m.bus[0xff0f]
        }),
{
    assert(settling(m).pending() == m.bus[0xff0f] & crate::isa::hi_byte(m.cpu.pc) & 0x1f);
}

/// With interrupts off none is taken: an instruction runs.
pub proof fn law_no_interrupt_with_ime_off<B: Bus>(m: Machine<B>)
    requires
        !m.cpu.locked,
        !m.cpu.ime,
        !m.cpu.halted,
    ensures
        m.step() == ({
            let (m1, opcode) = m.fetch8();
            let m2 = m1.execute(opcode);
            m2.with_cpu(m2.cpu.settle_ime())
        }),
{
}

/// In flat memory the interrupted PC is on the stack, unless it was pushed over
/// IF, where the bit of the line taken is then cleared from it.
pub proof fn law_interrupt_saves_pc(m: Machine<Memory>)
    requires
        m.bus.len() == 0x10000,
        !m.cpu.locked,
        m.cpu.ime,
        m.pending() != 0,
        settling(m).pending() == 0 || (m.cpu.sp != 0xff10 && m.cpu.sp != 0xff11),
    ensures
        m.step().pop16().1 == m.cpu.pc,
{
}

// ----- registers and flags -----

/// A register pair reads back what was written; AF without the low nibble,
/// which is always zero.
pub proof fn law_pairs_read_back(cpu: CpuState, p: int, w: u16)
    ensures
        cpu.with_pair(p, w).pair(p) == w,
        cpu.with_af(w).af() == w - w % 16,
        cpu.af() % 16 == 0,
{
    crate::flags::law_flags_roundtrip(cpu.f, (w % 256) as u8);
}

/// Loads between the eight operands change no flag.
pub proof fn law_loads_keep_flags<B: Bus>(m: Machine<B>, opcode: u8)
    requires
        0x40 <= opcode < 0x80,
    ensures
        m.execute(opcode).cpu.f == m.cpu.f,
{
}

/// A comparison sets the flags of a subtraction and leaves A.
pub proof fn law_compare_is_subtract_without_result(cpu: CpuState, v: u8)
    ensures
        cpu.alu(7, v).a == cpu.a,
        cpu.alu(7, v).f == cpu.alu(2, v).f,
        cpu.alu(7, v).f.z <==> cpu.a == v,
        cpu.alu(7, v).f.c <==> cpu.a < v,
{
}

/// Adding and then subtracting the same value gives A back.
pub proof fn law_subtract_undoes_add(cpu: CpuState, v: u8)
    ensures
        cpu.alu(0, v).alu(2, v).a == cpu.a,
{
    let sum = (cpu.a + v) % 0x100;
    assert(sum == cpu.a + v || sum == cpu.a + v - 0x100);
    assert(cpu.alu(0, v).a == sum);
    assert((sum - v) % 0x100 == cpu.a);
}

/// RLC and RRC undo each other, and SWAP undoes itself.
pub proof fn law_rotations_undo_each_other(cpu: CpuState, v: u8)
    ensures
        cpu.rotated(1, cpu.rotated(0, v)) == v,
        cpu.rotated(0, cpu.rotated(1, v)) == v,
        cpu.rotated(6, cpu.rotated(6, v)) == v,
{
}

/// The decimal number that a byte of two decimal digits stands for.
pub open spec fn decimal(b: u8) -> int {
    b / 16 * 10 + b % 16
}

/// That both nibbles of a byte are decimal digits.
pub open spec fn is_decimal(b: u8) -> bool {
    b / 16 < 10 && b % 16 < 10
}

/// Two digits of a byte, and of the number that they stand for.
proof fn lemma_two_digits(t: int, d: int)
    requires
        0 <= t < 10,
        0 <= d < 10,
    ensures
        (16 * t + d) / 16 == t,
        (16 * t + d) % 16 == d,
        (16 * t + d) % 0x100 == 16 * t + d,
        (16 * t + d + 0x100) % 0x100 == 16 * t + d,
        (10 * t + d) % 100 == 10 * t + d,
        (10 * t + d + 100) % 100 == 10 * t + d,
        (10 * t + d - 100) % 100 == 10 * t + d,
{
}

spec fn daa_sum(s: int, half: bool) -> int {
    let r = s % 0x100;
    (r + (if half || r % 16 > 9 {
        6int
    } else {
        0
    }) + (if s > 0xff || r > 0x99 {
        0x60int
    } else {
        0
    })) % 0x100
}

/// The tens and the units of a decimal sum, as DAA leaves them.
proof fn lemma_daa_sum(tens: int, digit: int)
    requires
        0 <= tens <= 18,
        0 <= digit <= 19,
    ensures
        ({
            let s = 16 * tens + digit;
            let sum = 10 * tens + digit;
            let r = daa_sum(s, digit > 15);
            &&& (s > 0xff || s % 0x100 > 0x99) == (sum >= 100)
            &&& r / 16 * 10 + r % 16 == sum % 100
            &&& r / 16 < 10
            &&& r % 16 < 10
        }),
{
    let s = 16 * tens + digit;
    let t = (if digit > 9 {
        tens + 1
    } else {
        tens
    });
    let d = (if digit > 9 {
        digit - 10
    } else {
        digit
    });
    assert(s % 16 == (if digit > 15 {
        digit - 16
    } else {
        digit
    }));
    assert(s % 0x100 == (if s > 0xff {
        s - 0x100
    } else {
        s
    }));
    assert((s % 0x100) % 16 == s % 16);
    if t >= 10 {
        lemma_two_digits(t - 10, d);
    } else {
        lemma_two_digits(t, d);
    }
}

/// DAA after an addition of decimal digits: the decimal sum, with the carry
/// out of it.
pub proof fn law_daa_adjusts_sums(cpu: CpuState, v: u8, carry: bool)
    requires
        is_decimal(cpu.a),
        is_decimal(v),
    ensures
        ({
            let sum = decimal(cpu.a) + decimal(v) + crate::isa::bit(carry);
            let r = cpu.add(v, crate::isa::bit(carry)).daa();
            is_decimal(r.a) && decimal(r.a) == sum % 100 && r.f.c == (sum >= 100)
        }),
{
    let c = crate::isa::bit(carry);
    let tens = cpu.a as int / 16 + v as int / 16;
    let digit = cpu.a as int % 16 + v as int % 16 + c;
    assert(cpu.a + v + c == 16 * tens + digit);
    lemma_daa_sum(tens, digit);
}

spec fn daa_difference(s: int, half: bool) -> int {
    (s % 0x100 - (if half {
        6int
    } else {
        0
    }) - (if s < 0 {
        0x60int
    } else {
        0
    })) % 0x100
}

/// The tens and the units of a decimal difference, as DAA leaves them.
proof fn lemma_daa_difference(tens: int, digit: int)
    requires
        -9 <= tens <= 9,
        -10 <= digit <= 9,
    ensures
        ({
            let s = 16 * tens + digit;
            let diff = 10 * tens + digit;
            let r = daa_difference(s, digit < 0);
            &&& (s < 0) == (diff < 0)
            &&& r / 16 * 10 + r % 16 == diff % 100
            &&& r / 16 < 10
            &&& r % 16 < 10
        }),
{
    let s = 16 * tens + digit;
    let t = (if digit < 0 {
        tens - 1
    } else {
        tens
    });
    let d = (if digit < 0 {
        digit + 10
    } else {
        digit
    });
    assert(s % 0x100 == (if s < 0 {
        s + 0x100
    } else {
        s
    }));
    if t < 0 {
        lemma_two_digits(t + 10, d);
    } else {
        lemma_two_digits(t, d);
    }
}

/// DAA after a subtraction of decimal digits: the decimal difference, with the
/// borrow out of it.
pub proof fn law_daa_adjusts_differences(cpu: CpuState, v: u8, carry: bool)
    requires
        is_decimal(cpu.a),
        is_decimal(v),
    ensures
        ({
            let diff = decimal(cpu.a) - decimal(v) - crate::isa::bit(carry);
            let r = cpu.sub(v, crate::isa::bit(carry)).daa();
            is_decimal(r.a) && decimal(r.a) == diff % 100 && r.f.c == (diff < 0)
        }),
{
    let c = crate::isa::bit(carry);
    let tens = cpu.a as int / 16 - v as int / 16;
    let digit = cpu.a as int % 16 - v as int % 16 - c;
    assert(cpu.a - v - c == 16 * tens + digit);
    lemma_daa_difference(tens, digit);
}

// ----- the stack, in flat memory -----

/// A pop gives back what was pushed, and SP.
pub proof fn law_pop_undoes_push(m: Machine<Memory>, value: u16)
    requires
        m.bus.len() == 0x10000,
    ensures
        m.push16(value).pop16().1 == value,
        m.push16(value).pop16().0.cpu == m.cpu,
{
}

/// A return goes back to where the call came from, with the stack as it was.
pub proof fn law_return_undoes_call(m: Machine<Memory>, target: u16)
    requires
        m.bus.len() == 0x10000,
    ensures
        m.call_to(target).cpu.pc == target,
        m.call_to(target).ret().cpu == m.cpu,
{
}

// ----- the price of instructions -----

/// A load between operands takes an M-cycle, and one more where memory is one
/// of them.
pub proof fn law_loads_pay_for_memory<B: Bus>(m: Machine<B>, opcode: u8)
    requires
        0x40 <= opcode < 0x80,
        opcode != 0x76,
    ensures
        m.execute(opcode).elapsed - m.elapsed == (if opcode % 8 == 6 || (opcode / 8) % 8 == 6 {
            4int
        } else {
            0
        }),
{
}

/// What jumps, calls and returns cost beyond their opcode, taken and not.
pub proof fn law_taken_branches_cost_more<B: Bus>(m: Machine<B>, taken: bool)
    ensures
        m.jr(taken).elapsed - m.elapsed == (if taken {
            8int
        } else {
            4
        }),
        m.jp(taken).elapsed - m.elapsed == (if taken {
            12int
        } else {
            8
        }),
        m.call(taken).elapsed - m.elapsed == (if taken {
            20int
        } else {
            8
        }),
        m.ret_if(taken).elapsed - m.elapsed == (if taken {
            16int
        } else {
            4
        }),
        !taken ==> m.call(taken).cpu.sp == m.cpu.sp && m.ret_if(taken).cpu.sp == m.cpu.sp,
{
}

/// One of the seven register operands reads back what was written, and no
/// other changes.
pub proof fn law_operands_read_back<B: Bus>(m: Machine<B>, r: int, other: int, v: u8)
    requires
        0 <= r < 8,
        0 <= other < 8,
        r != 6,
        other != 6,
        other != r,
    ensures
        m.with_operand(r, v).operand(r).1 == v,
        m.with_operand(r, v).operand(other).1 == m.operand(other).1,
        m.with_operand(r, v).cpu.f == m.cpu.f,
{
}

/// In flat memory the operand (HL) does too.
pub proof fn law_memory_operand_reads_back(m: Machine<Memory>, v: u8)
    requires
        m.bus.len() == 0x10000,
    ensures
        m.with_operand(6, v).operand(6).1 == v,
        m.with_operand(6, v).cpu == m.cpu,
{
}

} // verus!
