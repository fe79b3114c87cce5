//! SM83 CPU
//!
//! Decodes and executes the DMG instruction set against a [`Bus`]. The CPU
//! owns the register file (A, F, B, C, D, E, H, L, SP, PC), the HALT and IME
//! state, and the small latches of the HALT bug and of EI, which takes effect
//! one instruction late.
//!
//! What an instruction does is stated in [`crate::isa`]; the functions here
//! carry it out. [`Cpu::step`] returns the T-cycles that went by, which are
//! those it ticked the bus by.

use crate::bits;
use crate::bus::Bus;
use crate::flags::{FlagState, Flags};
use crate::isa::{CpuState, Machine};
use vstd::prelude::*;

verus! {

pub struct Cpu {
    pub a: u8,
    pub f: Flags,
    pub b: u8,
    pub c: u8,
    pub d: u8,
    pub e: u8,
    pub h: u8,
    pub l: u8,
    pub sp: u16,
    pub pc: u16,
    pub halted: bool,
    pub ime: bool,
    pub halt_bug: bool,
    pub locked: bool,
    pub ime_delay: u8,
}

impl View for Cpu {
    type V = CpuState;

    open spec fn view(&self) -> CpuState {
        CpuState {
            a: self.a,
            f: self.f@,
            b: self.b,
            c: self.c,
            d: self.d,
            e: self.e,
            h: self.h,
            l: self.l,
            sp: self.sp,
            pc: self.pc,
            halted: self.halted,
            ime: self.ime,
            halt_bug: self.halt_bug,
            locked: self.locked,
            ime_delay: self.ime_delay,
        }
    }
}

impl<B: Bus> Machine<B> {
    /// A machine at the start of a step.
    pub open spec fn of(cpu: CpuState, bus: B::State) -> Machine<B> {
        Machine { cpu, bus, elapsed: 0 }
    }

    /// That `cpu` and `bus` are in the states of this machine.
    pub open spec fn holds(self, cpu: Cpu, bus: B) -> bool {
        self.cpu == cpu@ && self.bus == bus.state()
    }
}

impl Cpu {
    /// All registers zero, interrupts off.
    pub fn new() -> (r: Self)
        ensures
            r@ == CpuState::reset(),
    {
        Self {
            a: 0,
            f: Flags::default(),
            b: 0,
            c: 0,
            d: 0,
            e: 0,
            h: 0,
            l: 0,
            sp: 0,
            pc: 0,
            halted: false,
            ime: false,
            halt_bug: false,
            locked: false,
            ime_delay: 0,
        }
    }

    pub fn af(&self) -> (r: u16)
        ensures
            r == self@.af(),
    {
        self.a as u16 * 256 + self.f.bits() as u16
    }

    pub fn set_af(&mut self, value: u16)
        ensures
            final(self)@ == old(self)@.with_af(value),
    {
        self.a = (value / 256) as u8;
        self.f = Flags::from_bits((value % 256) as u8);
    }

    pub fn bc(&self) -> (r: u16)
        ensures
            r == self@.bc(),
    {
        self.b as u16 * 256 + self.c as u16
    }

    pub fn de(&self) -> (r: u16)
        ensures
            r == self@.de(),
    {
        self.d as u16 * 256 + self.e as u16
    }

    pub fn hl(&self) -> (r: u16)
        ensures
            r == self@.hl(),
    {
        self.h as u16 * 256 + self.l as u16
    }

    pub fn set_bc(&mut self, value: u16)
        ensures
            final(self)@ == old(self)@.with_bc(value),
    {
        self.b = (value / 256) as u8;
        self.c = (value % 256) as u8;
    }

    pub fn set_de(&mut self, value: u16)
        ensures
            final(self)@ == old(self)@.with_de(value),
    {
        self.d = (value / 256) as u8;
        self.e = (value % 256) as u8;
    }

    pub fn set_hl(&mut self, value: u16)
        ensures
            final(self)@ == old(self)@.with_hl(value),
    {
        self.h = (value / 256) as u8;
        self.l = (value % 256) as u8;
    }

    fn mcycle<B: Bus>(&self, bus: &mut B)
        ensures
            forall|m: Machine<B>| #[trigger]
                m.holds(*self, *old(bus)) ==> m.mcycle().holds(*self, *final(bus)),
    {
        bus.tick(4);
    }

    fn idle<B: Bus>(&self, bus: &mut B)
        ensures
            forall|m: Machine<B>| #[trigger]
                m.holds(*self, *old(bus)) ==> m.mcycle().holds(*self, *final(bus)),
    {
        self.mcycle(bus);
    }

    fn read8_timed<B: Bus>(&self, bus: &mut B, addr: u16) -> (r: u8)
        ensures
            forall|m: Machine<B>| #[trigger]
                m.holds(*self, *old(bus)) ==> m.read8(addr).0.holds(*self, *final(bus))
                    && r == m.read8(addr).1,
    {
        self.mcycle(bus);
        bus.read8_cpu(addr)
    }

    fn write8_timed<B: Bus>(&self, bus: &mut B, addr: u16, value: u8)
        ensures
            forall|m: Machine<B>| #[trigger]
                m.holds(*self, *old(bus)) ==> m.write8(addr, value).holds(*self, *final(bus)),
    {
        self.mcycle(bus);
        bus.write8_cpu(addr, value);
    }

    fn read8_timed_idu<B: Bus>(&self, bus: &mut B, addr: u16, idu_addr: u16) -> (r: u8)
        ensures
            forall|m: Machine<B>| #[trigger]
                m.holds(*self, *old(bus))
                    ==> m.read8_idu(addr, idu_addr).0.holds(*self, *final(bus))
                    && r == m.read8_idu(addr, idu_addr).1,
    {
        self.mcycle(bus);
        bus.read8_cpu_idu(addr, idu_addr)
    }

    fn write8_timed_idu<B: Bus>(&self, bus: &mut B, addr: u16, value: u8, idu_addr: u16)
        ensures
            forall|m: Machine<B>| #[trigger]
                m.holds(*self, *old(bus))
                    ==> m.write8_idu(addr, value, idu_addr).holds(*self, *final(bus)),
    {
        self.mcycle(bus);
        bus.write8_cpu_idu(addr, value, idu_addr);
    }

    fn idu_timed<B: Bus>(&self, bus: &mut B, addr: u16)
        ensures
            forall|m: Machine<B>| #[trigger]
                m.holds(*self, *old(bus)) ==> m.idu(addr).holds(*self, *final(bus)),
    {
        self.mcycle(bus);
        bus.idu_glitch_cpu(addr);
    }

    fn fetch8<B: Bus>(&mut self, bus: &mut B) -> (r: u8)
        ensures
            forall|m: Machine<B>| #[trigger]
                m.holds(*old(self), *old(bus)) ==> m.fetch8().0.holds(*final(self), *final(bus))
                    && r == m.fetch8().1,
    {
        let byte: u8 = self.read8_timed(bus, self.pc);
        if self.halt_bug {
            self.halt_bug = false;
        } else {
            self.pc = self.pc.wrapping_add(1);
        }
        byte
    }

    fn fetch16<B: Bus>(&mut self, bus: &mut B) -> (r: u16)
        ensures
            forall|m: Machine<B>| #[trigger]
                m.holds(*old(self), *old(bus)) ==> m.fetch16().0.holds(*final(self), *final(bus))
                    && r == m.fetch16().1,
    {
        let lo: u8 = self.fetch8(bus);
        let hi: u8 = self.fetch8(bus);
        hi as u16 * 256 + lo as u16
    }

    fn push16<B: Bus>(&mut self, bus: &mut B, value: u16)
        ensures
            forall|m: Machine<B>| #[trigger]
                m.holds(*old(self), *old(bus)) ==> m.push16(value).holds(*final(self), *final(bus)),
    {
        let sp0: u16 = self.sp;
        let sp1: u16 = sp0.wrapping_sub(1);
        self.write8_timed_idu(bus, sp1, (value / 256) as u8, sp0);
        let sp2: u16 = sp1.wrapping_sub(1);
        self.write8_timed_idu(bus, sp2, (value % 256) as u8, sp1);
        self.sp = sp2;
    }

    /// The reads of a POP leave the increment unit quiet: they are plain reads.
    fn pop16<B: Bus>(&mut self, bus: &mut B) -> (r: u16)
        ensures
            forall|m: Machine<B>| #[trigger]
                m.holds(*old(self), *old(bus)) ==> m.pop16().0.holds(*final(self), *final(bus))
                    && r == m.pop16().1,
    {
        let lo: u8 = self.read8_timed(bus, self.sp);
        let hi: u8 = self.read8_timed(bus, self.sp.wrapping_add(1));
        self.sp = self.sp.wrapping_add(2);
        hi as u16 * 256 + lo as u16
    }

    /// The operand that three opcode bits name: B, C, D, E, H, L, (HL) or A.
    pub fn read_r<B: Bus>(&self, idx: u8, bus: &mut B) -> (r: u8)
        ensures
            forall|m: Machine<B>| #[trigger]
                m.holds(*self, *old(bus)) ==> m.operand(idx as int % 8).0.holds(*self, *final(bus))
                    && r == m.operand(idx as int % 8).1,
            r == Machine::<B>::of(self@, old(bus).state()).operand(idx as int % 8).1,
            final(bus).state() == Machine::<B>::of(self@, old(bus).state()).operand(
                idx as int % 8,
            ).0.bus,
    {
        assert(Machine::<B>::of(self@, bus.state()).holds(*self, *bus));
        match idx % 8 {
            0 => self.b,
            1 => self.c,
            2 => self.d,
            3 => self.e,
            4 => self.h,
            5 => self.l,
            6 => self.read8_timed(bus, self.hl()),
            _ => self.a,
        }
    }

    /// Replace the operand that three opcode bits name.
    pub fn write_r<B: Bus>(&mut self, idx: u8, value: u8, bus: &mut B)
        ensures
            forall|m: Machine<B>| #[trigger]
                m.holds(*old(self), *old(bus))
                    ==> m.with_operand(idx as int % 8, value).holds(*final(self), *final(bus)),
            final(self)@ == Machine::<B>::of(old(self)@, old(bus).state()).with_operand(
                idx as int % 8,
                value,
            ).cpu,
            final(bus).state() == Machine::<B>::of(old(self)@, old(bus).state()).with_operand(
                idx as int % 8,
                value,
            ).bus,
    {
        assert(Machine::<B>::of(self@, bus.state()).holds(*self, *bus));
        match idx % 8 {
            0 => self.b = value,
            1 => self.c = value,
            2 => self.d = value,
            3 => self.e = value,
            4 => self.h = value,
            5 => self.l = value,
            6 => self.write8_timed(bus, self.hl(), value),
            _ => self.a = value,
        }
    }

    fn add_a(&mut self, value: u8)
        ensures
            final(self)@ == old(self)@.alu(0, value),
    {
        proof {
            bits::lemma_low_nibble(self.a);
            bits::lemma_low_nibble(value);
        }
        let sum: u16 = self.a as u16 + value as u16;
        let half: bool = (self.a & 0xf) + (value & 0xf) > 0xf;
        self.a = (sum % 256) as u8;
        self.f.set_z(self.a == 0);
        self.f.set_n(false);
        self.f.set_h(half);
        self.f.set_c(sum > 0xff);
    }

    fn adc_a(&mut self, value: u8)
        ensures
            final(self)@ == old(self)@.alu(1, value),
    {
        proof {
            bits::lemma_low_nibble(self.a);
            bits::lemma_low_nibble(value);
        }
        let carry_in: u8 = if self.f.c() {
            1
        } else {
            0
        };
        let sum: u16 = self.a as u16 + value as u16 + carry_in as u16;
        let half: bool = (self.a & 0xf) + (value & 0xf) + carry_in > 0xf;
        self.a = (sum % 256) as u8;
        self.f.set_z(self.a == 0);
        self.f.set_n(false);
        self.f.set_h(half);
        self.f.set_c(sum > 0xff);
    }

    fn sub_a(&mut self, value: u8)
        ensures
            final(self)@ == old(self)@.alu(2, value),
    {
        proof {
            bits::lemma_low_nibble(self.a);
            bits::lemma_low_nibble(value);
        }
        let borrow: bool = self.a < value;
        let half: bool = (self.a & 0xf) < (value & 0xf);
        self.a = self.a.wrapping_sub(value);
        self.f.set_z(self.a == 0);
        self.f.set_n(true);
        self.f.set_h(half);
        self.f.set_c(borrow);
    }

    fn sbc_a(&mut self, value: u8)
        ensures
            final(self)@ == old(self)@.alu(3, value),
    {
        proof {
            bits::lemma_low_nibble(self.a);
            bits::lemma_low_nibble(value);
        }
        let carry_in: u8 = if self.f.c() {
            1
        } else {
            0
        };
        let borrow: bool = (self.a as u16) < value as u16 + carry_in as u16;
        let half: bool = (self.a & 0xf) < (value & 0xf) + carry_in;
        self.a = self.a.wrapping_sub(value).wrapping_sub(carry_in);
        self.f.set_z(self.a == 0);
        self.f.set_n(true);
        self.f.set_h(half);
        self.f.set_c(borrow);
    }

    fn and_a(&mut self, value: u8)
        ensures
            final(self)@ == old(self)@.alu(4, value),
    {
        self.a = self.a & value;
        self.f.set_z(self.a == 0);
        self.f.set_n(false);
        self.f.set_h(true);
        self.f.set_c(false);
    }

    fn xor_a(&mut self, value: u8)
        ensures
            final(self)@ == old(self)@.alu(5, value),
    {
        self.a = self.a ^ value;
        self.f.set_z(self.a == 0);
        self.f.set_n(false);
        self.f.set_h(false);
        self.f.set_c(false);
    }

    fn or_a(&mut self, value: u8)
        ensures
            final(self)@ == old(self)@.alu(6, value),
    {
        self.a = self.a | value;
        self.f.set_z(self.a == 0);
        self.f.set_n(false);
        self.f.set_h(false);
        self.f.set_c(false);
    }

    fn cp_a(&mut self, value: u8)
        ensures
            final(self)@ == old(self)@.alu(7, value),
    {
        proof {
            bits::lemma_low_nibble(self.a);
            bits::lemma_low_nibble(value);
        }
        self.f.set_z(self.a == value);
        self.f.set_n(true);
        self.f.set_h((self.a & 0xf) < (value & 0xf));
        self.f.set_c(self.a < value);
    }

    fn inc_r<B: Bus>(&mut self, idx: u8, bus: &mut B) -> (cycles: u8)
        requires
            idx < 8,
        ensures
            forall|m: Machine<B>| #[trigger]
                m.holds(*old(self), *old(bus))
                    ==> m.inc(idx as int).holds(*final(self), *final(bus))
                    && cycles == m.inc(idx as int).elapsed - m.elapsed + 4,
    {
        let v: u8 = self.read_r(idx, bus);
        let result: u8 = v.wrapping_add(1);
        self.write_r(idx, result, bus);
        self.f.set_z(result == 0);
        self.f.set_n(false);
        self.f.set_h(v % 16 == 15);
        if idx == 6 {
            12
        } else {
            4
        }
    }

    fn dec_r<B: Bus>(&mut self, idx: u8, bus: &mut B) -> (cycles: u8)
        requires
            idx < 8,
        ensures
            forall|m: Machine<B>| #[trigger]
                m.holds(*old(self), *old(bus))
                    ==> m.dec(idx as int).holds(*final(self), *final(bus))
                    && cycles == m.dec(idx as int).elapsed - m.elapsed + 4,
    {
        let v: u8 = self.read_r(idx, bus);
        let result: u8 = v.wrapping_sub(1);
        self.write_r(idx, result, bus);
        self.f.set_z(result == 0);
        self.f.set_n(true);
        self.f.set_h(v % 16 == 0);
        if idx == 6 {
            12
        } else {
            4
        }
    }

    fn add_hl(&mut self, value: u16)
        ensures
            final(self)@ == old(self)@.add_hl(value),
    {
        let hl: u16 = self.hl();
        let half: bool = hl % 0x1000 + value % 0x1000 > 0x0fff;
        let carry: bool = hl as u32 + value as u32 > 0xffff;
        self.set_hl(hl.wrapping_add(value));
        self.f.set_n(false);
        self.f.set_h(half);
        self.f.set_c(carry);
    }

    fn cc_satisfied(&self, cc: u8) -> (r: bool)
        requires
            cc < 4,
        ensures
            r == self@.condition(cc as int),
    {
        match cc {
            0 => !self.f.z(),
            1 => self.f.z(),
            2 => !self.f.c(),
            _ => self.f.c(),
        }
    }

    /// `w` moved by the signed offset that an operand byte encodes.
    fn relative(w: u16, e: u8) -> (r: u16)
        ensures
            r == crate::isa::offset(w, crate::isa::signed(e)),
    {
        if e < 0x80 {
            w.wrapping_add(e as u16)
        } else {
            w.wrapping_sub(0x100 - e as u16)
        }
    }

    fn jr_cc<B: Bus>(&mut self, cc: u8, bus: &mut B) -> (cycles: u8)
        requires
            cc < 4,
        ensures
            forall|m: Machine<B>| #[trigger]
                m.holds(*old(self), *old(bus))
                    ==> m.jr(m.cpu.condition(cc as int)).holds(*final(self), *final(bus))
                    && cycles == m.jr(m.cpu.condition(cc as int)).elapsed - m.elapsed + 4,
    {
        let taken: bool = self.cc_satisfied(cc);
        let e: u8 = self.fetch8(bus);
        if taken {
            self.idle(bus);
            self.pc = Self::relative(self.pc, e);
            12
        } else {
            8
        }
    }

    fn jp_cc<B: Bus>(&mut self, cc: u8, bus: &mut B) -> (cycles: u8)
        requires
            cc < 4,
        ensures
            forall|m: Machine<B>| #[trigger]
                m.holds(*old(self), *old(bus))
                    ==> m.jp(m.cpu.condition(cc as int)).holds(*final(self), *final(bus))
                    && cycles == m.jp(m.cpu.condition(cc as int)).elapsed - m.elapsed + 4,
    {
        let taken: bool = self.cc_satisfied(cc);
        let nn: u16 = self.fetch16(bus);
        if taken {
            self.idle(bus);
            self.pc = nn;
            16
        } else {
            12
        }
    }

    fn call_nn<B: Bus>(&mut self, bus: &mut B) -> (cycles: u8)
        ensures
            forall|m: Machine<B>| #[trigger]
                m.holds(*old(self), *old(bus)) ==> m.call(true).holds(*final(self), *final(bus))
                    && cycles == m.call(true).elapsed - m.elapsed + 4,
    {
        let nn: u16 = self.fetch16(bus);
        self.idu_timed(bus, self.sp);
        self.push16(bus, self.pc);
        self.pc = nn;
        24
    }

    fn call_cc<B: Bus>(&mut self, cc: u8, bus: &mut B) -> (cycles: u8)
        requires
            cc < 4,
        ensures
            forall|m: Machine<B>| #[trigger]
                m.holds(*old(self), *old(bus))
                    ==> m.call(m.cpu.condition(cc as int)).holds(*final(self), *final(bus))
                    && cycles == m.call(m.cpu.condition(cc as int)).elapsed - m.elapsed + 4,
    {
        let taken: bool = self.cc_satisfied(cc);
        let nn: u16 = self.fetch16(bus);
        if taken {
            self.idu_timed(bus, self.sp);
            self.push16(bus, self.pc);
            self.pc = nn;
            24
        } else {
            12
        }
    }

    fn ret_cc<B: Bus>(&mut self, cc: u8, bus: &mut B) -> (cycles: u8)
        requires
            cc < 4,
        ensures
            forall|m: Machine<B>| #[trigger]
                m.holds(*old(self), *old(bus))
                    ==> m.ret_if(m.cpu.condition(cc as int)).holds(*final(self), *final(bus))
                    && cycles == m.ret_if(m.cpu.condition(cc as int)).elapsed - m.elapsed + 4,
    {
        if self.cc_satisfied(cc) {
            self.idle(bus);
            let target: u16 = self.pop16(bus);
            self.pc = target;
            assert(forall|m: Machine<B>| #[trigger]
                m.holds(*old(self), *old(bus)) ==> m.mcycle().pop16().0.jump(target).holds(
                    *self,
                    *bus,
                ));
            self.idle(bus);
            20
        } else {
            self.idle(bus);
            8
        }
    }

    fn rst<B: Bus>(&mut self, vector: u16, bus: &mut B) -> (cycles: u8)
        ensures
            forall|m: Machine<B>| #[trigger]
                m.holds(*old(self), *old(bus))
                    ==> m.call_to(vector).holds(*final(self), *final(bus))
                    && cycles == m.call_to(vector).elapsed - m.elapsed + 4,
    {
        self.idu_timed(bus, self.sp);
        self.push16(bus, self.pc);
        self.pc = vector;
        16
    }

    /// SP plus a signed operand. The flags take both as unsigned: they are the
    /// carries out of the low nibble and the low byte.
    fn add_sp_e(&mut self, e: u8) -> (r: u16)
        ensures
            final(self)@ == old(self)@.sp_plus_flags(e),
            r == crate::isa::offset(old(self).sp, crate::isa::signed(e)),
    {
        let sp: u16 = self.sp;
        self.f.set_z(false);
        self.f.set_n(false);
        self.f.set_h(sp % 16 + (e % 16) as u16 > 0xf);
        self.f.set_c(sp % 256 + e as u16 > 0xff);
        Self::relative(sp, e)
    }

    fn rlc(&mut self, value: u8) -> (r: u8)
        ensures
            final(self)@ == old(self)@.rotate_flags(0, value),
            r == old(self)@.rotated(0, value),
    {
        proof {
            bits::lemma_rotations(value, 0);
        }
        let result: u8 = (value << 1) | (value >> 7);
        self.f.set_z(result == 0);
        self.f.set_n(false);
        self.f.set_h(false);
        self.f.set_c(value & 0x80 != 0);
        result
    }

    fn rrc(&mut self, value: u8) -> (r: u8)
        ensures
            final(self)@ == old(self)@.rotate_flags(1, value),
            r == old(self)@.rotated(1, value),
    {
        proof {
            bits::lemma_rotations(value, 0);
        }
        let result: u8 = (value >> 1) | (value << 7);
        self.f.set_z(result == 0);
        self.f.set_n(false);
        self.f.set_h(false);
        self.f.set_c(value & 0x01 != 0);
        result
    }

    fn rl(&mut self, value: u8) -> (r: u8)
        ensures
            final(self)@ == old(self)@.rotate_flags(2, value),
            r == old(self)@.rotated(2, value),
    {
        let carry_in: u8 = if self.f.c() {
            1
        } else {
            0
        };
        proof {
            bits::lemma_rotations(value, carry_in);
        }
        let result: u8 = (value << 1) | carry_in;
        self.f.set_z(result == 0);
        self.f.set_n(false);
        self.f.set_h(false);
        self.f.set_c(value & 0x80 != 0);
        result
    }

    fn rr(&mut self, value: u8) -> (r: u8)
        ensures
            final(self)@ == old(self)@.rotate_flags(3, value),
            r == old(self)@.rotated(3, value),
    {
        let carry_in: u8 = if self.f.c() {
            1
        } else {
            0
        };
        proof {
            bits::lemma_rotations(value, carry_in);
        }
        let result: u8 = (value >> 1) | (carry_in << 7);
        self.f.set_z(result == 0);
        self.f.set_n(false);
        self.f.set_h(false);
        self.f.set_c(value & 0x01 != 0);
        result
    }

    fn sla(&mut self, value: u8) -> (r: u8)
        ensures
            final(self)@ == old(self)@.rotate_flags(4, value),
            r == old(self)@.rotated(4, value),
    {
        proof {
            bits::lemma_rotations(value, 0);
        }
        let result: u8 = value << 1;
        self.f.set_z(result == 0);
        self.f.set_n(false);
        self.f.set_h(false);
        self.f.set_c(value & 0x80 != 0);
        result
    }

    fn sra(&mut self, value: u8) -> (r: u8)
        ensures
            final(self)@ == old(self)@.rotate_flags(5, value),
            r == old(self)@.rotated(5, value),
    {
        proof {
            bits::lemma_rotations(value, 0);
        }
        let result: u8 = (value >> 1) | (value & 0x80);
        self.f.set_z(result == 0);
        self.f.set_n(false);
        self.f.set_h(false);
        self.f.set_c(value & 0x01 != 0);
        result
    }

    fn swap(&mut self, value: u8) -> (r: u8)
        ensures
            final(self)@ == old(self)@.rotate_flags(6, value),
            r == old(self)@.rotated(6, value),
    {
        proof {
            bits::lemma_rotations(value, 0);
        }
        let result: u8 = (value << 4) | (value >> 4);
        self.f.set_z(result == 0);
        self.f.set_n(false);
        self.f.set_h(false);
        self.f.set_c(false);
        result
    }

    fn srl(&mut self, value: u8) -> (r: u8)
        ensures
            final(self)@ == old(self)@.rotate_flags(7, value),
            r == old(self)@.rotated(7, value),
    {
        proof {
            bits::lemma_rotations(value, 0);
        }
        let result: u8 = value >> 1;
        self.f.set_z(result == 0);
        self.f.set_n(false);
        self.f.set_h(false);
        self.f.set_c(value & 0x01 != 0);
        result
    }

    fn daa(&mut self)
        ensures
            final(self)@ == old(self)@.daa(),
    {
        let carry: bool = self.f.c() || (!self.f.n() && self.a > 0x99);
        let half: bool = self.f.h() || (!self.f.n() && self.a % 16 > 0x09);
        let mut adjust: u8 = 0;
        if half {
            adjust = adjust + 0x06;
        }
        if carry {
            adjust = adjust + 0x60;
        }
        if self.f.n() {
            self.a = self.a.wrapping_sub(adjust);
        } else {
            self.a = self.a.wrapping_add(adjust);
        }
        self.f.set_z(self.a == 0);
        self.f.set_h(false);
        self.f.set_c(carry);
    }

    fn step_cb<B: Bus>(&mut self, bus: &mut B) -> (cycles: u8)
        ensures
            forall|m: Machine<B>| #[trigger]
                m.holds(*old(self), *old(bus)) ==> m.execute_cb().holds(*final(self), *final(bus))
                    && cycles == m.execute_cb().elapsed - m.elapsed + 4,
    {
        let opcode: u8 = self.fetch8(bus);
        let field: u8 = (opcode / 8) % 8;
        let src: u8 = opcode % 8;
        let value: u8 = self.read_r(src, bus);
        if opcode < 0x40 {
            let result: u8 = match field {
                0 => self.rlc(value),
                1 => self.rrc(value),
                2 => self.rl(value),
                3 => self.rr(value),
                4 => self.sla(value),
                5 => self.sra(value),
                6 => self.swap(value),
                _ => self.srl(value),
            };
            assert(forall|m: Machine<B>| #[trigger]
                m.holds(*old(self), *old(bus)) ==> {
                    let n = m.fetch8().0.operand(src as int).0;
                    n.with_cpu(n.cpu.rotate_flags(field as int, value)).holds(*self, *bus)
                });
            self.write_r(src, result, bus);
            if src == 6 {
                16
            } else {
                8
            }
        } else if opcode < 0x80 {
            self.f.set_z(value & (1u8 << field) == 0);
            self.f.set_n(false);
            self.f.set_h(true);
            if src == 6 {
                12
            } else {
                8
            }
        } else {
            let result: u8 = if opcode < 0xc0 {
                value & !(1u8 << field)
            } else {
                value | (1u8 << field)
            };
            self.write_r(src, result, bus);
            if src == 6 {
                16
            } else {
                8
            }
        }
    }

    /// The byte after a STOP, taken without an M-cycle of its own.
    fn consume_operand_untimed<B: Bus>(&mut self, bus: &B) -> (r: u8)
        ensures
            r == B::read_of(bus.state(), old(self).pc),
            final(self)@ == (CpuState { pc: crate::isa::offset(old(self).pc, 1), ..old(self)@ }),
    {
        let byte: u8 = bus.read8(self.pc);
        self.pc = self.pc.wrapping_add(1);
        byte
    }

    /// NOP, LD (nn), SP, STOP and the relative jumps.
    fn control<B: Bus>(&mut self, opcode: u8, bus: &mut B) -> (cycles: u8)
        requires
            opcode < 0x40,
            opcode % 8 == 0,
        ensures
            forall|m: Machine<B>| #[trigger]
                m.holds(*old(self), *old(bus))
                    ==> m.execute_quarter0(opcode).holds(*final(self), *final(bus))
                    && cycles
                    == m.execute_quarter0(opcode).elapsed - m.elapsed + 4,
    {
        match opcode {
            0x00 => 4,
            0x08 => {
                let nn: u16 = self.fetch16(bus);
                self.write8_timed(bus, nn, (self.sp % 256) as u8);
                self.write8_timed(bus, nn.wrapping_add(1), (self.sp / 256) as u8);
                20
            },
            0x10 => {
                let _operand: u8 = self.consume_operand_untimed(bus);
                bus.write8(0xff04, 0);
                4
            },
            0x18 => {
                let e: u8 = self.fetch8(bus);
                self.idle(bus);
                self.pc = Self::relative(self.pc, e);
                12
            },
            0x20 => self.jr_cc(0, bus),
            0x28 => self.jr_cc(1, bus),
            0x30 => self.jr_cc(2, bus),
            _ => self.jr_cc(3, bus),
        }
    }

    /// LD rr, nn and ADD HL, rr.
    fn load_or_add_pair<B: Bus>(&mut self, opcode: u8, bus: &mut B) -> (cycles: u8)
        requires
            opcode < 0x40,
            opcode % 8 == 1,
        ensures
            forall|m: Machine<B>| #[trigger]
                m.holds(*old(self), *old(bus))
                    ==> m.execute_quarter0(opcode).holds(*final(self), *final(bus))
                    && cycles
                    == m.execute_quarter0(opcode).elapsed - m.elapsed + 4,
    {
        match opcode {
            0x01 => {
                let nn: u16 = self.fetch16(bus);
                self.set_bc(nn);
                12
            },
            0x09 => {
                self.idle(bus);
                self.add_hl(self.bc());
                8
            },
            0x11 => {
                let nn: u16 = self.fetch16(bus);
                self.set_de(nn);
                12
            },
            0x19 => {
                self.idle(bus);
                self.add_hl(self.de());
                8
            },
            0x21 => {
                let nn: u16 = self.fetch16(bus);
                self.set_hl(nn);
                12
            },
            0x29 => {
                self.idle(bus);
                self.add_hl(self.hl());
                8
            },
            0x31 => {
                self.sp = self.fetch16(bus);
                12
            },
            _ => {
                self.idle(bus);
                self.add_hl(self.sp);
                8
            },
        }
    }

    /// A to or from memory at HL, which then moves up or down by one.
    fn load_stepping<B: Bus>(&mut self, up: bool, load: bool, bus: &mut B) -> (cycles: u8)
        ensures
            forall|m: Machine<B>| #[trigger]
                m.holds(*old(self), *old(bus))
                    ==> m.indirect_a(if up { 2 } else { 3 }, load).holds(*final(self), *final(bus))
                    && cycles
                    == m.indirect_a(if up { 2 } else { 3 }, load).elapsed - m.elapsed + 4,
    {
        let hl: u16 = self.hl();
        let next: u16 = if up {
            hl.wrapping_add(1)
        } else {
            hl.wrapping_sub(1)
        };
        if load {
            self.a = self.read8_timed_idu(bus, hl, hl);
        } else {
            self.write8_timed_idu(bus, hl, self.a, hl);
        }
        self.set_hl(next);
        8
    }

    /// A to or from memory at BC, DE, HL+ or HL-.
    fn load_indirect<B: Bus>(&mut self, opcode: u8, bus: &mut B) -> (cycles: u8)
        requires
            opcode < 0x40,
            opcode % 8 == 2,
        ensures
            forall|m: Machine<B>| #[trigger]
                m.holds(*old(self), *old(bus))
                    ==> m.execute_quarter0(opcode).holds(*final(self), *final(bus))
                    && cycles
                    == m.execute_quarter0(opcode).elapsed - m.elapsed + 4,
    {
        match opcode {
            0x02 => {
                self.write8_timed(bus, self.bc(), self.a);
                8
            },
            0x0a => {
                self.a = self.read8_timed(bus, self.bc());
                8
            },
            0x12 => {
                self.write8_timed(bus, self.de(), self.a);
                8
            },
            0x1a => {
                self.a = self.read8_timed(bus, self.de());
                8
            },
            0x22 => self.load_stepping(true, false, bus),
            0x2a => self.load_stepping(true, true, bus),
            0x32 => self.load_stepping(false, false, bus),
            _ => self.load_stepping(false, true, bus),
        }
    }

    /// INC rr and DEC rr.
    #[verifier::rlimit(30)]
    fn step_pair<B: Bus>(&mut self, opcode: u8, bus: &mut B) -> (cycles: u8)
        requires
            opcode < 0x40,
            opcode % 8 == 3,
        ensures
            forall|m: Machine<B>| #[trigger]
                m.holds(*old(self), *old(bus))
                    ==> m.execute_quarter0(opcode).holds(*final(self), *final(bus))
                    && cycles
                    == m.execute_quarter0(opcode).elapsed - m.elapsed + 4,
    {
        match opcode {
            0x03 => {
                self.idu_timed(bus, self.bc());
                self.set_bc(self.bc().wrapping_add(1));
                8
            },
            0x0b => {
                self.idu_timed(bus, self.bc());
                self.set_bc(self.bc().wrapping_sub(1));
                8
            },
            0x13 => {
                self.idu_timed(bus, self.de());
                self.set_de(self.de().wrapping_add(1));
                8
            },
            0x1b => {
                self.idu_timed(bus, self.de());
                self.set_de(self.de().wrapping_sub(1));
                8
            },
            0x23 => {
                self.idu_timed(bus, self.hl());
                self.set_hl(self.hl().wrapping_add(1));
                8
            },
            0x2b => {
                self.idu_timed(bus, self.hl());
                self.set_hl(self.hl().wrapping_sub(1));
                8
            },
            0x33 => {
                self.idu_timed(bus, self.sp);
                self.sp = self.sp.wrapping_add(1);
                8
            },
            _ => {
                self.idu_timed(bus, self.sp);
                self.sp = self.sp.wrapping_sub(1);
                8
            },
        }
    }

    /// Rotations of A, DAA, CPL, SCF and CCF.
    #[verifier::rlimit(30)]
    fn adjust_a<B: Bus>(&mut self, opcode: u8, bus: &mut B) -> (cycles: u8)
        requires
            opcode < 0x40,
            opcode % 8 == 7,
        ensures
            forall|m: Machine<B>| #[trigger]
                m.holds(*old(self), *old(bus))
                    ==> m.execute_quarter0(opcode).holds(*final(self), *final(bus))
                    && cycles
                    == m.execute_quarter0(opcode).elapsed - m.elapsed + 4,
    {
        match opcode {
            0x07 => {
                self.a = self.rlc(self.a);
                self.f.set_z(false);
                4
            },
            0x0f => {
                self.a = self.rrc(self.a);
                self.f.set_z(false);
                4
            },
            0x17 => {
                self.a = self.rl(self.a);
                self.f.set_z(false);
                4
            },
            0x1f => {
                self.a = self.rr(self.a);
                self.f.set_z(false);
                4
            },
            0x27 => {
                self.daa();
                4
            },
            0x2f => {
                self.a = 0xff - self.a;
                self.f.set_n(true);
                self.f.set_h(true);
                4
            },
            0x37 => {
                self.f.set_n(false);
                self.f.set_h(false);
                self.f.set_c(true);
                4
            },
            _ => {
                let c: bool = self.f.c();
                self.f.set_n(false);
                self.f.set_h(false);
                self.f.set_c(!c);
                4
            },
        }
    }

    /// LD r, n.
    fn load_immediate<B: Bus>(&mut self, opcode: u8, bus: &mut B) -> (cycles: u8)
        requires
            opcode < 0x40,
            opcode % 8 == 6,
        ensures
            forall|m: Machine<B>| #[trigger]
                m.holds(*old(self), *old(bus))
                    ==> m.execute_quarter0(opcode).holds(*final(self), *final(bus))
                    && cycles
                    == m.execute_quarter0(opcode).elapsed - m.elapsed + 4,
    {
        let n: u8 = self.fetch8(bus);
        self.write_r(opcode / 8, n, bus);
        if opcode == 0x36 {
            12
        } else {
            8
        }
    }

    /// Opcodes 00-3F.
    fn execute_quarter0<B: Bus>(&mut self, opcode: u8, bus: &mut B) -> (cycles: u8)
        requires
            opcode < 0x40,
        ensures
            forall|m: Machine<B>| #[trigger]
                m.holds(*old(self), *old(bus))
                    ==> m.execute_quarter0(opcode).holds(*final(self), *final(bus))
                    && cycles
                    == m.execute_quarter0(opcode).elapsed - m.elapsed + 4,
    {
        match opcode % 8 {
            0 => self.control(opcode, bus),
            1 => self.load_or_add_pair(opcode, bus),
            2 => self.load_indirect(opcode, bus),
            3 => self.step_pair(opcode, bus),
            4 => self.inc_r(opcode / 8, bus),
            5 => self.dec_r(opcode / 8, bus),
            6 => self.load_immediate(opcode, bus),
            _ => self.adjust_a(opcode, bus),
        }
    }

    /// Opcodes 40-7F: HALT, and loads between operands.
    fn execute_quarter1<B: Bus>(&mut self, opcode: u8, bus: &mut B) -> (cycles: u8)
        requires
            0x40 <= opcode < 0x80,
        ensures
            forall|m: Machine<B>| #[trigger]
                m.holds(*old(self), *old(bus))
                    ==> m.execute_quarter1(opcode).holds(*final(self), *final(bus))
                    && cycles
                    == m.execute_quarter1(opcode).elapsed - m.elapsed + 4,
    {
        if opcode == 0x76 {
            // The lines are sampled now: the opcode fetch ticked the bus, and
            // may have raised one that was not there when the step began.
            let pending: u8 = bus.read8(0xff0f) & bus.read8(0xffff) & 0x1f;
            if pending != 0 {
                if self.ime {
                    self.pc = self.pc.wrapping_sub(1);
                } else {
                    self.halt_bug = true;
                }
            } else {
                self.halted = true;
            }
            4
        } else {
            let dst: u8 = (opcode / 8) % 8;
            let src: u8 = opcode % 8;
            let value: u8 = self.read_r(src, bus);
            self.write_r(dst, value, bus);
            if dst == 6 || src == 6 {
                8
            } else {
                4
            }
        }
    }

    /// One of the eight operations on A that three opcode bits name.
    fn alu(&mut self, op: u8, value: u8)
        requires
            op < 8,
        ensures
            final(self)@ == old(self)@.alu(op as int, value),
    {
        match op {
            0 => self.add_a(value),
            1 => self.adc_a(value),
            2 => self.sub_a(value),
            3 => self.sbc_a(value),
            4 => self.and_a(value),
            5 => self.xor_a(value),
            6 => self.or_a(value),
            _ => self.cp_a(value),
        }
    }

    /// Opcodes 80-BF: arithmetic on A with an operand.
    fn execute_quarter2<B: Bus>(&mut self, opcode: u8, bus: &mut B) -> (cycles: u8)
        requires
            0x80 <= opcode < 0xc0,
        ensures
            forall|m: Machine<B>| #[trigger]
                m.holds(*old(self), *old(bus))
                    ==> m.execute_quarter2(opcode).holds(*final(self), *final(bus))
                    && cycles
                    == m.execute_quarter2(opcode).elapsed - m.elapsed + 4,
    {
        let src: u8 = opcode % 8;
        let value: u8 = self.read_r(src, bus);
        self.alu((opcode / 8) % 8, value);
        if src == 6 {
            8
        } else {
            4
        }
    }

    /// RET cc, LDH, ADD SP, e and LD HL, SP + e.
    fn return_or_high_page<B: Bus>(&mut self, opcode: u8, bus: &mut B) -> (cycles: u8)
        requires
            0xc0 <= opcode,
            opcode % 8 == 0,
        ensures
            forall|m: Machine<B>| #[trigger]
                m.holds(*old(self), *old(bus))
                    ==> m.execute_quarter3(opcode).holds(*final(self), *final(bus))
                    && cycles
                    == m.execute_quarter3(opcode).elapsed - m.elapsed + 4,
    {
        match opcode {
            0xc0 => self.ret_cc(0, bus),
            0xc8 => self.ret_cc(1, bus),
            0xd0 => self.ret_cc(2, bus),
            0xd8 => self.ret_cc(3, bus),
            0xe0 => {
                let n: u8 = self.fetch8(bus);
                self.write8_timed(bus, 0xff00 + n as u16, self.a);
                12
            },
            0xe8 => {
                let e: u8 = self.fetch8(bus);
                self.idle(bus);
                self.idle(bus);
                self.sp = self.add_sp_e(e);
                16
            },
            0xf0 => {
                let n: u8 = self.fetch8(bus);
                self.a = self.read8_timed(bus, 0xff00 + n as u16);
                12
            },
            _ => {
                let e: u8 = self.fetch8(bus);
                self.idle(bus);
                let v: u16 = self.add_sp_e(e);
                self.set_hl(v);
                12
            },
        }
    }

    /// POP rr, RET, RETI, JP HL and LD SP, HL.
    fn pop_or_return<B: Bus>(&mut self, opcode: u8, bus: &mut B) -> (cycles: u8)
        requires
            0xc0 <= opcode,
            opcode % 8 == 1,
        ensures
            forall|m: Machine<B>| #[trigger]
                m.holds(*old(self), *old(bus))
                    ==> m.execute_quarter3(opcode).holds(*final(self), *final(bus))
                    && cycles
                    == m.execute_quarter3(opcode).elapsed - m.elapsed + 4,
    {
        match opcode {
            0xc1 => {
                let v: u16 = self.pop16(bus);
                self.set_bc(v);
                12
            },
            0xc9 => {
                let target: u16 = self.pop16(bus);
                self.pc = target;
                assert(forall|m: Machine<B>| #[trigger]
                    m.holds(*old(self), *old(bus)) ==> m.pop16().0.jump(target).holds(*self, *bus));
                self.idle(bus);
                16
            },
            0xd1 => {
                let v: u16 = self.pop16(bus);
                self.set_de(v);
                12
            },
            0xd9 => {
                let target: u16 = self.pop16(bus);
                self.pc = target;
                assert(forall|m: Machine<B>| #[trigger]
                    m.holds(*old(self), *old(bus)) ==> m.pop16().0.jump(target).holds(*self, *bus));
                self.idle(bus);
                self.ime = true;
                self.ime_delay = 0;
                16
            },
            0xe1 => {
                let v: u16 = self.pop16(bus);
                self.set_hl(v);
                12
            },
            0xe9 => {
                self.pc = self.hl();
                4
            },
            0xf1 => {
                let v: u16 = self.pop16(bus);
                self.set_af(v);
                12
            },
            _ => {
                self.idle(bus);
                self.sp = self.hl();
                8
            },
        }
    }

    /// JP cc, nn, and A to or from (C) or (nn).
    fn jump_or_absolute<B: Bus>(&mut self, opcode: u8, bus: &mut B) -> (cycles: u8)
        requires
            0xc0 <= opcode,
            opcode % 8 == 2,
        ensures
            forall|m: Machine<B>| #[trigger]
                m.holds(*old(self), *old(bus))
                    ==> m.execute_quarter3(opcode).holds(*final(self), *final(bus))
                    && cycles
                    == m.execute_quarter3(opcode).elapsed - m.elapsed + 4,
    {
        match opcode {
            0xc2 => self.jp_cc(0, bus),
            0xca => self.jp_cc(1, bus),
            0xd2 => self.jp_cc(2, bus),
            0xda => self.jp_cc(3, bus),
            0xe2 => {
                self.write8_timed(bus, 0xff00 + self.c as u16, self.a);
                8
            },
            0xea => {
                let nn: u16 = self.fetch16(bus);
                self.write8_timed(bus, nn, self.a);
                16
            },
            0xf2 => {
                self.a = self.read8_timed(bus, 0xff00 + self.c as u16);
                8
            },
            _ => {
                let nn: u16 = self.fetch16(bus);
                self.a = self.read8_timed(bus, nn);
                16
            },
        }
    }

    /// JP nn, the CB page, DI and EI. The other opcodes of this
    /// column do not exist and lock the CPU.
    fn jump_or_prefix<B: Bus>(&mut self, opcode: u8, bus: &mut B) -> (cycles: u8)
        requires
            0xc0 <= opcode,
            opcode % 8 == 3,
        ensures
            forall|m: Machine<B>| #[trigger]
                m.holds(*old(self), *old(bus))
                    ==> m.execute_quarter3(opcode).holds(*final(self), *final(bus))
                    && cycles
                    == m.execute_quarter3(opcode).elapsed - m.elapsed + 4,
    {
        match opcode {
            0xc3 => {
                let nn: u16 = self.fetch16(bus);
                self.idle(bus);
                self.pc = nn;
                16
            },
            0xcb => self.step_cb(bus),
            0xf3 => {
                self.ime = false;
                self.ime_delay = 0;
                4
            },
            0xfb => {
                self.ime_delay = 2;
                4
            },
            _ => {
                self.locked = true;
                4
            },
        }
    }

    /// CALL cc, nn. The other opcodes of this
    /// column do not exist and lock the CPU.
    fn call_conditional<B: Bus>(&mut self, opcode: u8, bus: &mut B) -> (cycles: u8)
        requires
            0xc0 <= opcode,
            opcode % 8 == 4,
        ensures
            forall|m: Machine<B>| #[trigger]
                m.holds(*old(self), *old(bus))
                    ==> m.execute_quarter3(opcode).holds(*final(self), *final(bus))
                    && cycles
                    == m.execute_quarter3(opcode).elapsed - m.elapsed + 4,
    {
        match opcode {
            0xc4 => self.call_cc(0, bus),
            0xcc => self.call_cc(1, bus),
            0xd4 => self.call_cc(2, bus),
            0xdc => self.call_cc(3, bus),
            _ => {
                self.locked = true;
                4
            },
        }
    }

    /// PUSH rr and CALL nn. The other opcodes of this
    /// column do not exist and lock the CPU.
    fn push_or_call<B: Bus>(&mut self, opcode: u8, bus: &mut B) -> (cycles: u8)
        requires
            0xc0 <= opcode,
            opcode % 8 == 5,
        ensures
            forall|m: Machine<B>| #[trigger]
                m.holds(*old(self), *old(bus))
                    ==> m.execute_quarter3(opcode).holds(*final(self), *final(bus))
                    && cycles
                    == m.execute_quarter3(opcode).elapsed - m.elapsed + 4,
    {
        match opcode {
            0xc5 => {
                self.idu_timed(bus, self.sp);
                self.push16(bus, self.bc());
                16
            },
            0xcd => self.call_nn(bus),
            0xd5 => {
                self.idu_timed(bus, self.sp);
                self.push16(bus, self.de());
                16
            },
            0xe5 => {
                self.idu_timed(bus, self.sp);
                self.push16(bus, self.hl());
                16
            },
            0xf5 => {
                self.idu_timed(bus, self.sp);
                self.push16(bus, self.af());
                16
            },
            _ => {
                self.locked = true;
                4
            },
        }
    }

    /// Opcodes C0-FF.
    fn execute_quarter3<B: Bus>(&mut self, opcode: u8, bus: &mut B) -> (cycles: u8)
        requires
            0xc0 <= opcode,
        ensures
            forall|m: Machine<B>| #[trigger]
                m.holds(*old(self), *old(bus))
                    ==> m.execute_quarter3(opcode).holds(*final(self), *final(bus))
                    && cycles
                    == m.execute_quarter3(opcode).elapsed - m.elapsed + 4,
    {
        match opcode % 8 {
            0 => self.return_or_high_page(opcode, bus),
            1 => self.pop_or_return(opcode, bus),
            2 => self.jump_or_absolute(opcode, bus),
            3 => self.jump_or_prefix(opcode, bus),
            4 => self.call_conditional(opcode, bus),
            5 => self.push_or_call(opcode, bus),
            6 => {
                let n: u8 = self.fetch8(bus);
                self.alu((opcode / 8) % 8, n);
                8
            },
            _ => self.rst((opcode - 0xc7) as u16, bus),
        }
    }

    /// Take an interrupt. The vector is settled after both bytes of PC are
    /// pushed, from IF and IE as they read then.
    fn service_interrupt<B: Bus>(&mut self, bus: &mut B) -> (cycles: u8)
        ensures
            forall|m: Machine<B>| #[trigger]
                m.holds(*old(self), *old(bus)) ==> m.service().holds(*final(self), *final(bus))
                    && cycles == m.service().elapsed - m.elapsed,
    {
        self.ime = false;
        assert(forall|m: Machine<B>| #[trigger]
            m.holds(*old(self), *old(bus)) ==> m.with_cpu(
                CpuState { ime: false, ..m.cpu },
            ).holds(*self, *bus));
        self.idle(bus);
        self.idle(bus);
        self.idle(bus);
        self.push16(bus, self.pc);
        assert(forall|m: Machine<B>| #[trigger]
            m.holds(*old(self), *old(bus)) ==> m.interrupted().holds(*self, *bus));
        let raised: u8 = bus.read8(0xff0f);
        let pending: u8 = raised & bus.read8(0xffff) & 0x1f;
        if pending == 0 {
            self.pc = 0x0000;
            return 20;
        }
        let line: u8 = if pending & 0x01 != 0 {
            0
        } else if pending & 0x02 != 0 {
            1
        } else if pending & 0x04 != 0 {
            2
        } else if pending & 0x08 != 0 {
            3
        } else {
            4
        };
        bus.write8(0xff0f, raised & !(1u8 << line));
        self.pc = 0x40 + 8 * line as u16;
        20
    }

    fn tick_ime_delay(&mut self)
        ensures
            final(self)@ == old(self)@.settle_ime(),
    {
        if self.ime_delay > 0 {
            self.ime_delay = self.ime_delay - 1;
            if self.ime_delay == 0 {
                self.ime = true;
            }
        }
    }

    /// Execute one instruction, or take one pending interrupt, or let one
    /// M-cycle go by while the CPU is halted or locked. Returns the T-cycles
    /// that passed: exactly those by which the bus was ticked.
    pub fn step<B: Bus>(&mut self, bus: &mut B) -> (cycles: u8)
        ensures
            final(self)@ == Machine::<B>::of(old(self)@, old(bus).state()).step().cpu,
            final(bus).state() == Machine::<B>::of(old(self)@, old(bus).state()).step().bus,
            cycles == Machine::<B>::of(old(self)@, old(bus).state()).step().elapsed,
    {
        let ghost start = Machine::<B>::of(self@, bus.state());
        assert(start.holds(*self, *bus));
        if self.locked {
            self.idle(bus);
            return 4;
        }
        let pending: u8 = bus.read8(0xff0f) & bus.read8(0xffff) & 0x1f;
        if self.halted && pending != 0 {
            self.halted = false;
        }
        let ghost m = if pending != 0 {
            start.with_cpu(CpuState { halted: false, ..start.cpu })
        } else {
            start
        };
        assert(m.holds(*self, *bus));
        if self.ime && pending != 0 {
            return self.service_interrupt(bus);
        }
        if self.halted {
            self.idle(bus);
            return 4;
        }
        let opcode: u8 = self.fetch8(bus);
        let cycles: u8 = if opcode < 0x40 {
            self.execute_quarter0(opcode, bus)
        } else if opcode < 0x80 {
            self.execute_quarter1(opcode, bus)
        } else if opcode < 0xc0 {
            self.execute_quarter2(opcode, bus)
        } else {
            self.execute_quarter3(opcode, bus)
        };
        assert(m.fetch8().0.execute(opcode).holds(*self, *bus));
        self.tick_ime_delay();
        cycles
    }
}

impl Default for Cpu {
    fn default() -> (r: Self)
        ensures
            r@ == CpuState::reset(),
    {
        Self::new()
    }
}

} // verus!
