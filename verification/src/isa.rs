//! What the SM83 instruction set does.
//!
//! A [`Machine`] is the register file, the state of the bus, and the number of
//! T-cycles that have passed. The functions here say, for each instruction,
//! which machine it turns a machine into. Every access is an M-cycle: the bus
//! is ticked by four T-cycles, then read or written.
//!
//! An opcode is taken apart into three octal digits `x y z`; most of the
//! instruction set is regular in them, with `y` or `z` naming one of the eight
//! operands B, C, D, E, H, L, (HL), A.

use crate::bus::Bus;
use crate::flags::FlagState;
use vstd::prelude::*;

verus! {

/// The registers and latches of the CPU.
pub struct CpuState {
    pub a: u8,
    pub f: FlagState,
    pub b: u8,
    pub c: u8,
    pub d: u8,
    pub e: u8,
    pub h: u8,
    pub l: u8,
    pub sp: u16,
    pub pc: u16,
    pub halted: bool,
    pub ime: bool,
    pub halt_bug: bool,
    pub locked: bool,
    pub ime_delay: u8,
}

/// Two bytes as a 16-bit word, `hi` being the more significant.
pub open spec fn word(hi: u8, lo: u8) -> u16 {
    (hi * 256 + lo) as u16
}

pub open spec fn hi_byte(w: u16) -> u8 {
    (w / 256) as u8
}

pub open spec fn lo_byte(w: u16) -> u8 {
    (w % 256) as u8
}

/// `w` moved by `delta`, modulo 2^16.
pub open spec fn offset(w: u16, delta: int) -> u16 {
    ((w + delta) % 0x10000) as u16
}

/// `b` moved by `delta`, modulo 2^8.
pub open spec fn byte_offset(b: u8, delta: int) -> u8 {
    ((b + delta) % 0x100) as u8
}

/// A byte read as a two's complement number.
pub open spec fn signed(b: u8) -> int {
    if b < 0x80 {
        b as int
    } else {
        b - 0x100
    }
}

pub open spec fn bit(set: bool) -> int {
    if set {
        1
    } else {
        0
    }
}

/// The number of the lowest of the five interrupt lines that is raised.
pub open spec fn lowest_line(pending: u8) -> u8 {
    if pending & 0x01 != 0 {
        0
    } else if pending & 0x02 != 0 {
        1
    } else if pending & 0x04 != 0 {
        2
    } else if pending & 0x08 != 0 {
        3
    } else {
        4
    }
}

impl CpuState {
    /// All registers zero, interrupts off, running.
    pub open spec fn reset() -> CpuState {
        CpuState {
            a: 0,
            f: FlagState::clear(),
            b: 0,
            c: 0,
            d: 0,
            e: 0,
            h: 0,
            l: 0,
            sp: 0,
            pc: 0,
            halted: false,
            ime: false,
            halt_bug: false,
            locked: false,
            ime_delay: 0,
        }
    }

    pub open spec fn af(self) -> u16 {
        word(self.a, self.f.packed())
    }

    pub open spec fn bc(self) -> u16 {
        word(self.b, self.c)
    }

    pub open spec fn de(self) -> u16 {
        word(self.d, self.e)
    }

    pub open spec fn hl(self) -> u16 {
        word(self.h, self.l)
    }

    pub open spec fn with_af(self, w: u16) -> CpuState {
        CpuState { a: hi_byte(w), f: FlagState::of_byte(lo_byte(w)), ..self }
    }

    pub open spec fn with_bc(self, w: u16) -> CpuState {
        CpuState { b: hi_byte(w), c: lo_byte(w), ..self }
    }

    pub open spec fn with_de(self, w: u16) -> CpuState {
        CpuState { d: hi_byte(w), e: lo_byte(w), ..self }
    }

    pub open spec fn with_hl(self, w: u16) -> CpuState {
        CpuState { h: hi_byte(w), l: lo_byte(w), ..self }
    }

    pub open spec fn with_f(self, z: bool, n: bool, h: bool, c: bool) -> CpuState {
        CpuState { f: FlagState { z, n, h, c }, ..self }
    }

    /// The register pair that two opcode bits name: BC, DE, HL or SP.
    pub open spec fn pair(self, p: int) -> u16 {
        if p == 0 {
            self.bc()
        } else if p == 1 {
            self.de()
        } else if p == 2 {
            self.hl()
        } else {
            self.sp
        }
    }

    pub open spec fn with_pair(self, p: int, w: u16) -> CpuState {
        if p == 0 {
            self.with_bc(w)
        } else if p == 1 {
            self.with_de(w)
        } else if p == 2 {
            self.with_hl(w)
        } else {
            CpuState { sp: w, ..self }
        }
    }

    /// The register pair that PUSH and POP name: BC, DE, HL or AF.
    pub open spec fn stack_pair(self, p: int) -> u16 {
        if p == 3 {
            self.af()
        } else {
            self.pair(p)
        }
    }

    pub open spec fn with_stack_pair(self, p: int, w: u16) -> CpuState {
        if p == 3 {
            self.with_af(w)
        } else {
            self.with_pair(p, w)
        }
    }

    /// Whether the condition NZ, Z, NC or C holds.
    pub open spec fn condition(self, cc: int) -> bool {
        if cc == 0 {
            !self.f.z
        } else if cc == 1 {
            self.f.z
        } else if cc == 2 {
            !self.f.c
        } else {
            self.f.c
        }
    }

    /// A := A + v + carry.
    pub open spec fn add(self, v: u8, carry: int) -> CpuState {
        let sum = self.a + v + carry;
        let r = (sum % 0x100) as u8;
        CpuState { a: r, ..self }.with_f(r == 0, false, self.a % 16 + v % 16 + carry > 15, sum > 0xff)
    }

    /// A := A - v - carry.
    pub open spec fn sub(self, v: u8, carry: int) -> CpuState {
        let diff = self.a - v - carry;
        let r = (diff % 0x100) as u8;
        CpuState { a: r, ..self }.with_f(r == 0, true, self.a % 16 < v % 16 + carry, diff < 0)
    }

    /// One of the eight operations on A: ADD, ADC, SUB, SBC, AND, XOR, OR, CP.
    pub open spec fn alu(self, op: int, v: u8) -> CpuState {
        if op == 0 {
            self.add(v, 0)
        } else if op == 1 {
            self.add(v, bit(self.f.c))
        } else if op == 2 {
            self.sub(v, 0)
        } else if op == 3 {
            self.sub(v, bit(self.f.c))
        } else if op == 4 {
            CpuState { a: self.a & v, ..self }.with_f(self.a & v == 0, false, true, false)
        } else if op == 5 {
            CpuState { a: self.a ^ v, ..self }.with_f(self.a ^ v == 0, false, false, false)
        } else if op == 6 {
            CpuState { a: self.a | v, ..self }.with_f(self.a | v == 0, false, false, false)
        } else {
            // CP is SUB with the result thrown away.
            CpuState { a: self.a, ..self.sub(v, 0) }
        }
    }

    pub open spec fn add_hl(self, v: u16) -> CpuState {
        let sum = self.hl() + v;
        self.with_hl((sum % 0x10000) as u16).with_f(
            self.f.z,
            false,
            self.hl() % 0x1000 + v % 0x1000 > 0xfff,
            sum > 0xffff,
        )
    }

    /// The flags of SP + e: carries out of the low nibble and the low byte, as
    /// if both addends were unsigned.
    pub open spec fn sp_plus_flags(self, e: u8) -> CpuState {
        self.with_f(
            false,
            false,
            self.sp % 16 + e % 16 > 15,
            self.sp % 0x100 + e > 0xff,
        )
    }

    /// The value that one of the eight rotations and shifts makes of `v`: RLC,
    /// RRC, RL, RR, SLA, SRA, SWAP, SRL.
    pub open spec fn rotated(self, op: int, v: u8) -> u8 {
        if op == 0 {
            (v % 0x80 * 2 + v / 0x80) as u8
        } else if op == 1 {
            (v / 2 + v % 2 * 0x80) as u8
        } else if op == 2 {
            (v % 0x80 * 2 + bit(self.f.c)) as u8
        } else if op == 3 {
            (v / 2 + bit(self.f.c) * 0x80) as u8
        } else if op == 4 {
            (v % 0x80 * 2) as u8
        } else if op == 5 {
            (v / 2 + v / 0x80 * 0x80) as u8
        } else if op == 6 {
            (v / 16 + v % 16 * 16) as u8
        } else {
            (v / 2) as u8
        }
    }

    /// The bit that such an operation moves out of `v` into the carry flag.
    pub open spec fn rotated_out(op: int, v: u8) -> bool {
        if op == 0 || op == 2 || op == 4 {
            v / 0x80 == 1
        } else if op == 6 {
            false
        } else {
            v % 2 == 1
        }
    }

    pub open spec fn rotate_flags(self, op: int, v: u8) -> CpuState {
        self.with_f(self.rotated(op, v) == 0, false, false, CpuState::rotated_out(op, v))
    }

    /// A rotation of A (RLCA, RRCA, RLA, RRA), which clears Z.
    pub open spec fn rotate_a(self, op: int) -> CpuState {
        CpuState { a: self.rotated(op, self.a), ..self }.with_f(
            false,
            false,
            false,
            CpuState::rotated_out(op, self.a),
        )
    }

    /// Whether DAA adds or takes away 0x60, which is what sets the carry flag.
    pub open spec fn daa_carry(self) -> bool {
        self.f.c || (!self.f.n && self.a > 0x99)
    }

    /// Whether DAA adds or takes away 0x06.
    pub open spec fn daa_half(self) -> bool {
        self.f.h || (!self.f.n && self.a % 16 > 9)
    }

    pub open spec fn daa(self) -> CpuState {
        let adjust = 0x06 * bit(self.daa_half()) + 0x60 * bit(self.daa_carry());
        let r = byte_offset(
            self.a,
            if self.f.n {
                -adjust
            } else {
                adjust
            },
        );
        CpuState { a: r, ..self }.with_f(r == 0, self.f.n, false, self.daa_carry())
    }

    /// The latch of EI: interrupts come on when it has run out.
    pub open spec fn settle_ime(self) -> CpuState {
        if self.ime_delay > 0 {
            CpuState {
                ime_delay: (self.ime_delay - 1) as u8,
                ime: self.ime || self.ime_delay == 1,
                ..self
            }
        } else {
            self
        }
    }
}

/// The CPU, the bus it drives, and the T-cycles that have passed.
pub struct Machine<B: Bus> {
    pub cpu: CpuState,
    pub bus: B::State,
    pub elapsed: int,
}

impl<B: Bus> Machine<B> {
    pub open spec fn with_cpu(self, cpu: CpuState) -> Machine<B> {
        Machine { cpu, ..self }
    }

    pub open spec fn with_bus(self, bus: B::State) -> Machine<B> {
        Machine { bus, ..self }
    }

    /// The enabled interrupt lines that are raised: IF & IE, five bits.
    pub open spec fn pending(self) -> u8 {
        B::read_of(self.bus, 0xff0f) & B::read_of(self.bus, 0xffff) & 0x1f
    }

    /// One M-cycle passes.
    pub open spec fn mcycle(self) -> Machine<B> {
        Machine { bus: B::after_tick(self.bus, 4), elapsed: self.elapsed + 4, ..self }
    }

    pub open spec fn read8(self, addr: u16) -> (Machine<B>, u8) {
        let m = self.mcycle();
        (m.with_bus(B::after_read_cpu(m.bus, addr)), B::read_cpu_of(m.bus, addr))
    }

    pub open spec fn write8(self, addr: u16, value: u8) -> Machine<B> {
        let m = self.mcycle();
        m.with_bus(B::after_write_cpu(m.bus, addr, value))
    }

    pub open spec fn read8_idu(self, addr: u16, idu_addr: u16) -> (Machine<B>, u8) {
        let m = self.mcycle();
        (
            m.with_bus(B::after_read_cpu_idu(m.bus, addr, idu_addr)),
            B::read_cpu_idu_of(m.bus, addr, idu_addr),
        )
    }

    pub open spec fn write8_idu(self, addr: u16, value: u8, idu_addr: u16) -> Machine<B> {
        let m = self.mcycle();
        m.with_bus(B::after_write_cpu_idu(m.bus, addr, value, idu_addr))
    }

    pub open spec fn idu(self, addr: u16) -> Machine<B> {
        let m = self.mcycle();
        m.with_bus(B::after_idu_glitch(m.bus, addr))
    }

    /// The byte at PC. PC moves on, unless the HALT bug holds it back once.
    pub open spec fn fetch8(self) -> (Machine<B>, u8) {
        let (m, byte) = self.read8(self.cpu.pc);
        let cpu = if m.cpu.halt_bug {
            CpuState { halt_bug: false, ..m.cpu }
        } else {
            CpuState { pc: offset(m.cpu.pc, 1), ..m.cpu }
        };
        (m.with_cpu(cpu), byte)
    }

    /// The little-endian word at PC.
    pub open spec fn fetch16(self) -> (Machine<B>, u16) {
        let (m1, lo) = self.fetch8();
        let (m2, hi) = m1.fetch8();
        (m2, word(hi, lo))
    }

    pub open spec fn push16(self, value: u16) -> Machine<B> {
        let sp1 = offset(self.cpu.sp, -1);
        let sp2 = offset(self.cpu.sp, -2);
        let m = self.write8_idu(sp1, hi_byte(value), self.cpu.sp).write8_idu(
            sp2,
            lo_byte(value),
            sp1,
        );
        m.with_cpu(CpuState { sp: sp2, ..m.cpu })
    }

    pub open spec fn pop16(self) -> (Machine<B>, u16) {
        let (m1, lo) = self.read8(self.cpu.sp);
        let (m2, hi) = m1.read8(offset(self.cpu.sp, 1));
        (m2.with_cpu(CpuState { sp: offset(self.cpu.sp, 2), ..m2.cpu }), word(hi, lo))
    }

    /// One of the eight operands B, C, D, E, H, L, (HL), A.
    pub open spec fn operand(self, r: int) -> (Machine<B>, u8) {
        if r == 6 {
            self.read8(self.cpu.hl())
        } else {
            let v = if r == 0 {
                self.cpu.b
            } else if r == 1 {
                self.cpu.c
            } else if r == 2 {
                self.cpu.d
            } else if r == 3 {
                self.cpu.e
            } else if r == 4 {
                self.cpu.h
            } else if r == 5 {
                self.cpu.l
            } else {
                self.cpu.a
            };
            (self, v)
        }
    }

    pub open spec fn with_operand(self, r: int, v: u8) -> Machine<B> {
        if r == 6 {
            self.write8(self.cpu.hl(), v)
        } else {
            self.with_cpu(
                if r == 0 {
                    CpuState { b: v, ..self.cpu }
                } else if r == 1 {
                    CpuState { c: v, ..self.cpu }
                } else if r == 2 {
                    CpuState { d: v, ..self.cpu }
                } else if r == 3 {
                    CpuState { e: v, ..self.cpu }
                } else if r == 4 {
                    CpuState { h: v, ..self.cpu }
                } else if r == 5 {
                    CpuState { l: v, ..self.cpu }
                } else {
                    CpuState { a: v, ..self.cpu }
                },
            )
        }
    }

    pub open spec fn jump(self, target: u16) -> Machine<B> {
        self.with_cpu(CpuState { pc: target, ..self.cpu })
    }

    pub open spec fn inc(self, r: int) -> Machine<B> {
        let (m1, v) = self.operand(r);
        let result = byte_offset(v, 1);
        let m2 = m1.with_operand(r, result);
        m2.with_cpu(m2.cpu.with_f(result == 0, false, v % 16 == 15, m2.cpu.f.c))
    }

    pub open spec fn dec(self, r: int) -> Machine<B> {
        let (m1, v) = self.operand(r);
        let result = byte_offset(v, -1);
        let m2 = m1.with_operand(r, result);
        m2.with_cpu(m2.cpu.with_f(result == 0, true, v % 16 == 0, m2.cpu.f.c))
    }

    pub open spec fn jr(self, taken: bool) -> Machine<B> {
        let (m, e) = self.fetch8();
        if taken {
            m.mcycle().jump(offset(m.cpu.pc, signed(e)))
        } else {
            m
        }
    }

    pub open spec fn jp(self, taken: bool) -> Machine<B> {
        let (m, nn) = self.fetch16();
        if taken {
            m.mcycle().jump(nn)
        } else {
            m
        }
    }

    pub open spec fn call(self, taken: bool) -> Machine<B> {
        let (m, nn) = self.fetch16();
        if taken {
            m.call_to(nn)
        } else {
            m
        }
    }

    /// Push PC and jump, with SP exposed on the address bus first.
    pub open spec fn call_to(self, target: u16) -> Machine<B> {
        self.idu(self.cpu.sp).push16(self.cpu.pc).jump(target)
    }

    pub open spec fn ret(self) -> Machine<B> {
        let (m, target) = self.pop16();
        m.jump(target).mcycle()
    }

    pub open spec fn ret_if(self, taken: bool) -> Machine<B> {
        if taken {
            self.mcycle().ret()
        } else {
            self.mcycle()
        }
    }

    /// The CB page: rotations and shifts, BIT, RES and SET.
    pub open spec fn execute_cb(self) -> Machine<B> {
        let (m0, opcode) = self.fetch8();
        let x = opcode / 64;
        let y = (opcode / 8) % 8;
        let z = (opcode % 8) as int;
        let (m, v) = m0.operand(z);
        if x == 0 {
            m.with_cpu(m.cpu.rotate_flags(y as int, v)).with_operand(z, m.cpu.rotated(y as int, v))
        } else if x == 1 {
            m.with_cpu(m.cpu.with_f(v & (1u8 << y) == 0, false, true, m.cpu.f.c))
        } else if x == 2 {
            m.with_operand(z, v & !(1u8 << y))
        } else {
            m.with_operand(z, v | (1u8 << y))
        }
    }

    /// Opcodes 00-3F.
    pub open spec fn execute_quarter0(self, opcode: u8) -> Machine<B> {
        let y = (opcode as int / 8) % 8;
        let z = opcode as int % 8;
        let p = y / 2;
        if z == 0 {
            if y == 0 {
                // NOP
                self
            } else if y == 1 {
                // LD (nn), SP
                let (m, nn) = self.fetch16();
                m.write8(nn, lo_byte(m.cpu.sp)).write8(offset(nn, 1), hi_byte(m.cpu.sp))
            } else if y == 2 {
                // STOP: skips its operand byte and resets the divider.
                self.jump(offset(self.cpu.pc, 1)).with_bus(B::after_write(self.bus, 0xff04, 0))
            } else if y == 3 {
                self.jr(true)
            } else {
                self.jr(self.cpu.condition(y - 4))
            }
        } else if z == 1 {
            if y % 2 == 0 {
                // LD rr, nn
                let (m, nn) = self.fetch16();
                m.with_cpu(m.cpu.with_pair(p, nn))
            } else {
                // ADD HL, rr
                let m = self.mcycle();
                m.with_cpu(m.cpu.add_hl(m.cpu.pair(p)))
            }
        } else if z == 2 {
            self.indirect_a(p, y % 2 == 1)
        } else if z == 3 {
            // INC rr, DEC rr
            let m = self.idu(self.cpu.pair(p));
            let delta = if y % 2 == 0 {
                1int
            } else {
                -1int
            };
            m.with_cpu(m.cpu.with_pair(p, offset(m.cpu.pair(p), delta)))
        } else if z == 4 {
            self.inc(y)
        } else if z == 5 {
            self.dec(y)
        } else if z == 6 {
            // LD r, n
            let (m, n) = self.fetch8();
            m.with_operand(y, n)
        } else {
            self.with_cpu(
                if y < 4 {
                    self.cpu.rotate_a(y)
                } else if y == 4 {
                    self.cpu.daa()
                } else if y == 5 {
                    // CPL
                    CpuState { a: (0xff - self.cpu.a) as u8, ..self.cpu }.with_f(
                        self.cpu.f.z,
                        true,
                        true,
                        self.cpu.f.c,
                    )
                } else if y == 6 {
                    // SCF
                    self.cpu.with_f(self.cpu.f.z, false, false, true)
                } else {
                    // CCF
                    self.cpu.with_f(self.cpu.f.z, false, false, !self.cpu.f.c)
                },
            )
        }
    }

    /// A to or from memory at BC, DE, HL+ or HL-.
    pub open spec fn indirect_a(self, p: int, load: bool) -> Machine<B> {
        if p < 2 {
            let addr = self.cpu.pair(p);
            if load {
                let (m, v) = self.read8(addr);
                m.with_cpu(CpuState { a: v, ..m.cpu })
            } else {
                self.write8(addr, self.cpu.a)
            }
        } else {
            let hl = self.cpu.hl();
            let next = offset(
                hl,
                if p == 2 {
                    1
                } else {
                    -1
                },
            );
            if load {
                let (m, v) = self.read8_idu(hl, hl);
                m.with_cpu(CpuState { a: v, ..m.cpu.with_hl(next) })
            } else {
                let m = self.write8_idu(hl, self.cpu.a, hl);
                m.with_cpu(m.cpu.with_hl(next))
            }
        }
    }

    /// HALT: waits for an interrupt. With one pending already it either steps
    /// back onto itself (to be run again after the interrupt) or arms the HALT
    /// bug, as interrupts are on or off.
    pub open spec fn halt(self) -> Machine<B> {
        self.with_cpu(
            if self.pending() == 0 {
                CpuState { halted: true, ..self.cpu }
            } else if self.cpu.ime {
                CpuState { pc: offset(self.cpu.pc, -1), ..self.cpu }
            } else {
                CpuState { halt_bug: true, ..self.cpu }
            },
        )
    }

    /// Opcodes 40-7F: loads between operands, and HALT.
    pub open spec fn execute_quarter1(self, opcode: u8) -> Machine<B> {
        if opcode == 0x76 {
            self.halt()
        } else {
            let (m, v) = self.operand(opcode as int % 8);
            m.with_operand((opcode as int / 8) % 8, v)
        }
    }

    /// Opcodes 80-BF: arithmetic on A.
    pub open spec fn execute_quarter2(self, opcode: u8) -> Machine<B> {
        let (m, v) = self.operand(opcode as int % 8);
        m.with_cpu(m.cpu.alu((opcode as int / 8) % 8, v))
    }

    /// An opcode that the hardware does not have stalls the CPU for good.
    pub open spec fn lock(self) -> Machine<B> {
        self.with_cpu(CpuState { locked: true, ..self.cpu })
    }

    /// Opcodes C0-FF.
    pub open spec fn execute_quarter3(self, opcode: u8) -> Machine<B> {
        let y = (opcode as int / 8) % 8;
        let z = opcode as int % 8;
        let p = y / 2;
        if z == 0 {
            if y < 4 {
                self.ret_if(self.cpu.condition(y))
            } else if y == 4 {
                // LDH (n), A
                let (m, n) = self.fetch8();
                m.write8((0xff00 + n) as u16, m.cpu.a)
            } else if y == 5 {
                // ADD SP, e
                let (m0, e) = self.fetch8();
                let m = m0.mcycle().mcycle();
                m.with_cpu(
                    CpuState { sp: offset(m.cpu.sp, signed(e)), ..m.cpu.sp_plus_flags(e) },
                )
            } else if y == 6 {
                // LDH A, (n)
                let (m0, n) = self.fetch8();
                let (m, v) = m0.read8((0xff00 + n) as u16);
                m.with_cpu(CpuState { a: v, ..m.cpu })
            } else {
                // LD HL, SP + e
                let (m0, e) = self.fetch8();
                let m = m0.mcycle();
                m.with_cpu(m.cpu.sp_plus_flags(e).with_hl(offset(m.cpu.sp, signed(e))))
            }
        } else if z == 1 {
            if y % 2 == 0 {
                // POP rr
                let (m, v) = self.pop16();
                m.with_cpu(m.cpu.with_stack_pair(p, v))
            } else if p == 0 {
                self.ret()
            } else if p == 1 {
                // RETI
                let m = self.ret();
                m.with_cpu(CpuState { ime: true, ime_delay: 0, ..m.cpu })
            } else if p == 2 {
                // JP HL
                self.jump(self.cpu.hl())
            } else {
                // LD SP, HL
                let m = self.mcycle();
                m.with_cpu(CpuState { sp: m.cpu.hl(), ..m.cpu })
            }
        } else if z == 2 {
            if y < 4 {
                self.jp(self.cpu.condition(y))
            } else if y == 4 {
                // LD (C), A
                self.write8((0xff00 + self.cpu.c) as u16, self.cpu.a)
            } else if y == 5 {
                // LD (nn), A
                let (m, nn) = self.fetch16();
                m.write8(nn, m.cpu.a)
            } else if y == 6 {
                // LD A, (C)
                let (m, v) = self.read8((0xff00 + self.cpu.c) as u16);
                m.with_cpu(CpuState { a: v, ..m.cpu })
            } else {
                // LD A, (nn)
                let (m0, nn) = self.fetch16();
                let (m, v) = m0.read8(nn);
                m.with_cpu(CpuState { a: v, ..m.cpu })
            }
        } else if z == 3 {
            if y == 0 {
                self.jp(true)
            } else if y == 1 {
                self.execute_cb()
            } else if y == 6 {
                // DI
                self.with_cpu(CpuState { ime: false, ime_delay: 0, ..self.cpu })
            } else if y == 7 {
                // EI
                self.with_cpu(CpuState { ime_delay: 2, ..self.cpu })
            } else {
                self.lock()
            }
        } else if z == 4 {
            if y < 4 {
                self.call(self.cpu.condition(y))
            } else {
                self.lock()
            }
        } else if z == 5 {
            if y % 2 == 0 {
                // PUSH rr
                self.idu(self.cpu.sp).push16(self.cpu.stack_pair(p))
            } else if p == 0 {
                self.call(true)
            } else {
                self.lock()
            }
        } else if z == 6 {
            let (m, n) = self.fetch8();
            m.with_cpu(m.cpu.alu(y, n))
        } else {
            // RST
            self.call_to((y * 8) as u16)
        }
    }

    pub open spec fn execute(self, opcode: u8) -> Machine<B> {
        if opcode < 0x40 {
            self.execute_quarter0(opcode)
        } else if opcode < 0x80 {
            self.execute_quarter1(opcode)
        } else if opcode < 0xc0 {
            self.execute_quarter2(opcode)
        } else {
            self.execute_quarter3(opcode)
        }
    }

    /// The first part of taking an interrupt: IME is cleared, three M-cycles
    /// go by, and PC is pushed.
    pub open spec fn interrupted(self) -> Machine<B> {
        self.with_cpu(CpuState { ime: false, ..self.cpu }).mcycle().mcycle().mcycle().push16(
            self.cpu.pc,
        )
    }

    /// Go to the vector of the lowest line that is raised and enabled now, and
    /// clear its bit of IF. Where there is none any more, go to 0x0000 and
    /// leave IF.
    pub open spec fn vectored(self) -> Machine<B> {
        let pending = self.pending();
        let line = lowest_line(pending);
        if pending == 0 {
            self.jump(0x0000)
        } else {
            self.with_bus(
                B::after_write(self.bus, 0xff0f, B::read_of(self.bus, 0xff0f) & !(1u8 << line)),
            ).jump((0x40 + 8 * line) as u16)
        }
    }

    /// Take an interrupt. Which one is settled only after both bytes of PC are
    /// pushed, from IF and IE as they are then: a line of higher priority that
    /// was raised meanwhile comes first, and a push over IE or IF counts.
    pub open spec fn service(self) -> Machine<B> {
        self.interrupted().vectored()
    }

    /// One step: an instruction, an interrupt taken, or an idle M-cycle of a
    /// CPU that is halted or locked.
    pub open spec fn step(self) -> Machine<B> {
        if self.cpu.locked {
            self.mcycle()
        } else {
            let pending = self.pending();
            let m = if pending != 0 {
                self.with_cpu(CpuState { halted: false, ..self.cpu })
            } else {
                self
            };
            if m.cpu.ime && pending != 0 {
                m.service()
            } else if m.cpu.halted {
                m.mcycle()
            } else {
                let (m1, opcode) = m.fetch8();
                let m2 = m1.execute(opcode);
                m2.with_cpu(m2.cpu.settle_ime())
            }
        }
    }
}

} // verus!
