//! Address-space access.
//!
//! The CPU is generic over [`Bus`], so it runs against the flat
//! [`crate::memory::Memory`] as well as against a full address decoder.
//!
//! A bus is modelled by a value of its `State` type and by functions of that
//! value: what a read yields, and what state each access leaves behind. The
//! executable methods are held to those functions, so a caller that knows the
//! state knows every outcome.

use vstd::prelude::*;

verus! {

pub trait Bus {
    /// Everything that the answers of this bus depend on.
    type State;

    /// The state this bus is in.
    spec fn state(&self) -> Self::State;

    /// The byte that [`Bus::read8`] yields.
    spec fn read_of(s: Self::State, addr: u16) -> u8;

    /// The state that [`Bus::write8`] leaves.
    spec fn after_write(s: Self::State, addr: u16, value: u8) -> Self::State;

    /// The byte that [`Bus::read8_cpu`] yields: without quirks, that of a
    /// direct read.
    open spec fn read_cpu_of(s: Self::State, addr: u16) -> u8 {
        Self::read_of(s, addr)
    }

    /// The state that [`Bus::read8_cpu`] leaves: without quirks, the same.
    open spec fn after_read_cpu(s: Self::State, addr: u16) -> Self::State {
        s
    }

    /// The state that [`Bus::write8_cpu`] leaves: without quirks, that of a
    /// direct write.
    open spec fn after_write_cpu(s: Self::State, addr: u16, value: u8) -> Self::State {
        Self::after_write(s, addr, value)
    }

    /// The byte that [`Bus::read8_cpu_idu`] yields: without quirks, that of
    /// an ordinary CPU read.
    open spec fn read_cpu_idu_of(s: Self::State, addr: u16, idu_addr: u16) -> u8 {
        Self::read_cpu_of(s, addr)
    }

    /// The state that [`Bus::read8_cpu_idu`] leaves.
    open spec fn after_read_cpu_idu(s: Self::State, addr: u16, idu_addr: u16) -> Self::State {
        Self::after_read_cpu(s, addr)
    }

    /// The state that [`Bus::write8_cpu_idu`] leaves.
    open spec fn after_write_cpu_idu(
        s: Self::State,
        addr: u16,
        value: u8,
        idu_addr: u16,
    ) -> Self::State {
        Self::after_write_cpu(s, addr, value)
    }

    /// The state that [`Bus::idu_glitch_cpu`] leaves: without quirks, the
    /// same.
    open spec fn after_idu_glitch(s: Self::State, addr: u16) -> Self::State {
        s
    }

    /// The state after `cycles` T-cycles: on a bus without clocked parts, the
    /// same.
    open spec fn after_tick(s: Self::State, cycles: u8) -> Self::State {
        s
    }

    /// Read one byte from `addr`. Every address answers: unmapped ones yield
    /// a defined value.
    fn read8(&self, addr: u16) -> (r: u8)
        ensures
            r == Self::read_of(self.state(), addr),
    ;

    /// Write one byte to `addr`. Writes to ROM or unmapped regions are
    /// dropped; writes to memory-mapped I/O may have side effects.
    fn write8(&mut self, addr: u16, value: u8)
        ensures
            final(self).state() == Self::after_write(old(self).state(), addr, value),
    ;

    /// CPU-originated read. A full-system bus may attach side effects such as
    /// the OAM corruption of the DMG.
    fn read8_cpu(&mut self, addr: u16) -> (r: u8)
        ensures
            r == Self::read_cpu_of(old(self).state(), addr),
            final(self).state() == Self::after_read_cpu(old(self).state(), addr),
    ;

    /// CPU-originated write. A full-system bus may attach timing quirks that
    /// direct writes do not show.
    fn write8_cpu(&mut self, addr: u16, value: u8)
        ensures
            final(self).state() == Self::after_write_cpu(old(self).state(), addr, value),
    ;

    /// CPU read in an M-cycle that also steps the register pair holding
    /// `idu_addr` (`LD A,[HL+]`, `LD A,[HL-]`).
    fn read8_cpu_idu(&mut self, addr: u16, idu_addr: u16) -> (r: u8)
        ensures
            r == Self::read_cpu_idu_of(old(self).state(), addr, idu_addr),
            final(self).state() == Self::after_read_cpu_idu(old(self).state(), addr, idu_addr),
    ;

    /// CPU write in an M-cycle that also steps the register pair holding
    /// `idu_addr` (`LD [HL+],A`, `LD [HL-],A`, pushes).
    fn write8_cpu_idu(&mut self, addr: u16, value: u8, idu_addr: u16)
        ensures
            final(self).state() == Self::after_write_cpu_idu(
                old(self).state(),
                addr,
                value,
                idu_addr,
            ),
    ;

    /// A 16-bit increment or decrement that puts `addr` on the address bus
    /// with neither a read nor a write asserted (`INC rr`, `DEC rr`).
    fn idu_glitch_cpu(&mut self, addr: u16)
        ensures
            final(self).state() == Self::after_idu_glitch(old(self).state(), addr),
    ;

    /// Advance whatever is attached to the bus by `cycles` T-cycles.
    fn tick(&mut self, cycles: u8)
        ensures
            final(self).state() == Self::after_tick(old(self).state(), cycles),
    ;
}

} // verus!
