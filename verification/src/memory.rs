//! Flat 64 KiB memory.
//!
//! One contiguous array behind [`Bus`], with no banks, I/O routing or clocked
//! parts in the way: what a CPU is exercised against on its own.

use crate::bus::Bus;
use vstd::prelude::*;

verus! {

pub struct Memory {
    data: [u8; 0x10000],
}

impl View for Memory {
    type V = Seq<u8>;

    closed spec fn view(&self) -> Seq<u8> {
        self.data@
    }
}

impl Memory {
    pub fn new() -> (r: Self)
        ensures
            r@ == Seq::new(0x10000, |i: int| 0u8),
    {
        Self { data: [0; 0x10000] }
    }

    /// Copy `bytes` into memory, the first of them to `start`.
    pub fn load(&mut self, start: u16, bytes: &[u8])
        requires
            start + bytes@.len() <= 0x10000,
        ensures
            final(self)@ == Seq::new(
                0x10000,
                |i: int|
                    if start <= i < start + bytes@.len() {
                        bytes@[i - start]
                    } else {
                        old(self)@[i]
                    },
            ),
    {
        let first: usize = start as usize;
        let mut k: usize = 0;
        while k < bytes.len()
            invariant
                k <= bytes@.len(),
                first == start,
                start + bytes@.len() <= 0x10000,
                self@.len() == 0x10000,
                forall|i: int|
                    0 <= i < 0x10000 ==> #[trigger] self@[i] == (if start <= i < start + k {
                        bytes@[i - start]
                    } else {
                        old(self)@[i]
                    }),
            decreases bytes@.len() - k,
        {
            self.data[first + k] = bytes[k];
            k = k + 1;
        }
    }
}

impl Default for Memory {
    fn default() -> (r: Self)
        ensures
            r@ == Seq::new(0x10000, |i: int| 0u8),
    {
        Self::new()
    }
}

impl Bus for Memory {
    type State = Seq<u8>;

    open spec fn state(&self) -> Seq<u8> {
        self@
    }

    open spec fn read_of(s: Seq<u8>, addr: u16) -> u8 {
        s[addr as int]
    }

    open spec fn after_write(s: Seq<u8>, addr: u16, value: u8) -> Seq<u8> {
        s.update(addr as int, value)
    }

    fn read8(&self, addr: u16) -> u8 {
        self.data[addr as usize]
    }

    fn write8(&mut self, addr: u16, value: u8) {
        self.data[addr as usize] = value;
    }

    fn read8_cpu(&mut self, addr: u16) -> u8 {
        self.read8(addr)
    }

    fn write8_cpu(&mut self, addr: u16, value: u8) {
        self.write8(addr, value);
    }

    fn read8_cpu_idu(&mut self, addr: u16, idu_addr: u16) -> u8 {
        self.read8_cpu(addr)
    }

    fn write8_cpu_idu(&mut self, addr: u16, value: u8, idu_addr: u16) {
        self.write8_cpu(addr, value);
    }

    fn idu_glitch_cpu(&mut self, addr: u16) {
    }

    fn tick(&mut self, cycles: u8) {
    }
}

/// A memory always holds 64 KiB.
pub proof fn law_memory_size(memory: Memory)
    ensures
        memory@.len() == 0x10000,
{
}

/// A write is read back, and no other address sees it.
pub proof fn law_write_reads_back(s: Seq<u8>, addr: u16, other: u16, value: u8)
    requires
        s.len() == 0x10000,
        other != addr,
    ensures
        Memory::after_write(s, addr, value).len() == 0x10000,
        Memory::read_of(Memory::after_write(s, addr, value), addr) == value,
        Memory::read_of(Memory::after_write(s, addr, value), other) == Memory::read_of(s, other),
{
}

} // verus!
