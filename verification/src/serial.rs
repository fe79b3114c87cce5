//! The serial port: SB at 0xFF01 and SC at 0xFF02.
//!
//! A transfer is instantaneous: writing SC with bit 7 set sends the byte in SB
//! to the output, clears the start bit, and queues the completion interrupt.

use vstd::prelude::*;

verus! {

/// The port as contracts speak of it.
pub struct SerialState {
    pub sb: u8,
    pub sc: u8,
    /// The bytes sent and not yet drained, oldest first.
    pub output: Seq<u8>,
    pub interrupt: bool,
}

impl SerialState {
    pub open spec fn reset() -> SerialState {
        SerialState { sb: 0, sc: 0, output: Seq::empty(), interrupt: false }
    }

    /// SB, or SC with its unused bits 6 to 1 reading as one.
    pub open spec fn read(self, addr: u16) -> u8 {
        if addr == 0xff01 {
            self.sb
        } else {
            self.sc | 0x7e
        }
    }

    /// Of SC only bit 0 stays: bit 7 starts a transfer, which is over at once.
    pub open spec fn write(self, addr: u16, value: u8) -> SerialState {
        if addr == 0xff01 {
            SerialState { sb: value, ..self }
        } else if value < 0x80 {
            SerialState { sc: value % 2, ..self }
        } else {
            SerialState {
                sc: value % 2,
                output: self.output.push(self.sb),
                interrupt: true,
                ..self
            }
        }
    }
}

pub struct Serial {
    sb: u8,
    sc: u8,
    output: Vec<u8>,
    pending_interrupt: bool,
}

impl View for Serial {
    type V = SerialState;

    closed spec fn view(&self) -> SerialState {
        SerialState {
            sb: self.sb,
            sc: self.sc,
            output: self.output@,
            interrupt: self.pending_interrupt,
        }
    }
}

impl Serial {
    pub fn new() -> (r: Self)
        ensures
            r@ == SerialState::reset(),
    {
        Self { sb: 0, sc: 0, output: Vec::new(), pending_interrupt: false }
    }

    pub fn read(&self, addr: u16) -> (r: u8)
        requires
            addr == 0xff01 || addr == 0xff02,
        ensures
            r == self@.read(addr),
    {
        match addr {
            0xff01 => self.sb,
            _ => self.sc | 0x7e,
        }
    }

    pub fn write(&mut self, addr: u16, value: u8)
        requires
            addr == 0xff01 || addr == 0xff02,
        ensures
            final(self)@ == old(self)@.write(addr, value),
    {
        match addr {
            0xff01 => self.sb = value,
            _ => {
                self.sc = value % 2;
                if value >= 0x80 {
                    self.output.push(self.sb);
                    self.pending_interrupt = true;
                }
            },
        }
    }

    /// Let `cycles` T-cycles go by. Returns whether the serial interrupt is to
    /// be raised: once for the transfers since the last call.
    pub fn tick(&mut self, cycles: u8) -> (raised: bool)
        ensures
            raised == old(self)@.interrupt,
            final(self)@ == (SerialState { interrupt: false, ..old(self)@ }),
    {
        let raised: bool = self.pending_interrupt;
        self.pending_interrupt = false;
        raised
    }

    /// Take the bytes that were sent since the last call.
    pub fn drain_output(&mut self) -> (r: Vec<u8>)
        ensures
            r@ == old(self)@.output,
            final(self)@ == (SerialState { output: Seq::empty(), ..old(self)@ }),
    {
        let mut taken: Vec<u8> = Vec::new();
        std::mem::swap(&mut taken, &mut self.output);
        taken
    }
}

impl Default for Serial {
    fn default() -> (r: Self)
        ensures
            r@ == SerialState::reset(),
    {
        Self::new()
    }
}

/// A byte put in SB and started through SC is the next byte of the output,
/// after whatever was sent before; the start bit reads as zero again.
pub proof fn law_transfer_sends_sb(s: SerialState, byte: u8, control: u8)
    requires
        control >= 0x80,
    ensures
        ({
            let t = s.write(0xff01, byte).write(0xff02, control);
            &&& t.output == s.output.push(byte)
            &&& t.interrupt
            &&& t.read(0xff02) < 0x80
            &&& t.read(0xff01) == byte
        }),
{
    crate::bits::lemma_serial_control(control % 2);
}

} // verus!
