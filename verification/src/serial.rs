//! Serial link stub: an 8-bit shift-out that self-completes.
//!
//! While SC bit 7 (transfer enable) and SC bit 0 (internal clock) are both
//! set, SB shifts left one bit and takes a 1 in (no peer is attached) once
//! every 512 T-cycles. After eight shifts the transfer-enable bit clears
//! itself and the serial interrupt is posted.

use vstd::prelude::*;

verus! {

/// T-cycles per shifted bit (8192 Hz bit rate).
pub const SERIAL_BIT_CYCLES: u64 = 512;

/// Whether SC bit 7 (transfer enable) is set.
pub open spec fn sc_transfer_enable(sc: u8) -> bool {
    (sc / 128) % 2 == 1
}

/// Whether SC bit 0 (internal clock select) is set.
pub open spec fn sc_clock_select(sc: u8) -> bool {
    sc % 2 == 1
}

/// Serial transfer data (SB, 0xFF01) and control (SC, 0xFF02).
pub struct Serial {
    pub sb: u8,
    pub sc: u8,
    /// Latch set when a transfer completes; the bus collects it into IF
    /// bit 3 and clears it.
    pub serial_int: bool,
    pub cycles: u64,
    pub bit_counter: u8,
}

impl Serial {
    pub open spec fn wf(self) -> bool {
        self.cycles < SERIAL_BIT_CYCLES && self.bit_counter < 8
    }

    pub fn new() -> (r: Serial)
        ensures
            r == (Serial { sb: 0, sc: 0, serial_int: false, cycles: 0, bit_counter: 0 }),
            r.wf(),
    {
        Serial { sb: 0, sc: 0, serial_int: false, cycles: 0, bit_counter: 0 }
    }

    /// Advance the shifter by `cycles` T-cycles. When a whole bit period
    /// has elapsed with the transfer running, SB shifts left and takes a 1;
    /// the eighth shift ends the transfer and posts the interrupt.
    pub fn tick(&mut self, cycles: u64)
        requires
            old(self).wf(),
            cycles <= SERIAL_BIT_CYCLES,
        ensures
            final(self).wf(),
            final(self).sb == final_sb(*old(self), cycles),
            final(self).sc == final_sc(*old(self), cycles),
            final(self).serial_int == (old(self).serial_int
                || (serial_shifts(*old(self), cycles) && old(self).bit_counter == 7)),
            final(self).cycles == final_cycles(*old(self), cycles),
            final(self).bit_counter == final_bit_counter(*old(self), cycles),
    {
        if self.sc % 2 != 1 || (self.sc / 128) % 2 != 1 {
            return ;
        }
        self.cycles = self.cycles + cycles;
        if self.cycles >= SERIAL_BIT_CYCLES {
            self.cycles = self.cycles - SERIAL_BIT_CYCLES;
            self.bit_counter = self.bit_counter + 1;
            self.sb = (self.sb % 128) * 2 + 1;
            if self.bit_counter >= 8 {
                self.bit_counter = 0;
                // clear SC bit 7
                self.sc = self.sc % 128;
                self.serial_int = true;
            }
        }
    }

    /// Read SB (0xFF01) or SC (0xFF02).
    pub fn read_u8(&self, addr: u16) -> (r: u8)
        requires
            addr == 0xFF01 || addr == 0xFF02,
        ensures
            addr == 0xFF01 ==> r == self.sb,
            addr == 0xFF02 ==> r == self.sc,
    {
        if addr == 0xFF01 {
            self.sb
        } else {
            self.sc
        }
    }

    /// Write SB (0xFF01) or SC (0xFF02).
    pub fn write_u8(&mut self, addr: u16, val: u8)
        requires
            addr == 0xFF01 || addr == 0xFF02,
        ensures
            old(self).wf() ==> final(self).wf(),
            addr == 0xFF01 ==> *final(self) == (Serial { sb: val, ..*old(self) }),
            addr == 0xFF02 ==> *final(self) == (Serial { sc: val, ..*old(self) }),
    {
        if addr == 0xFF01 {
            self.sb = val;
        } else {
            self.sc = val;
        }
    }
}

/// Whether a tick of `cycles` T-cycles completes a bit period with the
/// transfer running.
pub open spec fn serial_shifts(s: Serial, cycles: u64) -> bool {
    sc_clock_select(s.sc) && sc_transfer_enable(s.sc)
        && s.cycles + cycles >= SERIAL_BIT_CYCLES
}

pub open spec fn final_sb(s: Serial, cycles: u64) -> u8 {
    if serial_shifts(s, cycles) {
        ((s.sb % 128) * 2 + 1) as u8
    } else {
        s.sb
    }
}

pub open spec fn final_sc(s: Serial, cycles: u64) -> u8 {
    if serial_shifts(s, cycles) && s.bit_counter == 7 {
        (s.sc % 128) as u8
    } else {
        s.sc
    }
}

pub open spec fn final_cycles(s: Serial, cycles: u64) -> u64 {
    if !(sc_clock_select(s.sc) && sc_transfer_enable(s.sc)) {
        s.cycles
    } else if s.cycles + cycles >= SERIAL_BIT_CYCLES {
        (s.cycles + cycles - SERIAL_BIT_CYCLES) as u64
    } else {
        (s.cycles + cycles) as u64
    }
}

pub open spec fn final_bit_counter(s: Serial, cycles: u64) -> u8 {
    if serial_shifts(s, cycles) {
        if s.bit_counter == 7 {
            0
        } else {
            (s.bit_counter + 1) as u8
        }
    } else {
        s.bit_counter
    }
}

} // verus!
