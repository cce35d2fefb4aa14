//! APU clocking interface and register file.
//!
//! The core models the audio unit's memory-mapped registers (0xFF10-0xFF26
//! and wave RAM at 0xFF30-0xFF3F) and its frame-sequencer clock, which
//! advances on each falling edge of DIV bit 3. Waveform synthesis and
//! sample transport are the host's business and live outside the core.

use vstd::prelude::*;

verus! {

/// Audio registers, wave RAM and the frame-sequencer divider.
pub struct Apu {
    pub nr10: u8,
    pub nr11: u8,
    pub nr12: u8,
    pub nr13: u8,
    pub nr14: u8,
    pub nr21: u8,
    pub nr22: u8,
    pub nr23: u8,
    pub nr24: u8,
    pub nr30: u8,
    pub nr31: u8,
    pub nr32: u8,
    pub nr33: u8,
    pub nr34: u8,
    pub nr41: u8,
    pub nr42: u8,
    pub nr43: u8,
    pub nr44: u8,
    pub nr50: u8,
    pub nr51: u8,
    pub nr52: u8,
    pub wave_ram: Vec<u8>,
    /// Frame-sequencer counter, stepped on falling edges of DIV bit 3.
    pub div_apu: u8,
    /// Last observed value of DIV bit 3.
    pub div_bit: bool,
}

impl Apu {
    pub open spec fn wf(self) -> bool {
        self.wave_ram.len() == 16
    }

    pub fn new() -> (r: Apu)
        ensures
            r.wf(),
            r.nr10 == 0 && r.nr11 == 0 && r.nr12 == 0 && r.nr13 == 0 && r.nr14 == 0,
            r.nr21 == 0 && r.nr22 == 0 && r.nr23 == 0 && r.nr24 == 0,
            r.nr30 == 0 && r.nr31 == 0 && r.nr32 == 0 && r.nr33 == 0 && r.nr34 == 0,
            r.nr41 == 0 && r.nr42 == 0 && r.nr43 == 0 && r.nr44 == 0,
            r.nr50 == 0 && r.nr51 == 0 && r.nr52 == 0,
            forall|i: int| 0 <= i < 16 ==> r.wave_ram@[i] == 0,
            r.div_apu == 0 && !r.div_bit,
    {
        let mut wave_ram: Vec<u8> = Vec::new();
        let mut i: usize = 0;
        while i < 16
            invariant
                i <= 16,
                wave_ram.len() == i,
                forall|k: int| 0 <= k < i ==> wave_ram@[k] == 0,
            decreases 16 - i,
        {
            wave_ram.push(0);
            i = i + 1;
        }
        Apu {
            nr10: 0, nr11: 0, nr12: 0, nr13: 0, nr14: 0,
            nr21: 0, nr22: 0, nr23: 0, nr24: 0,
            nr30: 0, nr31: 0, nr32: 0, nr33: 0, nr34: 0,
            nr41: 0, nr42: 0, nr43: 0, nr44: 0,
            nr50: 0, nr51: 0, nr52: 0,
            wave_ram,
            div_apu: 0,
            div_bit: false,
        }
    }

    /// The byte read back at an APU address. Registers with write-only
    /// bits on the first pulse channel read those bits as 1.
    pub open spec fn spec_read(self, addr: u16) -> u8 {
        if addr == 0xFF10 {
            self.nr10
        } else if addr == 0xFF11 {
            ((self.nr11 / 64) * 64 + 63) as u8
        } else if addr == 0xFF12 {
            self.nr12
        } else if addr == 0xFF13 {
            0xFF
        } else if addr == 0xFF14 {
            (((self.nr14 / 64) % 2) * 64 + 0xBF) as u8
        } else if addr == 0xFF16 {
            self.nr21
        } else if addr == 0xFF17 {
            self.nr22
        } else if addr == 0xFF18 {
            self.nr23
        } else if addr == 0xFF19 {
            self.nr24
        } else if addr == 0xFF1A {
            self.nr30
        } else if addr == 0xFF1B {
            self.nr31
        } else if addr == 0xFF1C {
            self.nr32
        } else if addr == 0xFF1D {
            self.nr33
        } else if addr == 0xFF1E {
            self.nr34
        } else if addr == 0xFF20 {
            self.nr41
        } else if addr == 0xFF21 {
            self.nr42
        } else if addr == 0xFF22 {
            self.nr43
        } else if addr == 0xFF23 {
            self.nr44
        } else if addr == 0xFF24 {
            self.nr50
        } else if addr == 0xFF25 {
            self.nr51
        } else if addr == 0xFF26 {
            self.nr52
        } else if 0xFF30 <= addr <= 0xFF3F {
            self.wave_ram@[addr - 0xFF30]
        } else {
            0
        }
    }

    /// Read an APU register or a wave RAM byte.
    pub fn read_u8(&self, addr: u16) -> (r: u8)
        requires
            self.wf(),
            0xFF10 <= addr <= 0xFF14 || 0xFF16 <= addr <= 0xFF1E || 0xFF20 <= addr <= 0xFF26
                || 0xFF30 <= addr <= 0xFF3F,
        ensures
            r == self.spec_read(addr),
    {
        match addr {
            0xFF10 => self.nr10,
            0xFF11 => (self.nr11 / 64) * 64 + 63,
            0xFF12 => self.nr12,
            0xFF13 => 0xFF,
            0xFF14 => ((self.nr14 / 64) % 2) * 64 + 0xBF,
            0xFF16 => self.nr21,
            0xFF17 => self.nr22,
            0xFF18 => self.nr23,
            0xFF19 => self.nr24,
            0xFF1A => self.nr30,
            0xFF1B => self.nr31,
            0xFF1C => self.nr32,
            0xFF1D => self.nr33,
            0xFF1E => self.nr34,
            0xFF20 => self.nr41,
            0xFF21 => self.nr42,
            0xFF22 => self.nr43,
            0xFF23 => self.nr44,
            0xFF24 => self.nr50,
            0xFF25 => self.nr51,
            0xFF26 => self.nr52,
            _ => self.wave_ram[(addr - 0xFF30) as usize],
        }
    }

    /// The APU after a byte is written at `addr`. NR52 keeps its low seven
    /// bits, only bit 7 is writable.
    pub open spec fn spec_written(self, addr: u16, val: u8) -> Apu {
        if addr == 0xFF10 {
            Apu { nr10: val, ..self }
        } else if addr == 0xFF11 {
            Apu { nr11: val, ..self }
        } else if addr == 0xFF12 {
            Apu { nr12: val, ..self }
        } else if addr == 0xFF13 {
            Apu { nr13: val, ..self }
        } else if addr == 0xFF14 {
            Apu { nr14: val, ..self }
        } else if addr == 0xFF16 {
            Apu { nr21: val, ..self }
        } else if addr == 0xFF17 {
            Apu { nr22: val, ..self }
        } else if addr == 0xFF18 {
            Apu { nr23: val, ..self }
        } else if addr == 0xFF19 {
            Apu { nr24: val, ..self }
        } else if addr == 0xFF1A {
            Apu { nr30: val, ..self }
        } else if addr == 0xFF1B {
            Apu { nr31: val, ..self }
        } else if addr == 0xFF1C {
            Apu { nr32: val, ..self }
        } else if addr == 0xFF1D {
            Apu { nr33: val, ..self }
        } else if addr == 0xFF1E {
            Apu { nr34: val, ..self }
        } else if addr == 0xFF20 {
            Apu { nr41: val, ..self }
        } else if addr == 0xFF21 {
            Apu { nr42: val, ..self }
        } else if addr == 0xFF22 {
            Apu { nr43: val, ..self }
        } else if addr == 0xFF23 {
            Apu { nr44: val, ..self }
        } else if addr == 0xFF24 {
            Apu { nr50: val, ..self }
        } else if addr == 0xFF25 {
            Apu { nr51: val, ..self }
        } else if addr == 0xFF26 {
            Apu { nr52: ((val / 128) * 128 + self.nr52 % 128) as u8, ..self }
        } else {
            Apu { wave_ram: self.wave_ram, ..self }
        }
    }

    /// Write an APU register or a wave RAM byte.
    pub fn write_u8(&mut self, addr: u16, val: u8)
        requires
            old(self).wf(),
            0xFF10 <= addr <= 0xFF14 || 0xFF16 <= addr <= 0xFF1E || 0xFF20 <= addr <= 0xFF26
                || 0xFF30 <= addr <= 0xFF3F,
        ensures
            final(self).wf(),
            0xFF30 <= addr <= 0xFF3F ==> final(self).wave_ram@
                == old(self).wave_ram@.update(addr - 0xFF30, val)
                && *final(self) == (Apu { wave_ram: final(self).wave_ram, ..*old(self) }),
            !(0xFF30 <= addr <= 0xFF3F) ==> *final(self) == old(self).spec_written(addr, val),
    {
        match addr {
            0xFF10 => self.nr10 = val,
            0xFF11 => self.nr11 = val,
            0xFF12 => self.nr12 = val,
            0xFF13 => self.nr13 = val,
            0xFF14 => self.nr14 = val,
            0xFF16 => self.nr21 = val,
            0xFF17 => self.nr22 = val,
            0xFF18 => self.nr23 = val,
            0xFF19 => self.nr24 = val,
            0xFF1A => self.nr30 = val,
            0xFF1B => self.nr31 = val,
            0xFF1C => self.nr32 = val,
            0xFF1D => self.nr33 = val,
            0xFF1E => self.nr34 = val,
            0xFF20 => self.nr41 = val,
            0xFF21 => self.nr42 = val,
            0xFF22 => self.nr43 = val,
            0xFF23 => self.nr44 = val,
            0xFF24 => self.nr50 = val,
            0xFF25 => self.nr51 = val,
            0xFF26 => self.nr52 = (val / 128) * 128 + self.nr52 % 128,
            _ => self.wave_ram[(addr - 0xFF30) as usize] = val,
        }
    }

    /// Advance the frame sequencer over `cycles` T-cycles with DIV holding
    /// `div` throughout: the counter steps once if the last observed DIV
    /// bit 3 was high and is now low.
    pub fn tick(&mut self, cycles: u64, div: u8)
        ensures
            cycles == 0 ==> *final(self) == *old(self),
            cycles > 0 ==> *final(self) == (Apu {
                div_apu: if old(self).div_bit && !div_bit3(div) {
                    ((old(self).div_apu + 1) % 256) as u8
                } else {
                    old(self).div_apu
                },
                div_bit: div_bit3(div),
                ..*old(self)
            }),
    {
        if cycles > 0 {
            let b = (div / 8) % 2 == 1;
            if self.div_bit && !b {
                self.div_apu = ((self.div_apu as u16 + 1) % 256) as u8;
            }
            self.div_bit = b;
        }
    }
}

/// Bit 3 of the DIV register, the frame sequencer's clock source.
pub open spec fn div_bit3(div: u8) -> bool {
    (div / 8) % 2 == 1
}


/// The APU after an advance of `cycles` T-cycles with DIV reading `div`.
pub open spec fn apu_after(a: Apu, cycles: u64, div: u8) -> Apu {
    if cycles == 0 {
        a
    } else {
        Apu {
            div_apu: if a.div_bit && !div_bit3(div) {
                ((a.div_apu + 1) % 256) as u8
            } else {
                a.div_apu
            },
            div_bit: div_bit3(div),
            ..a
        }
    }
}

/// How an APU write at `addr` relates the old register file to the new.
pub open spec fn apu_write_rel(pre: Apu, post: Apu, addr: u16, val: u8) -> bool {
    if 0xFF30 <= addr <= 0xFF3F {
        &&& post.wave_ram@ == pre.wave_ram@.update(addr - 0xFF30, val)
        &&& post == (Apu { wave_ram: post.wave_ram, ..pre })
    } else {
        post == pre.spec_written(addr, val)
    }
}

} // verus!
