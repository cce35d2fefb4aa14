//! The SM83 register file: eight 8-bit registers pairable into AF, BC, DE
//! and HL, the 16-bit SP and PC, and the four flags Z, N, H, C.
//!
//! The flag byte F only ever exposes its upper nibble: the flags are kept as
//! four booleans and packed on demand, so the low nibble of F is zero by
//! construction.

use vstd::prelude::*;

verus! {

/// CPU register file. An 8-bit register index in {0..7} maps
/// 0:B 1:C 2:D 3:E 4:H 5:L 7:A; index 6 stands for memory indirect via HL
/// and is resolved by the CPU, never by the register file itself.
pub struct RegisterFile {
    pub a: u8,
    pub b: u8,
    pub c: u8,
    pub d: u8,
    pub e: u8,
    pub h: u8,
    pub l: u8,
    /// Zero flag (bit 7 of F).
    pub zf: bool,
    /// Subtraction flag (bit 6 of F).
    pub nf: bool,
    /// Half-carry flag (bit 5 of F).
    pub hf: bool,
    /// Carry flag (bit 4 of F).
    pub cf: bool,
    pub sp: u16,
    pub pc: u16,
}

impl RegisterFile {
    /// The F register as a byte: flags in bits 7..4, low nibble zero.
    pub open spec fn spec_f(self) -> int {
        (if self.zf { 0x80int } else { 0int })
            + (if self.nf { 0x40int } else { 0int })
            + (if self.hf { 0x20int } else { 0int })
            + (if self.cf { 0x10int } else { 0int })
    }

    /// The AF pair as a 16-bit value.
    pub open spec fn spec_af(self) -> int {
        self.a * 256 + self.spec_f()
    }

    /// The BC pair as a 16-bit value.
    pub open spec fn spec_bc(self) -> int {
        self.b * 256 + self.c
    }

    /// The DE pair as a 16-bit value.
    pub open spec fn spec_de(self) -> int {
        self.d * 256 + self.e
    }

    /// The HL pair as a 16-bit value.
    pub open spec fn spec_hl(self) -> int {
        self.h * 256 + self.l
    }

    /// The 8-bit register selected by an index in {0..5, 7}.
    pub open spec fn spec_r8(self, idx: int) -> u8 {
        if idx == 0 {
            self.b
        } else if idx == 1 {
            self.c
        } else if idx == 2 {
            self.d
        } else if idx == 3 {
            self.e
        } else if idx == 4 {
            self.h
        } else if idx == 5 {
            self.l
        } else {
            self.a
        }
    }

    /// The register file with the register at `idx` replaced by `val`.
    pub open spec fn spec_with_r8(self, idx: int, val: u8) -> RegisterFile {
        if idx == 0 {
            RegisterFile { b: val, ..self }
        } else if idx == 1 {
            RegisterFile { c: val, ..self }
        } else if idx == 2 {
            RegisterFile { d: val, ..self }
        } else if idx == 3 {
            RegisterFile { e: val, ..self }
        } else if idx == 4 {
            RegisterFile { h: val, ..self }
        } else if idx == 5 {
            RegisterFile { l: val, ..self }
        } else {
            RegisterFile { a: val, ..self }
        }
    }

    /// All registers and flags zeroed.
    pub fn new() -> (r: RegisterFile)
        ensures
            r == (RegisterFile {
                a: 0, b: 0, c: 0, d: 0, e: 0, h: 0, l: 0,
                zf: false, nf: false, hf: false, cf: false,
                sp: 0, pc: 0,
            }),
    {
        RegisterFile {
            a: 0, b: 0, c: 0, d: 0, e: 0, h: 0, l: 0,
            zf: false, nf: false, hf: false, cf: false,
            sp: 0, pc: 0,
        }
    }

    /// Pack the four flags into the F byte; the low nibble is always zero.
    pub fn read_f(&self) -> (r: u8)
        ensures
            r == self.spec_f(),
            r % 16 == 0,
    {
        (if self.zf { 0x80u8 } else { 0u8 })
            + (if self.nf { 0x40u8 } else { 0u8 })
            + (if self.hf { 0x20u8 } else { 0u8 })
            + (if self.cf { 0x10u8 } else { 0u8 })
    }

    /// Write AF: bits 15..8 go to A, bits 7..4 to the flags, and the low
    /// nibble of the written value is discarded.
    pub fn write_af(&mut self, val: u16)
        ensures
            *final(self) == (RegisterFile {
                a: (val / 256) as u8,
                zf: (val / 128) % 2 == 1,
                nf: (val / 64) % 2 == 1,
                hf: (val / 32) % 2 == 1,
                cf: (val / 16) % 2 == 1,
                ..*old(self)
            }),
    {
        self.a = (val / 256) as u8;
        self.zf = (val / 128) % 2 == 1;
        self.nf = (val / 64) % 2 == 1;
        self.hf = (val / 32) % 2 == 1;
        self.cf = (val / 16) % 2 == 1;
    }

    pub fn read_af(&self) -> (r: u16)
        ensures
            r == self.spec_af(),
            r % 16 == 0,
    {
        (self.a as u16) * 256 + (self.read_f() as u16)
    }

    pub fn write_bc(&mut self, val: u16)
        ensures
            *final(self) == (RegisterFile {
                b: (val / 256) as u8,
                c: (val % 256) as u8,
                ..*old(self)
            }),
    {
        self.b = (val / 256) as u8;
        self.c = (val % 256) as u8;
    }

    pub fn read_bc(&self) -> (r: u16)
        ensures
            r == self.spec_bc(),
    {
        (self.b as u16) * 256 + (self.c as u16)
    }

    pub fn write_de(&mut self, val: u16)
        ensures
            *final(self) == (RegisterFile {
                d: (val / 256) as u8,
                e: (val % 256) as u8,
                ..*old(self)
            }),
    {
        self.d = (val / 256) as u8;
        self.e = (val % 256) as u8;
    }

    pub fn read_de(&self) -> (r: u16)
        ensures
            r == self.spec_de(),
    {
        (self.d as u16) * 256 + (self.e as u16)
    }

    pub fn write_hl(&mut self, val: u16)
        ensures
            *final(self) == (RegisterFile {
                h: (val / 256) as u8,
                l: (val % 256) as u8,
                ..*old(self)
            }),
    {
        self.h = (val / 256) as u8;
        self.l = (val % 256) as u8;
    }

    pub fn read_hl(&self) -> (r: u16)
        ensures
            r == self.spec_hl(),
    {
        (self.h as u16) * 256 + (self.l as u16)
    }

    pub fn write_z(&mut self, val: bool)
        ensures
            *final(self) == (RegisterFile { zf: val, ..*old(self) }),
    {
        self.zf = val;
    }

    pub fn read_z(&self) -> (r: bool)
        ensures
            r == self.zf,
    {
        self.zf
    }

    pub fn write_n(&mut self, val: bool)
        ensures
            *final(self) == (RegisterFile { nf: val, ..*old(self) }),
    {
        self.nf = val;
    }

    pub fn read_n(&self) -> (r: bool)
        ensures
            r == self.nf,
    {
        self.nf
    }

    pub fn write_h(&mut self, val: bool)
        ensures
            *final(self) == (RegisterFile { hf: val, ..*old(self) }),
    {
        self.hf = val;
    }

    pub fn read_h(&self) -> (r: bool)
        ensures
            r == self.hf,
    {
        self.hf
    }

    pub fn write_c(&mut self, val: bool)
        ensures
            *final(self) == (RegisterFile { cf: val, ..*old(self) }),
    {
        self.cf = val;
    }

    pub fn read_c(&self) -> (r: bool)
        ensures
            r == self.cf,
    {
        self.cf
    }

    /// Read the 8-bit register selected by `idx` (6, the HL indirection,
    /// is not a register and is excluded).
    pub fn get_r8(&self, idx: u8) -> (r: u8)
        requires
            idx <= 7,
            idx != 6,
        ensures
            r == self.spec_r8(idx as int),
    {
        match idx {
            0 => self.b,
            1 => self.c,
            2 => self.d,
            3 => self.e,
            4 => self.h,
            5 => self.l,
            _ => self.a,
        }
    }

    /// Write the 8-bit register selected by `idx` (6 excluded, as above).
    pub fn set_r8(&mut self, idx: u8, val: u8)
        requires
            idx <= 7,
            idx != 6,
        ensures
            *final(self) == old(self).spec_with_r8(idx as int, val),
    {
        match idx {
            0 => self.b = val,
            1 => self.c = val,
            2 => self.d = val,
            3 => self.e = val,
            4 => self.h = val,
            5 => self.l = val,
            _ => self.a = val,
        }
    }

}

} // verus!
