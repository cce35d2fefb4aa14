//! MBC2: 4-bit ROM bank register and 512 half-bytes of internal RAM.
//!
//! Control writes in 0x0000-0x3FFF split on address bit 8: clear selects
//! the RAM enable latch, set the ROM bank. The internal RAM mirrors across
//! the whole external-RAM window and keeps only the low nibble of each
//! written byte.

use vstd::prelude::*;

use crate::mbc::Mbc;
use crate::util::zero_vec;

verus! {

/// MBC2 mapper state (header mapper bytes 0x05-0x06).
pub struct Mbc2 {
    pub rom: Vec<u8>,
    pub ram: Vec<u8>,
    pub num_rom_banks: usize,
    /// 4-bit ROM bank register; 0 selects bank 1.
    pub rom_bank: usize,
    /// RAM enable latch; RAM responds only while the low nibble is 0xA.
    pub ram_enable: u8,
    pub battery: bool,
}

impl Mbc2 {
    /// Whether the RAM enable latch holds the magic nibble.
    pub open spec fn ram_on(self) -> bool {
        self.ram_enable % 16 == 0x0A
    }

    /// The ROM bank addressed by a read at `addr`, before wrapping.
    pub open spec fn rom_bank_of(self, addr: u16) -> int {
        if addr < 0x4000 {
            0
        } else if self.rom_bank == 0 {
            1
        } else {
            self.rom_bank as int
        }
    }

    /// Build an MBC2 cartridge around a ROM image of whole banks.
    pub fn new(rom: Vec<u8>, battery: bool) -> (r: Mbc2)
        requires
            rom@.len() % 0x4000 == 0,
            rom@.len() >= 0x4000,
            rom@.len() <= 0x800000,
        ensures
            r.inv(),
            r.rom == rom,
            r.ram@.len() == 512,
            forall|i: int| 0 <= i < 512 ==> r.ram@[i] == 0,
            r.rom_bank == 1 && r.ram_enable == 0,
            r.battery == battery,
    {
        let num_rom_banks = rom.len() / 0x4000;
        Mbc2 {
            ram: zero_vec(512),
            rom,
            num_rom_banks,
            rom_bank: 1,
            ram_enable: 0,
            battery,
        }
    }
}

impl Mbc for Mbc2 {
    open spec fn inv(&self) -> bool {
        &&& self.rom@.len() == self.num_rom_banks * 0x4000
        &&& 1 <= self.num_rom_banks <= 512
        &&& self.ram@.len() == 512
        &&& self.rom_bank < 16
    }

    open spec fn spec_rom(&self) -> Seq<u8> {
        self.rom@
    }

    open spec fn spec_ram(&self) -> Seq<u8> {
        self.ram@
    }

    open spec fn spec_battery(&self) -> bool {
        self.battery
    }

    open spec fn spec_read(&self, addr: u16) -> u8 {
        if addr < 0x8000 {
            let bank = self.rom_bank_of(addr) % (self.num_rom_banks as int);
            self.rom@[bank * 0x4000 + (addr % 0x4000)]
        } else {
            if self.ram_on() {
                self.ram@[(addr % 512) as int]
            } else {
                0xFF
            }
        }
    }

    open spec fn write_rel(pre: Mbc2, post: Mbc2, addr: u16, val: u8) -> bool {
        if addr < 0x4000 {
            if (addr / 256) % 2 == 0 {
                post == (Mbc2 { ram_enable: val, ..pre })
            } else {
                post == (Mbc2 { rom_bank: (val % 16) as usize, ..pre })
            }
        } else if addr < 0x8000 {
            post == pre
        } else {
            &&& post.ram@ == if pre.ram_on() {
                pre.ram@.update((addr % 512) as int, (val % 16) as u8)
            } else {
                pre.ram@
            }
            &&& post == (Mbc2 { ram: post.ram, ..pre })
        }
    }

    /// A reload replaces the RAM contents and nothing else.
    open spec fn load_rel(pre: Mbc2, post: Mbc2, ram: Seq<u8>) -> bool {
        &&& post.ram@ == ram
        &&& post == (Mbc2 { ram: post.ram, ..pre })
    }

    fn read_u8(&self, addr: u16) -> (r: u8) {
        if addr < 0x8000 {
            let bank: usize = if addr < 0x4000 {
                0
            } else if self.rom_bank == 0 {
                1
            } else {
                self.rom_bank
            };
            let idx: usize = (bank % self.num_rom_banks) * 0x4000 + (addr as usize) % 0x4000;
            self.rom[idx]
        } else {
            if self.ram_enable % 16 == 0x0A {
                self.ram[(addr as usize) % 512]
            } else {
                0xFF
            }
        }
    }

    fn write_u8(&mut self, addr: u16, val: u8) {
        if addr < 0x4000 {
            if (addr / 256) % 2 == 0 {
                self.ram_enable = val;
            } else {
                self.rom_bank = (val % 16) as usize;
            }
        } else if addr < 0x8000 {
            // no command decodes in the upper ROM window on this mapper
        } else {
            if self.ram_enable % 16 == 0x0A {
                // only the low nibble is retained
                self.ram[(addr as usize) % 512] = val % 16;
            }
        }
    }

    fn load_ram(&mut self, ram: Vec<u8>) {
        self.ram = ram;
    }

    fn dump_ram(&self) -> (r: Vec<u8>) {
        self.ram.clone()
    }

    fn has_battery(&self) -> (r: bool) {
        self.battery
    }
}

} // verus!
