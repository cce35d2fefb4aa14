//! MBC3: 7-bit ROM bank register and a 3-bit RAM bank register.
//!
//! A ROM bank value of 0 selects bank 1 in the switchable window. The
//! real-time clock of the physical chip is not modelled; writes to its
//! latch range (0x6000-0x7FFF) are ignored.

use vstd::prelude::*;

use crate::mbc::Mbc;
use crate::mbc::spec_ram_size;
use crate::util::zero_vec;

verus! {

/// MBC3 mapper state (header mapper bytes 0x11-0x13).
pub struct Mbc3 {
    pub rom: Vec<u8>,
    pub ram: Vec<u8>,
    pub num_rom_banks: usize,
    pub num_ram_banks: usize,
    /// 3-bit RAM bank register.
    pub ram_bank: usize,
    /// 7-bit ROM bank register; 0 selects bank 1.
    pub rom_bank: usize,
    /// RAM enable latch; RAM responds only while the low nibble is 0xA.
    pub ram_enable: u8,
    pub battery: bool,
}

impl Mbc3 {
    /// Whether the RAM enable latch holds the magic nibble.
    pub open spec fn ram_on(self) -> bool {
        self.ram_enable % 16 == 0x0A
    }

    /// The ROM bank addressed by a read at `addr`, before wrapping.
    pub open spec fn rom_bank_of(self, addr: u16) -> int {
        if addr < 0x4000 {
            0
        } else if self.rom_bank == 0 {
            1
        } else {
            self.rom_bank as int
        }
    }

    /// The RAM bank in use: the bank register only when more than one bank
    /// exists, always wrapped by the bank count.
    pub open spec fn ram_bank_of(self) -> int {
        if self.num_ram_banks > 1 {
            (self.ram_bank as int) % (self.num_ram_banks as int)
        } else {
            0
        }
    }

    /// Index into the RAM for an access at `addr`.
    pub open spec fn ram_index_of(self, addr: u16) -> int {
        self.ram_bank_of() * 0x2000 + (addr % 0x2000)
    }

    /// Build an MBC3 cartridge around a ROM image whose header sizes have
    /// been validated.
    pub fn new(rom: Vec<u8>, battery: bool) -> (r: Mbc3)
        requires
            rom@.len() > 0x0149,
            rom@[0x0149] <= 5,
            rom@.len() % 0x4000 == 0,
            rom@.len() >= 0x4000,
            rom@.len() <= 0x800000,
        ensures
            r.inv(),
            r.rom == rom,
            r.ram@.len() == spec_ram_size(rom@[0x0149]),
            forall|i: int| 0 <= i < r.ram@.len() ==> r.ram@[i] == 0,
            r.ram_bank == 0 && r.rom_bank == 0 && r.ram_enable == 0,
            r.battery == battery,
    {
        let rs = crate::mbc::ram_size(rom.as_slice());
        let num_rom_banks = rom.len() / 0x4000;
        Mbc3 {
            ram: zero_vec(rs),
            rom,
            num_rom_banks,
            num_ram_banks: rs / 0x2000,
            ram_bank: 0,
            rom_bank: 0,
            ram_enable: 0,
            battery,
        }
    }
}

impl Mbc for Mbc3 {
    open spec fn inv(&self) -> bool {
        &&& self.rom@.len() == self.num_rom_banks * 0x4000
        &&& 1 <= self.num_rom_banks <= 512
        &&& self.num_ram_banks == self.ram@.len() / 0x2000
        &&& self.ram@.len() <= 0x20000
        &&& self.rom_bank < 128
        &&& self.ram_bank < 8
    }

    open spec fn spec_rom(&self) -> Seq<u8> {
        self.rom@
    }

    open spec fn spec_ram(&self) -> Seq<u8> {
        self.ram@
    }

    open spec fn spec_battery(&self) -> bool {
        self.battery
    }

    open spec fn spec_read(&self, addr: u16) -> u8 {
        if addr < 0x8000 {
            let bank = self.rom_bank_of(addr) % (self.num_rom_banks as int);
            self.rom@[bank * 0x4000 + (addr % 0x4000)]
        } else {
            if self.ram_on() && self.ram_index_of(addr) < self.ram@.len() {
                self.ram@[self.ram_index_of(addr)]
            } else {
                0xFF
            }
        }
    }

    open spec fn write_rel(pre: Mbc3, post: Mbc3, addr: u16, val: u8) -> bool {
        if addr < 0x2000 {
            post == (Mbc3 { ram_enable: val, ..pre })
        } else if addr < 0x4000 {
            post == (Mbc3 { rom_bank: (val % 128) as usize, ..pre })
        } else if addr < 0x6000 {
            post == (Mbc3 { ram_bank: (val % 8) as usize, ..pre })
        } else if addr < 0x8000 {
            post == pre
        } else {
            &&& post.ram@ == if pre.ram_on() && pre.ram_index_of(addr) < pre.ram@.len() {
                pre.ram@.update(pre.ram_index_of(addr), val)
            } else {
                pre.ram@
            }
            &&& post == (Mbc3 { ram: post.ram, ..pre })
        }
    }

    /// A reload replaces the RAM contents and nothing else.
    open spec fn load_rel(pre: Mbc3, post: Mbc3, ram: Seq<u8>) -> bool {
        &&& post.ram@ == ram
        &&& post == (Mbc3 { ram: post.ram, ..pre })
    }

    fn read_u8(&self, addr: u16) -> (r: u8) {
        if addr < 0x8000 {
            let bank: usize = if addr < 0x4000 {
                0
            } else if self.rom_bank == 0 {
                1
            } else {
                self.rom_bank
            };
            let idx: usize = (bank % self.num_rom_banks) * 0x4000 + (addr as usize) % 0x4000;
            self.rom[idx]
        } else {
            if self.ram_enable % 16 == 0x0A {
                let bank: usize = if self.num_ram_banks > 1 {
                    self.ram_bank % self.num_ram_banks
                } else {
                    0
                };
                let idx: usize = bank * 0x2000 + (addr as usize) % 0x2000;
                if idx < self.ram.len() {
                    self.ram[idx]
                } else {
                    0xFF
                }
            } else {
                0xFF
            }
        }
    }

    fn write_u8(&mut self, addr: u16, val: u8) {
        if addr < 0x2000 {
            self.ram_enable = val;
        } else if addr < 0x4000 {
            self.rom_bank = (val % 128) as usize;
        } else if addr < 0x6000 {
            self.ram_bank = (val % 8) as usize;
        } else if addr < 0x8000 {
            // the physical chip latches its clock here; not modelled
        } else {
            if self.ram_enable % 16 == 0x0A {
                let bank: usize = if self.num_ram_banks > 1 {
                    self.ram_bank % self.num_ram_banks
                } else {
                    0
                };
                let idx: usize = bank * 0x2000 + (addr as usize) % 0x2000;
                if idx < self.ram.len() {
                    self.ram[idx] = val;
                }
            }
        }
    }

    fn load_ram(&mut self, ram: Vec<u8>) {
        self.ram = ram;
    }

    fn dump_ram(&self) -> (r: Vec<u8>) {
        self.ram.clone()
    }

    fn has_battery(&self) -> (r: bool) {
        self.battery
    }
}

} // verus!
