//! MBC1: 5-bit ROM bank register, 2-bit secondary register and a mode bit.
//!
//! The secondary register supplies the upper ROM bank bits on large
//! (64-bank and up) cartridges, or selects the RAM bank in mode 1. A ROM
//! bank value of 0 always selects bank 1 in the switchable window. RAM is
//! gated by a 4-bit enable latch that must hold 0xA.

use vstd::prelude::*;

use crate::mbc::Mbc;
use crate::mbc::spec_ram_size;
use crate::util::zero_vec;

verus! {

/// MBC1 mapper state (header mapper bytes 0x01-0x03).
pub struct Mbc1 {
    pub rom: Vec<u8>,
    pub ram: Vec<u8>,
    pub num_rom_banks: usize,
    pub num_ram_banks: usize,
    /// Secondary 2-bit register: upper ROM bits or RAM bank.
    pub ram_bank: usize,
    /// Lower 5-bit ROM bank register.
    pub rom_bank: usize,
    /// RAM enable latch; RAM responds only while the low nibble is 0xA.
    pub ram_enable: u8,
    /// Banking mode: false keeps the fixed window at bank 0 and RAM at
    /// bank 0, true applies the secondary register to both.
    pub mode: bool,
    pub battery: bool,
}

impl Mbc1 {
    /// Whether the RAM enable latch holds the magic nibble.
    pub open spec fn ram_on(self) -> bool {
        self.ram_enable % 16 == 0x0A
    }

    /// The ROM bank addressed by a read at `addr`, before wrapping.
    pub open spec fn rom_bank_of(self, addr: u16) -> int {
        if addr < 0x4000 {
            if self.mode {
                self.ram_bank * 32
            } else {
                0
            }
        } else {
            (if self.rom_bank == 0 {
                1int
            } else {
                self.rom_bank as int
            }) + (if self.num_rom_banks >= 64 {
                self.ram_bank * 32
            } else {
                0int
            })
        }
    }

    /// The RAM bank in use: the secondary register only in mode 1 and only
    /// with more than one bank present, always wrapped by the bank count.
    pub open spec fn ram_bank_of(self) -> int {
        if self.num_ram_banks > 1 && self.mode {
            (self.ram_bank as int) % (self.num_ram_banks as int)
        } else {
            0
        }
    }

    /// Index into the RAM for an access at `addr`.
    pub open spec fn ram_index_of(self, addr: u16) -> int {
        self.ram_bank_of() * 0x2000 + (addr % 0x2000)
    }

    /// Build an MBC1 cartridge around a ROM image whose header sizes have
    /// been validated.
    pub fn new(rom: Vec<u8>, battery: bool) -> (r: Mbc1)
        requires
            rom@.len() > 0x0149,
            rom@[0x0149] <= 5,
            rom@.len() % 0x4000 == 0,
            rom@.len() >= 0x4000,
            rom@.len() <= 0x800000,
        ensures
            r.inv(),
            r.rom == rom,
            r.ram@.len() == spec_ram_size(rom@[0x0149]),
            forall|i: int| 0 <= i < r.ram@.len() ==> r.ram@[i] == 0,
            r.ram_bank == 0 && r.rom_bank == 0 && r.ram_enable == 0 && !r.mode,
            r.battery == battery,
    {
        let rs = crate::mbc::ram_size(rom.as_slice());
        let num_rom_banks = rom.len() / 0x4000;
        Mbc1 {
            ram: zero_vec(rs),
            rom,
            num_rom_banks,
            num_ram_banks: rs / 0x2000,
            ram_bank: 0,
            rom_bank: 0,
            ram_enable: 0,
            mode: false,
            battery,
        }
    }
}

impl Mbc for Mbc1 {
    open spec fn inv(&self) -> bool {
        &&& self.rom@.len() == self.num_rom_banks * 0x4000
        &&& 1 <= self.num_rom_banks <= 512
        &&& self.num_ram_banks == self.ram@.len() / 0x2000
        &&& self.ram@.len() <= 0x20000
        &&& self.rom_bank < 32
        &&& self.ram_bank < 4
    }

    open spec fn spec_rom(&self) -> Seq<u8> {
        self.rom@
    }

    open spec fn spec_ram(&self) -> Seq<u8> {
        self.ram@
    }

    open spec fn spec_battery(&self) -> bool {
        self.battery
    }

    open spec fn spec_read(&self, addr: u16) -> u8 {
        if addr < 0x8000 {
            let bank = self.rom_bank_of(addr) % (self.num_rom_banks as int);
            self.rom@[bank * 0x4000 + (addr % 0x4000)]
        } else {
            if self.ram_on() && self.ram_index_of(addr) < self.ram@.len() {
                self.ram@[self.ram_index_of(addr)]
            } else {
                0xFF
            }
        }
    }

    open spec fn write_rel(pre: Mbc1, post: Mbc1, addr: u16, val: u8) -> bool {
        if addr < 0x2000 {
            post == (Mbc1 { ram_enable: val, ..pre })
        } else if addr < 0x4000 {
            post == (Mbc1 { rom_bank: (val % 32) as usize, ..pre })
        } else if addr < 0x6000 {
            post == (Mbc1 { ram_bank: (val % 4) as usize, ..pre })
        } else if addr < 0x8000 {
            post == (Mbc1 { mode: val % 2 == 1, ..pre })
        } else {
            &&& post.ram@ == if pre.ram_on() && pre.ram_index_of(addr) < pre.ram@.len() {
                pre.ram@.update(pre.ram_index_of(addr), val)
            } else {
                pre.ram@
            }
            &&& post == (Mbc1 { ram: post.ram, ..pre })
        }
    }

    /// A reload replaces the RAM contents and nothing else.
    open spec fn load_rel(pre: Mbc1, post: Mbc1, ram: Seq<u8>) -> bool {
        &&& post.ram@ == ram
        &&& post == (Mbc1 { ram: post.ram, ..pre })
    }

    fn read_u8(&self, addr: u16) -> (r: u8) {
        if addr < 0x8000 {
            let bank: usize = if addr < 0x4000 {
                if self.mode {
                    self.ram_bank * 32
                } else {
                    0
                }
            } else {
                let base: usize = if self.rom_bank == 0 {
                    1
                } else {
                    self.rom_bank
                };
                if self.num_rom_banks >= 64 {
                    base + self.ram_bank * 32
                } else {
                    base
                }
            };
            let idx: usize = (bank % self.num_rom_banks) * 0x4000 + (addr as usize) % 0x4000;
            self.rom[idx]
        } else {
            if self.ram_enable % 16 == 0x0A {
                let bank: usize = if self.num_ram_banks > 1 && self.mode {
                    self.ram_bank % self.num_ram_banks
                } else {
                    0
                };
                let idx: usize = bank * 0x2000 + (addr as usize) % 0x2000;
                if idx < self.ram.len() {
                    self.ram[idx]
                } else {
                    0xFF
                }
            } else {
                0xFF
            }
        }
    }

    fn write_u8(&mut self, addr: u16, val: u8) {
        if addr < 0x2000 {
            self.ram_enable = val;
        } else if addr < 0x4000 {
            self.rom_bank = (val % 32) as usize;
        } else if addr < 0x6000 {
            self.ram_bank = (val % 4) as usize;
        } else if addr < 0x8000 {
            self.mode = val % 2 == 1;
        } else {
            if self.ram_enable % 16 == 0x0A {
                let bank: usize = if self.num_ram_banks > 1 && self.mode {
                    self.ram_bank % self.num_ram_banks
                } else {
                    0
                };
                let idx: usize = bank * 0x2000 + (addr as usize) % 0x2000;
                if idx < self.ram.len() {
                    self.ram[idx] = val;
                }
            }
        }
    }

    fn load_ram(&mut self, ram: Vec<u8>) {
        self.ram = ram;
    }

    fn dump_ram(&self) -> (r: Vec<u8>) {
        self.ram.clone()
    }

    fn has_battery(&self) -> (r: bool) {
        self.battery
    }
}

/// The "bank 0 is 1" rule: with the lower bank register zero (and no
/// upper contribution), switchable-window reads address bank 1.
pub proof fn lemma_bank_zero_reads_bank_one(m: Mbc1, addr: u16)
    requires
        m.inv(),
        m.rom_bank == 0,
        m.ram_bank == 0,
        m.num_rom_banks >= 2,
        0x4000 <= addr < 0x8000,
    ensures
        m.spec_read(addr) == m.spec_rom()[0x4000 + (addr % 0x4000)],
{
    assert(1int % (m.num_rom_banks as int) == 1) by (nonlinear_arith)
        requires
            m.num_rom_banks >= 2,
    ;
}

/// Battery save round trip: a byte written to enabled cartridge RAM in
/// mode 0 is read back by a fresh cartridge that loaded the dumped RAM,
/// once that cartridge enables its RAM again.
pub proof fn lemma_save_round_trip(pre: Mbc1, post: Mbc1, fresh: Mbc1, addr: u16, val: u8)
    requires
        pre.inv(),
        pre.ram_on(),
        !pre.mode,
        0xA000 <= addr < 0xC000,
        pre.ram_index_of(addr) < pre.ram@.len(),
        Mbc1::write_rel(pre, post, addr, val),
        fresh.inv(),
        fresh.ram_on(),
        !fresh.mode,
        fresh.ram@ == post.ram@,
    ensures
        post.spec_ram()[(addr % 0x2000) as int] == val,
        fresh.spec_read(addr) == val,
{
}

} // verus!
