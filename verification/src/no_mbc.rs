//! The mapper-less cartridge: a bare ROM image, no banking, no RAM.

use vstd::prelude::*;

use crate::mbc::Mbc;

verus! {

/// ROM passthrough cartridge (header mapper byte 0x00).
pub struct NoMbc {
    pub rom: Vec<u8>,
}

impl NoMbc {
    pub fn new(rom: Vec<u8>) -> (r: NoMbc)
        ensures
            r.rom == rom,
            r.inv(),
    {
        NoMbc { rom }
    }
}

impl Mbc for NoMbc {
    open spec fn inv(&self) -> bool {
        true
    }

    open spec fn spec_rom(&self) -> Seq<u8> {
        self.rom@
    }

    open spec fn spec_ram(&self) -> Seq<u8> {
        Seq::empty()
    }

    open spec fn spec_battery(&self) -> bool {
        false
    }

    /// Reads answer straight from the image; past its end they answer the
    /// open-bus value 0xFF.
    open spec fn spec_read(&self, addr: u16) -> u8 {
        if addr < self.rom@.len() {
            self.rom@[addr as int]
        } else {
            0xFF
        }
    }

    /// Writes change nothing on an unbanked cartridge.
    open spec fn write_rel(pre: NoMbc, post: NoMbc, addr: u16, val: u8) -> bool {
        post == pre
    }

    /// A reload changes nothing: the unbanked cartridge has no RAM.
    open spec fn load_rel(pre: NoMbc, post: NoMbc, ram: Seq<u8>) -> bool {
        post == pre
    }

    fn read_u8(&self, addr: u16) -> (r: u8) {
        if (addr as usize) < self.rom.len() {
            self.rom[addr as usize]
        } else {
            0xFF
        }
    }

    fn write_u8(&mut self, addr: u16, val: u8) {
    }

    fn load_ram(&mut self, ram: Vec<u8>) {
    }

    fn dump_ram(&self) -> (r: Vec<u8>) {
        Vec::new()
    }

    fn has_battery(&self) -> (r: bool) {
        false
    }
}

} // verus!
