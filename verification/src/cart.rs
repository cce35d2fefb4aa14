//! A raw, unbanked cartridge image: plain read access to the ROM bytes.

use vstd::prelude::*;

verus! {

/// A bare ROM image without any mapper hardware in front of it.
pub struct Cart {
    pub rom: Vec<u8>,
}

impl Cart {
    pub fn new(rom: Vec<u8>) -> (r: Cart)
        ensures
            r.rom == rom,
    {
        Cart { rom }
    }

    /// Read a byte straight from the image.
    pub fn read_u8(&self, addr: u16) -> (r: u8)
        requires
            addr < self.rom@.len(),
        ensures
            r == self.rom@[addr as int],
    {
        self.rom[addr as usize]
    }
}

} // verus!
