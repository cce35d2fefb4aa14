//! Cartridge mappers: header decoding and the uniform mapper interface.
//!
//! A cartridge owns an immutable ROM image and a mutable external RAM. The
//! header selects the mapper variant; every variant answers reads in the
//! ROM window (0x0000-0x7FFF) and the external-RAM window (0xA000-0xBFFF),
//! treats writes to the ROM window as control commands, and can dump or
//! reload its external RAM for battery-backed saves. Bank indices always
//! wrap by the actual bank count.

use vstd::prelude::*;

use crate::mbc1::Mbc1;
use crate::mbc2::Mbc2;
use crate::mbc3::Mbc3;
use crate::no_mbc::NoMbc;

verus! {

/// The uniform operation set of a cartridge mapper.
pub trait Mbc: Sized {
    /// Internal well-formedness: sizes agree with bank counts, bank
    /// registers stay in their fields' widths.
    spec fn inv(&self) -> bool;

    /// The ROM image.
    spec fn spec_rom(&self) -> Seq<u8>;

    /// The external RAM contents.
    spec fn spec_ram(&self) -> Seq<u8>;

    /// Whether the cartridge reports a battery.
    spec fn spec_battery(&self) -> bool;

    /// The byte answered at `addr` in the ROM or external-RAM window.
    spec fn spec_read(&self, addr: u16) -> u8;

    /// How a write at `addr` changes the mapper: control registers in the
    /// ROM window, data in the external-RAM window.
    spec fn write_rel(pre: Self, post: Self, addr: u16, val: u8) -> bool;

    /// How a RAM reload changes the mapper: only the RAM contents move;
    /// the ROM, the battery flag, the bank registers, the enable latch and
    /// the mode all stay as they were.
    spec fn load_rel(pre: Self, post: Self, ram: Seq<u8>) -> bool;

    /// Read a byte from the ROM window or the external-RAM window.
    fn read_u8(&self, addr: u16) -> (r: u8)
        requires
            self.inv(),
            addr < 0x8000 || (0xA000 <= addr < 0xC000),
        ensures
            r == self.spec_read(addr),
    ;

    /// Write a byte: a mapper control command in the ROM window, a data
    /// byte in the external-RAM window.
    fn write_u8(&mut self, addr: u16, val: u8)
        requires
            old(self).inv(),
            addr < 0x8000 || (0xA000 <= addr < 0xC000),
        ensures
            final(self).inv(),
            Self::write_rel(*old(self), *final(self), addr, val),
            final(self).spec_rom() == old(self).spec_rom(),
            final(self).spec_ram().len() == old(self).spec_ram().len(),
            final(self).spec_battery() == old(self).spec_battery(),
    ;

    /// Replace the external RAM with persisted save data of the same size.
    fn load_ram(&mut self, ram: Vec<u8>)
        requires
            old(self).inv(),
            ram@.len() == old(self).spec_ram().len(),
        ensures
            final(self).inv(),
            Self::load_rel(*old(self), *final(self), ram@),
            final(self).spec_ram() == ram@,
            final(self).spec_rom() == old(self).spec_rom(),
            final(self).spec_battery() == old(self).spec_battery(),
    ;

    /// Copy the external RAM out for save persistence.
    fn dump_ram(&self) -> (r: Vec<u8>)
        requires
            self.inv(),
        ensures
            r@ == self.spec_ram(),
    ;

    /// Whether the cartridge keeps its RAM across power cycles.
    fn has_battery(&self) -> (r: bool)
        ensures
            r == self.spec_battery(),
    ;
}

/// Construction failures: everything that stops a ROM image from becoming
/// a cartridge.
#[derive(Debug, PartialEq, Eq, Structural, Clone, Copy)]
pub enum CartError {
    /// The image is shorter than the cartridge header.
    TooShort,
    /// Header byte 0x0147 names a mapper this core does not support.
    UnsupportedMapper,
    /// Header byte 0x0149 is not a known RAM-size code.
    UnsupportedRamSize,
    /// The image length disagrees with header byte 0x0148.
    RomSizeMismatch,
    /// The persisted save differs in length from the external RAM.
    SaveSizeMismatch,
}

/// ROM bank count encoded by header byte 0x0148: two 16 KiB banks doubled
/// `code` times.
pub open spec fn spec_rom_banks(code: u8) -> nat
    decreases code,
{
    if code == 0 {
        2
    } else {
        2 * spec_rom_banks((code - 1) as u8)
    }
}

/// ROM size in bytes encoded by header byte 0x0148: 32768 doubled `code`
/// times.
pub open spec fn spec_rom_size(code: u8) -> nat {
    0x4000 * spec_rom_banks(code)
}

/// External RAM size in bytes encoded by header byte 0x0149.
pub open spec fn spec_ram_size(code: u8) -> nat {
    if code == 0 {
        0
    } else if code == 1 {
        2048
    } else if code == 2 {
        8192
    } else if code == 3 {
        32768
    } else if code == 4 {
        131072
    } else {
        65536
    }
}

/// ROM size in bytes from the header of `rom` (byte 0x0148).
pub fn rom_size(rom: &[u8]) -> (r: usize)
    requires
        rom@.len() > 0x0148,
        rom@[0x0148] <= 8,
    ensures
        r == spec_rom_size(rom@[0x0148]),
{
    let code = rom[0x0148];
    let mut r: usize = 32768;
    let mut i: u8 = 0;
    while i < code
        invariant
            i <= code,
            code <= 8,
            r == spec_rom_size(i),
        decreases code - i,
    {
        proof {
            lemma_rom_banks_bound(code);
            lemma_rom_banks_mono(i, code);
        }
        r = r * 2;
        i = i + 1;
    }
    r
}

/// ROM bank counts grow with the code.
proof fn lemma_rom_banks_mono(i: u8, code: u8)
    requires
        i < code,
    ensures
        2 * spec_rom_banks(i) <= spec_rom_banks(code),
    decreases code,
{
    if i + 1 < code {
        lemma_rom_banks_mono(i, (code - 1) as u8);
    }
}

/// The largest supported ROM has 512 banks (8 MiB).
pub proof fn lemma_rom_banks_bound(code: u8)
    requires
        code <= 8,
    ensures
        spec_rom_banks(code) <= 512,
        spec_rom_banks(code) >= 2,
{
    assert(spec_rom_banks(0) == 2);
    assert(spec_rom_banks(1) == 4);
    assert(spec_rom_banks(2) == 8);
    assert(spec_rom_banks(3) == 16);
    assert(spec_rom_banks(4) == 32);
    assert(spec_rom_banks(5) == 64);
    assert(spec_rom_banks(6) == 128);
    assert(spec_rom_banks(7) == 256);
    assert(spec_rom_banks(8) == 512);
}

/// External RAM size in bytes from the header of `rom` (byte 0x0149).
pub fn ram_size(rom: &[u8]) -> (r: usize)
    requires
        rom@.len() > 0x0149,
        rom@[0x0149] <= 5,
    ensures
        r == spec_ram_size(rom@[0x0149]),
{
    match rom[0x0149] {
        0x00 => 0,
        0x01 => 2048,
        0x02 => 8192,
        0x03 => 32768,
        0x04 => 131072,
        _ => 65536,
    }
}

/// Whether header byte 0x0147 names a mapper this core implements.
pub open spec fn mapper_supported(b: u8) -> bool {
    b == 0x00 || b == 0x01 || b == 0x02 || b == 0x03 || b == 0x05 || b == 0x06 || b == 0x11
        || b == 0x12 || b == 0x13
}

/// Whether header byte 0x0147 names a battery-backed variant.
pub open spec fn mapper_battery(b: u8) -> bool {
    b == 0x03 || b == 0x06 || b == 0x13
}

/// Mapper family selected by header byte 0x0147: 0 none, 1 MBC1, 2 MBC2,
/// 3 MBC3.
pub open spec fn mapper_kind(b: u8) -> int {
    if b == 0x00 {
        0
    } else if b == 0x01 || b == 0x02 || b == 0x03 {
        1
    } else if b == 0x05 || b == 0x06 {
        2
    } else {
        3
    }
}

/// Whether the mapper family reads its RAM size from header byte 0x0149.
pub open spec fn mapper_header_ram(b: u8) -> bool {
    mapper_kind(b) == 1 || mapper_kind(b) == 3
}

/// External RAM size of the cartridge a header describes.
pub open spec fn expected_ram_len(rom: Seq<u8>) -> nat {
    if mapper_header_ram(rom[0x0147]) {
        spec_ram_size(rom[0x0149])
    } else if mapper_kind(rom[0x0147]) == 2 {
        512
    } else {
        0
    }
}

/// The construction failure a ROM image and optional save produce, if any.
/// Checks run in this order: header present, mapper supported, RAM-size
/// code known, image length as declared, save length as expected.
pub open spec fn spec_create_error(rom: Seq<u8>, save: Option<Seq<u8>>) -> Option<CartError> {
    if rom.len() < 0x0150 {
        Some(CartError::TooShort)
    } else if !mapper_supported(rom[0x0147]) {
        Some(CartError::UnsupportedMapper)
    } else if mapper_header_ram(rom[0x0147]) && rom[0x0149] > 5 {
        Some(CartError::UnsupportedRamSize)
    } else if rom[0x0148] > 8 || rom.len() != spec_rom_size(rom[0x0148]) {
        Some(CartError::RomSizeMismatch)
    } else if save is Some && save->0.len() != expected_ram_len(rom) {
        Some(CartError::SaveSizeMismatch)
    } else {
        None
    }
}

/// A cartridge: one of the mapper variants, held by value.
pub enum Cartridge {
    Plain(NoMbc),
    Mbc1(Mbc1),
    Mbc2(Mbc2),
    Mbc3(Mbc3),
}

impl Cartridge {
    /// Mapper family of this cartridge, numbered as `mapper_kind`.
    pub open spec fn kind(self) -> int {
        match self {
            Cartridge::Plain(_) => 0,
            Cartridge::Mbc1(_) => 1,
            Cartridge::Mbc2(_) => 2,
            Cartridge::Mbc3(_) => 3,
        }
    }
}

impl Mbc for Cartridge {
    open spec fn inv(&self) -> bool {
        match self {
            Cartridge::Plain(m) => m.inv(),
            Cartridge::Mbc1(m) => m.inv(),
            Cartridge::Mbc2(m) => m.inv(),
            Cartridge::Mbc3(m) => m.inv(),
        }
    }

    open spec fn spec_rom(&self) -> Seq<u8> {
        match self {
            Cartridge::Plain(m) => m.spec_rom(),
            Cartridge::Mbc1(m) => m.spec_rom(),
            Cartridge::Mbc2(m) => m.spec_rom(),
            Cartridge::Mbc3(m) => m.spec_rom(),
        }
    }

    open spec fn spec_ram(&self) -> Seq<u8> {
        match self {
            Cartridge::Plain(m) => m.spec_ram(),
            Cartridge::Mbc1(m) => m.spec_ram(),
            Cartridge::Mbc2(m) => m.spec_ram(),
            Cartridge::Mbc3(m) => m.spec_ram(),
        }
    }

    open spec fn spec_battery(&self) -> bool {
        match self {
            Cartridge::Plain(m) => m.spec_battery(),
            Cartridge::Mbc1(m) => m.spec_battery(),
            Cartridge::Mbc2(m) => m.spec_battery(),
            Cartridge::Mbc3(m) => m.spec_battery(),
        }
    }

    open spec fn spec_read(&self, addr: u16) -> u8 {
        match self {
            Cartridge::Plain(m) => m.spec_read(addr),
            Cartridge::Mbc1(m) => m.spec_read(addr),
            Cartridge::Mbc2(m) => m.spec_read(addr),
            Cartridge::Mbc3(m) => m.spec_read(addr),
        }
    }

    open spec fn write_rel(pre: Cartridge, post: Cartridge, addr: u16, val: u8) -> bool {
        match (pre, post) {
            (Cartridge::Plain(a), Cartridge::Plain(b)) => NoMbc::write_rel(a, b, addr, val),
            (Cartridge::Mbc1(a), Cartridge::Mbc1(b)) => Mbc1::write_rel(a, b, addr, val),
            (Cartridge::Mbc2(a), Cartridge::Mbc2(b)) => Mbc2::write_rel(a, b, addr, val),
            (Cartridge::Mbc3(a), Cartridge::Mbc3(b)) => Mbc3::write_rel(a, b, addr, val),
            _ => false,
        }
    }

    open spec fn load_rel(pre: Cartridge, post: Cartridge, ram: Seq<u8>) -> bool {
        match (pre, post) {
            (Cartridge::Plain(a), Cartridge::Plain(b)) => NoMbc::load_rel(a, b, ram),
            (Cartridge::Mbc1(a), Cartridge::Mbc1(b)) => Mbc1::load_rel(a, b, ram),
            (Cartridge::Mbc2(a), Cartridge::Mbc2(b)) => Mbc2::load_rel(a, b, ram),
            (Cartridge::Mbc3(a), Cartridge::Mbc3(b)) => Mbc3::load_rel(a, b, ram),
            _ => false,
        }
    }

    fn read_u8(&self, addr: u16) -> (r: u8) {
        match self {
            Cartridge::Plain(m) => m.read_u8(addr),
            Cartridge::Mbc1(m) => m.read_u8(addr),
            Cartridge::Mbc2(m) => m.read_u8(addr),
            Cartridge::Mbc3(m) => m.read_u8(addr),
        }
    }

    fn write_u8(&mut self, addr: u16, val: u8) {
        match self {
            Cartridge::Plain(m) => m.write_u8(addr, val),
            Cartridge::Mbc1(m) => m.write_u8(addr, val),
            Cartridge::Mbc2(m) => m.write_u8(addr, val),
            Cartridge::Mbc3(m) => m.write_u8(addr, val),
        }
    }

    fn load_ram(&mut self, ram: Vec<u8>) {
        match self {
            Cartridge::Plain(m) => m.load_ram(ram),
            Cartridge::Mbc1(m) => m.load_ram(ram),
            Cartridge::Mbc2(m) => m.load_ram(ram),
            Cartridge::Mbc3(m) => m.load_ram(ram),
        }
    }

    fn dump_ram(&self) -> (r: Vec<u8>) {
        match self {
            Cartridge::Plain(m) => m.dump_ram(),
            Cartridge::Mbc1(m) => m.dump_ram(),
            Cartridge::Mbc2(m) => m.dump_ram(),
            Cartridge::Mbc3(m) => m.dump_ram(),
        }
    }

    fn has_battery(&self) -> (r: bool) {
        match self {
            Cartridge::Plain(m) => m.has_battery(),
            Cartridge::Mbc1(m) => m.has_battery(),
            Cartridge::Mbc2(m) => m.has_battery(),
            Cartridge::Mbc3(m) => m.has_battery(),
        }
    }
}

/// Decode the cartridge header and build the mapper it names, loading the
/// persisted save into external RAM when one is given. Fails exactly on
/// the construction failures `spec_create_error` lists.
pub fn create_cart(rom: Vec<u8>, save: Option<Vec<u8>>) -> (r: Result<Cartridge, CartError>)
    ensures
        r is Ok <==> spec_create_error(
            rom@,
            match save {
                Some(s) => Some(s@),
                None => None,
            },
        ) is None,
        r matches Err(e) ==> Some(e) == spec_create_error(
            rom@,
            match save {
                Some(s) => Some(s@),
                None => None,
            },
        ),
        r matches Ok(c) ==> {
            &&& c.inv()
            &&& c.kind() == mapper_kind(rom@[0x0147])
            &&& c.spec_rom() == rom@
            &&& c.spec_battery() == mapper_battery(rom@[0x0147])
            &&& c.spec_ram().len() == expected_ram_len(rom@)
            &&& match save {
                Some(s) => c.spec_ram() == s@,
                None => forall|i: int| 0 <= i < c.spec_ram().len() ==> c.spec_ram()[i] == 0,
            }
        },
{
    if rom.len() < 0x0150 {
        return Err(CartError::TooShort);
    }
    let mbc = rom[0x0147];
    let supported = mbc == 0x00 || mbc == 0x01 || mbc == 0x02 || mbc == 0x03 || mbc == 0x05
        || mbc == 0x06 || mbc == 0x11 || mbc == 0x12 || mbc == 0x13;
    if !supported {
        return Err(CartError::UnsupportedMapper);
    }
    let header_ram = mbc == 0x01 || mbc == 0x02 || mbc == 0x03 || mbc == 0x11 || mbc == 0x12
        || mbc == 0x13;
    if header_ram && rom[0x0149] > 5 {
        return Err(CartError::UnsupportedRamSize);
    }
    if rom[0x0148] > 8 {
        return Err(CartError::RomSizeMismatch);
    }
    let declared = rom_size(rom.as_slice());
    if rom.len() != declared {
        return Err(CartError::RomSizeMismatch);
    }
    let expected_ram: usize = if header_ram {
        ram_size(rom.as_slice())
    } else if mbc == 0x05 || mbc == 0x06 {
        512
    } else {
        0
    };
    if let Some(s) = &save {
        if s.len() != expected_ram {
            return Err(CartError::SaveSizeMismatch);
        }
    }
    proof {
        lemma_rom_banks_bound(rom@[0x0148]);
        assert(rom@.len() % 0x4000 == 0 && rom@.len() >= 0x4000 && rom@.len() <= 0x800000)
            by (nonlinear_arith)
            requires
                rom@.len() == 0x4000 * spec_rom_banks(rom@[0x0148]),
                2 <= spec_rom_banks(rom@[0x0148]) <= 512,
        ;
    }
    let cart: Cartridge = if mbc == 0x00 {
        let mut m = NoMbc::new(rom);
        if let Some(s) = save {
            m.load_ram(s);
        }
        Cartridge::Plain(m)
    } else if mbc == 0x01 || mbc == 0x02 || mbc == 0x03 {
        let mut m = Mbc1::new(rom, mbc == 0x03);
        if let Some(s) = save {
            m.load_ram(s);
        }
        Cartridge::Mbc1(m)
    } else if mbc == 0x05 || mbc == 0x06 {
        let mut m = Mbc2::new(rom, mbc == 0x06);
        if let Some(s) = save {
            m.load_ram(s);
        }
        Cartridge::Mbc2(m)
    } else {
        let mut m = Mbc3::new(rom, mbc == 0x13);
        if let Some(s) = save {
            m.load_ram(s);
        }
        Cartridge::Mbc3(m)
    };
    Ok(cart)
}

} // verus!
