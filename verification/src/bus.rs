//! The memory bus: address decoding, the DMA engine, and the per-tick
//! fan-out that advances every peripheral and gathers interrupt flags.
//!
//! The 16-bit address space routes to cartridge ROM, VRAM, cartridge RAM,
//! work RAM, its echo, OAM, the I/O registers, high RAM and the IE
//! register. Reads of the prohibited region answer 0xFF and writes there
//! are ignored; IF (0xFF0F) and IE (0xFFFF) keep only bits 0..4.

use vstd::prelude::*;

use crate::apu::Apu;
use crate::apu::apu_after;
use crate::apu::apu_write_rel;
use crate::joypad::Joypad;
use crate::joypad::joypad_pressed;
use crate::joypad::p1_after;
use crate::mbc::Cartridge;
use crate::mbc::Mbc;
use crate::ppu::Ppu;
use crate::ppu::oam_write_rel;
use crate::ppu::ppu_tick_rel;
use crate::ppu::reg_write_rel;
use crate::ppu::spec_obj;
use crate::ppu::vram_write_rel;
use crate::serial::Serial;
use crate::serial::final_bit_counter;
use crate::serial::final_cycles;
use crate::serial::final_sb;
use crate::serial::final_sc;
use crate::serial::serial_shifts;
use crate::timer::Timer;
use crate::timer::timer_after;
use crate::timer::timer_after_write;
use crate::util::or_bit;

verus! {

/// Address of the interrupt-flag register IF.
pub const IF_ADDR: u16 = 0xFF0F;
/// Address of the interrupt-enable register IE.
pub const IE_ADDR: u16 = 0xFFFF;

/// The memory bus, owning the cartridge and every peripheral.
pub struct Bus {
    /// Backing storage for work RAM, high RAM, IF and IE; other regions
    /// route to their owners.
    pub ram: Vec<u8>,
    pub cart: Cartridge,
    pub timer: Timer,
    pub ppu: Ppu,
    pub joypad: Joypad,
    pub serial: Serial,
    pub apu: Apu,
}

impl Bus {
    /// Sizes and peripheral invariants; IF and IE only ever hold their
    /// five interrupt bits.
    pub open spec fn wf(self) -> bool {
        &&& self.ram@.len() == 0x10000
        &&& self.cart.inv()
        &&& self.timer.wf()
        &&& self.serial.wf()
        &&& self.ppu.wf()
        &&& self.apu.wf()
        &&& self.ram@[IF_ADDR as int] < 32
        &&& self.ram@[IE_ADDR as int] < 32
    }

    /// A fresh bus around a cartridge: peripherals reset, RAM zeroed.
    pub fn new(cart: Cartridge) -> (r: Bus)
        requires
            cart.inv(),
        ensures
            r.wf(),
            r.cart == cart,
            r.timer == (Timer {
                div: 0, tima: 0, tma: 0, tac: 0,
                timer_int: false, tima_state: 0, div_state: 0,
            }),
            r.joypad == (Joypad {
                up: false, down: false, left: false, right: false,
                a: false, b: false, select: false, start: false,
                p1: 0xFF, joypad_int: false,
            }),
            r.serial == (Serial { sb: 0, sc: 0, serial_int: false, cycles: 0, bit_counter: 0 }),
            forall|i: int| 0 <= i < 0x10000 ==> r.ram@[i] == 0,
            r.ppu.lcdc == 0xA3 && r.ppu.stat == 0 && r.ppu.ly == 0 && r.ppu.lyc == 0
                && r.ppu.wly == 0 && r.ppu.state == crate::ppu::PpuState::OAMScan
                && r.ppu.cycles == 0 && !r.ppu.stat_int && !r.ppu.vblank_int,
            forall|i: int| 0 <= i < r.ppu.frame@.len() ==> r.ppu.frame@[i] == crate::ppu::Color::White,
            forall|i: int|
                0 <= i < r.ppu.frame_buffer@.len() ==> r.ppu.frame_buffer@[i]
                    == crate::ppu::Color::White,
    {
        Bus {
            ram: crate::util::zero_vec(0x10000),
            cart,
            timer: Timer::new(),
            ppu: Ppu::new(),
            joypad: Joypad::new(),
            serial: Serial::new(),
            apu: Apu::new(),
        }
    }

    /// The byte the bus answers at `addr`.
    pub open spec fn spec_read(self, addr: u16) -> u8 {
        if addr < 0x8000 {
            self.cart.spec_read(addr)
        } else if addr < 0xA000 {
            self.ppu.spec_read(addr)
        } else if addr < 0xC000 {
            self.cart.spec_read(addr)
        } else if addr < 0xE000 {
            self.ram@[addr as int]
        } else if addr < 0xFE00 {
            self.ram@[addr - 0x2000]
        } else if addr < 0xFEA0 {
            self.ppu.spec_read(addr)
        } else if addr < 0xFF00 {
            0xFF
        } else if addr < 0xFF80 {
            self.spec_io_read(addr)
        } else {
            self.ram@[addr as int]
        }
    }

    /// The byte an I/O register answers.
    pub open spec fn spec_io_read(self, addr: u16) -> u8 {
        if addr == 0xFF00 {
            self.joypad.p1
        } else if addr == 0xFF01 || addr == 0xFF02 {
            if addr == 0xFF01 {
                self.serial.sb
            } else {
                self.serial.sc
            }
        } else if 0xFF04 <= addr <= 0xFF07 {
            if addr == 0xFF04 {
                self.timer.div
            } else if addr == 0xFF05 {
                self.timer.tima
            } else if addr == 0xFF06 {
                self.timer.tma
            } else {
                self.timer.tac
            }
        } else if addr == IF_ADDR {
            self.ram@[IF_ADDR as int]
        } else if (0xFF10 <= addr <= 0xFF14) || (0xFF16 <= addr <= 0xFF1E) || (0xFF20 <= addr
            <= 0xFF26) || (0xFF30 <= addr <= 0xFF3F) {
            self.apu.spec_read(addr)
        } else if (0xFF40 <= addr <= 0xFF45) || (0xFF47 <= addr <= 0xFF4B) {
            self.ppu.spec_read(addr)
        } else if addr == 0xFF46 {
            0xFF
        } else {
            0
        }
    }

    /// Read one byte off the bus.
    pub fn read_u8(&self, addr: u16) -> (r: u8)
        requires
            self.wf(),
        ensures
            r == self.spec_read(addr),
    {
        if addr < 0x8000 {
            self.cart.read_u8(addr)
        } else if addr < 0xA000 {
            self.ppu.read_u8(addr)
        } else if addr < 0xC000 {
            self.cart.read_u8(addr)
        } else if addr < 0xE000 {
            self.ram[addr as usize]
        } else if addr < 0xFE00 {
            self.ram[(addr - 0x2000) as usize]
        } else if addr < 0xFEA0 {
            self.ppu.read_u8(addr)
        } else if addr < 0xFF00 {
            0xFF
        } else if addr < 0xFF80 {
            self.io_read_u8(addr)
        } else {
            self.ram[addr as usize]
        }
    }

    /// Read one I/O register.
    fn io_read_u8(&self, addr: u16) -> (r: u8)
        requires
            self.wf(),
            0xFF00 <= addr < 0xFF80,
        ensures
            r == self.spec_io_read(addr),
    {
        if addr == 0xFF00 {
            self.joypad.read_u8()
        } else if addr == 0xFF01 || addr == 0xFF02 {
            self.serial.read_u8(addr)
        } else if 0xFF04 <= addr && addr <= 0xFF07 {
            self.timer.read_u8(addr)
        } else if addr == IF_ADDR {
            self.ram[IF_ADDR as usize]
        } else if (0xFF10 <= addr && addr <= 0xFF14) || (0xFF16 <= addr && addr <= 0xFF1E) || (
        0xFF20 <= addr && addr <= 0xFF26) || (0xFF30 <= addr && addr <= 0xFF3F) {
            self.apu.read_u8(addr)
        } else if (0xFF40 <= addr && addr <= 0xFF45) || (0xFF47 <= addr && addr <= 0xFF4B) {
            self.ppu.read_u8(addr)
        } else if addr == 0xFF46 {
            0xFF
        } else {
            0
        }
    }

    /// Little-endian 16-bit read: the byte at `addr` and the byte at
    /// `addr + 1` (wrapping).
    pub fn read_u16(&self, addr: u16) -> (r: u16)
        requires
            self.wf(),
        ensures
            r == self.spec_read(addr) + self.spec_read((((addr + 1) as int) % 0x10000) as u16)
                * 256,
    {
        (self.read_u8(addr) as u16) + (self.read_u8(addr.wrapping_add(1)) as u16) * 256
    }

    /// Write one byte onto the bus.
    pub fn write_u8(&mut self, addr: u16, val: u8)
        requires
            old(self).wf(),
        ensures
            final(self).wf(),
            bus_write_rel(*old(self), *final(self), addr, val),
    {
        if addr < 0x8000 {
            self.cart.write_u8(addr, val);
        } else if addr < 0xA000 {
            self.ppu.write_u8(addr, val);
        } else if addr < 0xC000 {
            self.cart.write_u8(addr, val);
        } else if addr < 0xE000 {
            self.ram[addr as usize] = val;
        } else if addr < 0xFE00 {
            self.ram[(addr - 0x2000) as usize] = val;
        } else if addr < 0xFEA0 {
            self.ppu.write_u8(addr, val);
        } else if addr < 0xFF00 {
            // prohibited region: ignored
        } else if addr < 0xFF80 {
            self.io_write_u8(addr, val);
        } else if addr == IE_ADDR {
            self.ram[IE_ADDR as usize] = val % 32;
        } else {
            self.ram[addr as usize] = val;
        }
    }

    /// Write one I/O register.
    fn io_write_u8(&mut self, addr: u16, val: u8)
        requires
            old(self).wf(),
            0xFF00 <= addr < 0xFF80,
        ensures
            final(self).wf(),
            io_write_rel(*old(self), *final(self), addr, val),
    {
        if addr == 0xFF00 {
            self.joypad.write_u8(val);
        } else if addr == 0xFF01 || addr == 0xFF02 {
            self.serial.write_u8(addr, val);
        } else if 0xFF04 <= addr && addr <= 0xFF07 {
            self.timer.write_u8(addr, val);
        } else if addr == IF_ADDR {
            self.ram[IF_ADDR as usize] = val % 32;
        } else if (0xFF10 <= addr && addr <= 0xFF14) || (0xFF16 <= addr && addr <= 0xFF1E) || (
        0xFF20 <= addr && addr <= 0xFF26) || (0xFF30 <= addr && addr <= 0xFF3F) {
            self.apu.write_u8(addr, val);
        } else if addr == 0xFF46 {
            self.do_dma(val);
        } else if (0xFF40 <= addr && addr <= 0xFF45) || (0xFF47 <= addr && addr <= 0xFF4B) {
            self.ppu.write_u8(addr, val);
        } else {
            // unmapped I/O: ignored
        }
    }

    /// Little-endian 16-bit write: low byte at `addr`, high byte at
    /// `addr + 1` (wrapping).
    pub fn write_u16(&mut self, addr: u16, val: u16)
        requires
            old(self).wf(),
        ensures
            final(self).wf(),
            bus_write16_rel(*old(self), *final(self), addr, val),
    {
        self.write_u8(addr, (val % 256) as u8);
        let ghost mid = *self;
        self.write_u8(addr.wrapping_add(1), (val / 256) as u8);
        proof {
            assert(bus_write_rel(*old(self), mid, addr, (val % 256) as u8));
        }
    }

    /// OAM DMA: copy 160 bytes from `src << 8` into OAM, instantaneously
    /// from the CPU's point of view.
    fn do_dma(&mut self, src: u8)
        requires
            old(self).wf(),
        ensures
            final(self).wf(),
            dma_rel(*old(self), *final(self), src),
    {
        let addr: u16 = (src as u16) * 256;
        let mut i: u16 = 0;
        while i < 0xA0
            invariant
                i <= 0xA0,
                addr == src * 256,
                old(self).wf(),
                self.wf(),
                self.ppu.oam@.len() == 0xA0,
                forall|j: int|
                    0 <= j < i ==> #[trigger] self.ppu.oam@[j] == old(self).spec_read(
                        (src * 256 + j) as u16,
                    ),
                forall|j: int|
                    i <= j < 0xA0 ==> #[trigger] self.ppu.oam@[j] == old(self).ppu.oam@[j],
                self.ppu == (Ppu { oam: self.ppu.oam, objects: self.ppu.objects, ..old(self).ppu }),
                *self == (Bus { ppu: self.ppu, ..*old(self) }),
            decreases 0xA0 - i,
        {
            let b = self.read_u8(addr + i);
            proof {
                assert(self.spec_read((addr + i) as u16) == old(self).spec_read((addr + i) as u16));
            }
            self.ppu.write_u8(0xFE00 + i, b);
            i = i + 1;
        }
    }

    /// Advance the joypad, serial and timer, collecting each posted
    /// interrupt into IF and clearing the peripheral's latch.
    #[verifier::rlimit(100)]
    fn tick_front(&mut self, cycles: u64)
        requires
            old(self).wf(),
            cycles <= 80,
        ensures
            final(self).wf(),
            final(self).joypad == (Joypad {
                p1: p1_after(old(self).joypad),
                joypad_int: false,
                ..old(self).joypad
            }),
            final(self).serial == (Serial {
                sb: final_sb(old(self).serial, cycles),
                sc: final_sc(old(self).serial, cycles),
                cycles: final_cycles(old(self).serial, cycles),
                bit_counter: final_bit_counter(old(self).serial, cycles),
                serial_int: false,
            }),
            final(self).timer == (Timer {
                timer_int: false,
                ..timer_after(old(self).timer, cycles)
            }),
            final(self).ram@ == old(self).ram@.update(
                IF_ADDR as int,
                if_front(*old(self), cycles),
            ),
            final(self).ppu == old(self).ppu,
            final(self).apu == old(self).apu,
            final(self).cart == old(self).cart,
    {
        self.joypad.tick();
        let f0 = self.ram[IF_ADDR as usize];
        let f1 = crate::util::or_bit_of(f0, 16, self.joypad.joypad_int);
        self.ram[IF_ADDR as usize] = f1;
        self.joypad.joypad_int = false;

        self.serial.tick(cycles);
        let f2 = crate::util::or_bit_of(f1, 8, self.serial.serial_int);
        self.ram[IF_ADDR as usize] = f2;
        self.serial.serial_int = false;

        self.timer.tick(cycles);
        let f3 = crate::util::or_bit_of(f2, 4, self.timer.timer_int);
        self.ram[IF_ADDR as usize] = f3;
        self.timer.timer_int = false;
        proof {
            assert(self.ram@ =~= old(self).ram@.update(IF_ADDR as int, f3));
        }
    }

    /// Advance the PPU and the APU frame sequencer, collecting the STAT
    /// and VBlank interrupts into IF and clearing the PPU's latches.
    #[verifier::rlimit(100)]
    fn tick_video(&mut self, cycles: u64)
        requires
            old(self).wf(),
            cycles <= 80,
        ensures
            final(self).wf(),
            exists|pp: Ppu|
                {
                    &&& #[trigger] ppu_tick_rel(old(self).ppu, pp, cycles)
                    &&& final(self).ppu == (Ppu { stat_int: false, vblank_int: false, ..pp })
                    &&& final(self).ram@ == old(self).ram@.update(
                        IF_ADDR as int,
                        or_bit(
                            or_bit(old(self).ram@[IF_ADDR as int], 2, pp.stat_int),
                            1,
                            pp.vblank_int,
                        ),
                    )
                },
            final(self).apu == apu_after(old(self).apu, cycles, old(self).timer.div),
            final(self).joypad == old(self).joypad,
            final(self).serial == old(self).serial,
            final(self).timer == old(self).timer,
            final(self).cart == old(self).cart,
    {
        self.ppu.tick(cycles);
        let ghost pp = self.ppu;
        let f0 = self.ram[IF_ADDR as usize];
        let f4 = crate::util::or_bit_of(f0, 2, self.ppu.stat_int);
        self.ram[IF_ADDR as usize] = f4;
        self.ppu.stat_int = false;
        let f5 = crate::util::or_bit_of(f4, 1, self.ppu.vblank_int);
        self.ram[IF_ADDR as usize] = f5;
        self.ppu.vblank_int = false;

        self.apu.tick(cycles, self.timer.div);
        proof {
            assert(self.ram@ =~= old(self).ram@.update(IF_ADDR as int, f5));
            assert(ppu_tick_rel(old(self).ppu, pp, cycles));
        }
    }

    /// Advance every peripheral by `cycles` T-cycles, in the fixed order
    /// joypad, serial, timer, PPU, APU, collecting each posted interrupt
    /// into IF and clearing the peripheral's latch.
    #[verifier::rlimit(100)]
    pub fn tick(&mut self, cycles: u64)
        requires
            old(self).wf(),
            cycles <= 80,
        ensures
            final(self).wf(),
            bus_tick_rel(*old(self), *final(self), cycles),
    {
        self.tick_front(cycles);
        let ghost mid = *self;
        self.tick_video(cycles);
        proof {
            let pp = choose|pp: Ppu|
                #[trigger] ppu_tick_rel(mid.ppu, pp, cycles) && self.ppu == (Ppu {
                    stat_int: false,
                    vblank_int: false,
                    ..pp
                }) && self.ram@ == mid.ram@.update(
                    IF_ADDR as int,
                    or_bit(or_bit(mid.ram@[IF_ADDR as int], 2, pp.stat_int), 1, pp.vblank_int),
                );
            assert(ppu_tick_rel(old(self).ppu, pp, cycles));
            assert(self.ram@ =~= old(self).ram@.update(
                IF_ADDR as int,
                if_after(*old(self), pp, cycles),
            ));
            assert(bus_tick_rel(*old(self), *self, cycles));
        }
    }
}

/// How one bus write relates the old bus to the new, by region.
pub open spec fn bus_write_rel(pre: Bus, post: Bus, addr: u16, val: u8) -> bool {
    if addr < 0x8000 || (0xA000 <= addr < 0xC000) {
        &&& Cartridge::write_rel(pre.cart, post.cart, addr, val)
        &&& post == (Bus { cart: post.cart, ..pre })
    } else if addr < 0xA000 {
        &&& vram_write_rel(pre.ppu, post.ppu, addr, val)
        &&& post == (Bus { ppu: post.ppu, ..pre })
    } else if addr < 0xE000 {
        &&& post.ram@ == pre.ram@.update(addr as int, val)
        &&& post == (Bus { ram: post.ram, ..pre })
    } else if addr < 0xFE00 {
        &&& post.ram@ == pre.ram@.update(addr - 0x2000, val)
        &&& post == (Bus { ram: post.ram, ..pre })
    } else if addr < 0xFEA0 {
        &&& oam_write_rel(pre.ppu, post.ppu, addr, val)
        &&& post == (Bus { ppu: post.ppu, ..pre })
    } else if addr < 0xFF00 {
        post == pre
    } else if addr < 0xFF80 {
        io_write_rel(pre, post, addr, val)
    } else if addr == IE_ADDR {
        &&& post.ram@ == pre.ram@.update(IE_ADDR as int, (val % 32) as u8)
        &&& post == (Bus { ram: post.ram, ..pre })
    } else {
        &&& post.ram@ == pre.ram@.update(addr as int, val)
        &&& post == (Bus { ram: post.ram, ..pre })
    }
}

/// How one I/O register write relates the old bus to the new.
pub open spec fn io_write_rel(pre: Bus, post: Bus, addr: u16, val: u8) -> bool {
    if addr == 0xFF00 {
        post == (Bus { joypad: (Joypad { p1: val, ..pre.joypad }), ..pre })
    } else if addr == 0xFF01 {
        post == (Bus { serial: (Serial { sb: val, ..pre.serial }), ..pre })
    } else if addr == 0xFF02 {
        post == (Bus { serial: (Serial { sc: val, ..pre.serial }), ..pre })
    } else if 0xFF04 <= addr <= 0xFF07 {
        post == (Bus { timer: timer_after_write(pre.timer, addr, val), ..pre })
    } else if addr == IF_ADDR {
        &&& post.ram@ == pre.ram@.update(IF_ADDR as int, (val % 32) as u8)
        &&& post == (Bus { ram: post.ram, ..pre })
    } else if (0xFF10 <= addr <= 0xFF14) || (0xFF16 <= addr <= 0xFF1E) || (0xFF20 <= addr
        <= 0xFF26) || (0xFF30 <= addr <= 0xFF3F) {
        &&& apu_write_rel(pre.apu, post.apu, addr, val)
        &&& post == (Bus { apu: post.apu, ..pre })
    } else if addr == 0xFF46 {
        dma_rel(pre, post, val)
    } else if (0xFF40 <= addr <= 0xFF45) || (0xFF47 <= addr <= 0xFF4B) {
        &&& reg_write_rel(pre.ppu, post.ppu, addr, val)
        &&& post == (Bus { ppu: post.ppu, ..pre })
    } else {
        post == pre
    }
}

/// Writing IE: only bits 0..4 are kept.
pub open spec fn ie_write_rel(pre: Bus, post: Bus, val: u8) -> bool {
    &&& post.ram@ == pre.ram@.update(IE_ADDR as int, (val % 32) as u8)
    &&& post == (Bus { ram: post.ram, ..pre })
}

/// A 16-bit write is its two byte writes in order, low byte first.
pub open spec fn bus_write16_rel(pre: Bus, post: Bus, addr: u16, val: u16) -> bool {
    exists|mid: Bus|
        #[trigger] bus_write_rel(pre, mid, addr, (val % 256) as u8) && bus_write_rel(
            mid,
            post,
            (((addr + 1) as int) % 0x10000) as u16,
            (val / 256) as u8,
        )
}

/// OAM DMA from `src << 8`: every OAM byte takes the value the bus
/// answered at the source before the copy, and the object cache follows.
pub open spec fn dma_rel(pre: Bus, post: Bus, src: u8) -> bool {
    &&& post.ppu.oam@.len() == pre.ppu.oam@.len()
    &&& forall|i: int|
        0 <= i < 0xA0 ==> #[trigger] post.ppu.oam@[i] == pre.spec_read((src * 256 + i) as u16)
    &&& forall|i: int| 0 <= i < 40 ==> #[trigger] post.ppu.objects@[i] == spec_obj(post.ppu.oam@, i)
    &&& post.ppu == (Ppu { oam: post.ppu.oam, objects: post.ppu.objects, ..pre.ppu })
    &&& post == (Bus { ppu: post.ppu, ..pre })
}

/// How one bus advance relates the old bus to the new: each peripheral
/// steps by its own transition, the interrupt bits it posted land in IF,
/// and its latch clears.
pub open spec fn bus_tick_rel(pre: Bus, post: Bus, cycles: u64) -> bool {
    exists|pp: Ppu|
        {
            &&& #[trigger] ppu_tick_rel(pre.ppu, pp, cycles)
            &&& post.ppu == (Ppu { stat_int: false, vblank_int: false, ..pp })
            &&& post.joypad == (Joypad {
                p1: p1_after(pre.joypad),
                joypad_int: false,
                ..pre.joypad
            })
            &&& post.serial == (Serial {
                sb: final_sb(pre.serial, cycles),
                sc: final_sc(pre.serial, cycles),
                cycles: final_cycles(pre.serial, cycles),
                bit_counter: final_bit_counter(pre.serial, cycles),
                serial_int: false,
            })
            &&& post.timer == (Timer { timer_int: false, ..timer_after(pre.timer, cycles) })
            &&& post.apu == apu_after(pre.apu, cycles, timer_after(pre.timer, cycles).div)
            &&& post.ram@ == pre.ram@.update(IF_ADDR as int, if_after(pre, pp, cycles))
            &&& post.cart == pre.cart
        }
}

/// The IF byte after the joypad, serial and timer have posted their bits.
pub open spec fn if_front(pre: Bus, cycles: u64) -> u8 {
    let f0 = pre.ram@[IF_ADDR as int];
    let f1 = or_bit(f0, 16, pre.joypad.joypad_int || joypad_pressed(pre.joypad));
    let f2 = or_bit(
        f1,
        8,
        pre.serial.serial_int || (serial_shifts(pre.serial, cycles) && pre.serial.bit_counter == 7),
    );
    or_bit(f2, 4, timer_after(pre.timer, cycles).timer_int)
}

/// The IF byte after one bus advance: each peripheral's posted interrupt
/// ORs its bit in, VBlank lowest, joypad highest.
pub open spec fn if_after(pre: Bus, pp: Ppu, cycles: u64) -> u8 {
    or_bit(or_bit(if_front(pre, cycles), 2, pp.stat_int), 1, pp.vblank_int)
}

/// The interrupt registers only ever show their five interrupt bits: any
/// read of IF or IE on a well-formed bus is below 32.
pub proof fn lemma_if_ie_masked(b: Bus)
    requires
        b.wf(),
    ensures
        b.spec_read(IF_ADDR) < 32,
        b.spec_read(IE_ADDR) < 32,
{
}

/// Writing the DMA register copies the bus bytes at `src << 8` into OAM:
/// after the write, every OAM byte equals what the bus answered at its
/// source address before the copy.
pub proof fn lemma_dma_copies(pre: Bus, post: Bus, src: u8, i: int)
    requires
        pre.wf(),
        bus_write_rel(pre, post, 0xFF46, src),
        0 <= i < 0xA0,
    ensures
        post.spec_read((0xFE00 + i) as u16) == pre.spec_read((src * 256 + i) as u16),
{
}

} // verus!
