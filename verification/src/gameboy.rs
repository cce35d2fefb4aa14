//! The console: owns the CPU (which owns the bus and peripherals), runs
//! whole frames and exposes the button and frame interface to the host.

use vstd::prelude::*;

use crate::cpu::Cpu;
use crate::cpu::cpu_tick_rel;
use crate::joypad::Joypad;
use crate::mbc::Cartridge;
use crate::mbc::Mbc;
use crate::ppu::Color;

verus! {

/// T-cycles per second of the machine clock.
pub const CLOCK_SPEED: u64 = 4194300;
/// T-cycles per displayed frame (sixty frames per second).
pub const CYCLES_PER_FRAME: u64 = 69905;

/// One of the eight buttons.
#[derive(Debug, Clone, Copy, PartialEq, Eq, Structural)]
pub enum GbBtn {
    Up,
    Down,
    Left,
    Right,
    A,
    B,
    Select,
    Start,
}

/// Total T-cycles of a sequence of per-tick cycle counts.
pub open spec fn sum_cycles(cs: Seq<u64>) -> int
    decreases cs.len(),
{
    if cs.len() == 0 {
        0
    } else {
        sum_cycles(cs.drop_last()) + cs.last()
    }
}

/// The whole console.
pub struct Gameboy {
    pub cpu: Cpu,
    /// T-cycles accrued toward the current frame; the overshoot of one
    /// frame carries into the next.
    pub cycles: u64,
}

/// One whole frame run as a chain of CPU ticks: `tr` is the trace of CPU
/// states and `cs` the cycle count of each tick. The run crosses the
/// frame's cycle budget exactly on its last tick, and the overshoot stays
/// in the counter.
pub open spec fn frame_run_rel(pre: Gameboy, post: Gameboy, tr: Seq<Cpu>, cs: Seq<u64>) -> bool {
    &&& tr.len() == cs.len() + 1
    &&& cs.len() >= 1
    &&& tr[0] == pre.cpu
    &&& tr[tr.len() - 1] == post.cpu
    &&& forall|i: int| 0 <= i < cs.len() ==> #[trigger] cpu_tick_rel(tr[i], tr[i + 1], cs[i])
    &&& pre.cycles + sum_cycles(cs) >= CYCLES_PER_FRAME
    &&& pre.cycles + sum_cycles(cs.drop_last()) < CYCLES_PER_FRAME
    &&& post.cycles == pre.cycles + sum_cycles(cs) - CYCLES_PER_FRAME
}

impl Gameboy {
    pub open spec fn wf(self) -> bool {
        self.cpu.wf() && self.cycles < CYCLES_PER_FRAME
    }

    /// A console around a cartridge, in the post-boot state.
    pub fn new(cart: Cartridge) -> (r: Gameboy)
        requires
            cart.inv(),
        ensures
            r.wf(),
            r.cycles == 0,
            r.cpu.bus.cart == cart,
            r.cpu.rf.a == 0x01 && r.cpu.rf.b == 0x00 && r.cpu.rf.c == 0x13 && r.cpu.rf.d == 0x00
                && r.cpu.rf.e == 0xD8 && r.cpu.rf.h == 0x01 && r.cpu.rf.l == 0x4D,
            r.cpu.rf.zf && !r.cpu.rf.nf && r.cpu.rf.hf && r.cpu.rf.cf,
            r.cpu.rf.spec_af() == 0x01B0,
            r.cpu.rf.pc == 0x0100 && r.cpu.rf.sp == 0xFFFE,
            r.cpu.bus.timer.div == 0xAB && r.cpu.bus.timer.tima == 0 && r.cpu.bus.timer.tma == 0
                && r.cpu.bus.timer.tac == 0xF8,
            !r.cpu.ime && !r.cpu.pending_ime && !r.cpu.halted,
    {
        let mut cpu = Cpu::new(cart);
        cpu.simulate_boot();
        Gameboy { cpu, cycles: 0 }
    }

    /// Run until at least one frame's worth of T-cycles has accrued; the
    /// overshoot carries into the next frame. Every step is one CPU tick
    /// followed by the bus advance it implies.
    pub fn run_frame(&mut self)
        requires
            old(self).wf(),
        ensures
            final(self).wf(),
            exists|tr: Seq<Cpu>, cs: Seq<u64>|
                #[trigger] frame_run_rel(*old(self), *final(self), tr, cs),
    {
        let ghost mut tr: Seq<Cpu> = seq![self.cpu];
        let ghost mut cs: Seq<u64> = Seq::empty();
        while self.cycles < CYCLES_PER_FRAME
            invariant
                self.cpu.wf(),
                self.cycles < CYCLES_PER_FRAME + 44,
                old(self).cycles < CYCLES_PER_FRAME,
                tr.len() == cs.len() + 1,
                tr[0] == old(self).cpu,
                tr[tr.len() - 1] == self.cpu,
                forall|i: int| 0 <= i < cs.len() ==> #[trigger] cpu_tick_rel(tr[i], tr[i + 1], cs[i]),
                self.cycles as int == old(self).cycles + sum_cycles(cs),
                cs.len() > 0 ==> old(self).cycles + sum_cycles(cs.drop_last()) < CYCLES_PER_FRAME,
            decreases CYCLES_PER_FRAME + 44 - self.cycles,
        {
            let c = self.cpu.tick();
            proof {
                tr = tr.push(self.cpu);
                assert(cs.push(c).drop_last() =~= cs);
                cs = cs.push(c);
            }
            self.cycles = self.cycles + c;
        }
        self.cycles = self.cycles - CYCLES_PER_FRAME;
        proof {
            assert(frame_run_rel(*old(self), *self, tr, cs));
        }
    }

    /// Press or release one button.
    #[verifier::rlimit(100)]
    pub fn set_button(&mut self, button: GbBtn, down: bool)
        ensures
            final(self).cpu.bus.joypad == (match button {
                GbBtn::Up => Joypad { up: down, ..old(self).cpu.bus.joypad },
                GbBtn::Down => Joypad { down: down, ..old(self).cpu.bus.joypad },
                GbBtn::Left => Joypad { left: down, ..old(self).cpu.bus.joypad },
                GbBtn::Right => Joypad { right: down, ..old(self).cpu.bus.joypad },
                GbBtn::A => Joypad { a: down, ..old(self).cpu.bus.joypad },
                GbBtn::B => Joypad { b: down, ..old(self).cpu.bus.joypad },
                GbBtn::Select => Joypad { select: down, ..old(self).cpu.bus.joypad },
                GbBtn::Start => Joypad { start: down, ..old(self).cpu.bus.joypad },
            }),
            final(self).cpu.bus == (crate::bus::Bus {
                joypad: final(self).cpu.bus.joypad,
                ..old(self).cpu.bus
            }),
            *final(self) == (Gameboy {
                cpu: (Cpu { bus: final(self).cpu.bus, ..old(self).cpu }),
                ..*old(self)
            }),
            old(self).wf() ==> final(self).wf(),
    {
        match button {
            GbBtn::Up => self.cpu.bus.joypad.up = down,
            GbBtn::Down => self.cpu.bus.joypad.down = down,
            GbBtn::Left => self.cpu.bus.joypad.left = down,
            GbBtn::Right => self.cpu.bus.joypad.right = down,
            GbBtn::A => self.cpu.bus.joypad.a = down,
            GbBtn::B => self.cpu.bus.joypad.b = down,
            GbBtn::Select => self.cpu.bus.joypad.select = down,
            GbBtn::Start => self.cpu.bus.joypad.start = down,
        }
    }

    /// Borrow the active frame: 144 rows of 160 pixels, row-major.
    pub fn get_frame(&self) -> (r: &Vec<Color>)
        ensures
            r == &self.cpu.bus.ppu.frame,
    {
        &self.cpu.bus.ppu.frame
    }

    /// Whether the cartridge keeps its RAM across power cycles.
    pub fn has_battery(&self) -> (r: bool)
        ensures
            r == self.cpu.bus.cart.spec_battery(),
    {
        self.cpu.bus.cart.has_battery()
    }

    /// Copy the external RAM out for save persistence.
    pub fn dump_ram(&self) -> (r: Vec<u8>)
        requires
            self.wf(),
        ensures
            r@ == self.cpu.bus.cart.spec_ram(),
    {
        self.cpu.bus.cart.dump_ram()
    }
}

} // verus!
