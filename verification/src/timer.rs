//! The programmable timer: the free-running DIV divider and the TIMA
//! counter with its selectable period, reload value TMA and control TAC.
//!
//! DIV is the upper byte of a 16-bit counter and so increments once every
//! 256 T-cycles. TIMA, when TAC bit 2 is set, increments once every
//! `tac_period(TAC)` T-cycles; an increment from 0xFF reloads TMA and posts
//! the timer interrupt.

use vstd::prelude::*;

verus! {

/// TIMA period in T-cycles selected by TAC bits 0..1.
pub open spec fn tac_period(tac: u8) -> u64 {
    if tac % 4 == 0 {
        1024
    } else if tac % 4 == 1 {
        16
    } else if tac % 4 == 2 {
        64
    } else {
        256
    }
}

/// Whether TAC bit 2 (TIMA enable) is set.
pub open spec fn tac_enabled(tac: u8) -> bool {
    (tac / 4) % 2 == 1
}

/// One TIMA increment: 0xFF reloads TMA, anything else counts up.
pub open spec fn tima_step(tima: u8, tma: u8) -> u8 {
    if tima == 0xFF {
        tma
    } else {
        (tima + 1) as u8
    }
}

/// TIMA after `n` increments from `tima` with reload value `tma`.
pub open spec fn tima_after(tima: u8, tma: u8, n: nat) -> u8
    decreases n,
{
    if n == 0 {
        tima
    } else {
        tima_after(tima_step(tima, tma), tma, (n - 1) as nat)
    }
}

/// Whether any of `n` increments from `tima` overflows (starts at 0xFF).
pub open spec fn tima_overflows(tima: u8, tma: u8, n: nat) -> bool
    decreases n,
{
    n > 0 && (tima == 0xFF || tima_overflows(tima_step(tima, tma), tma, (n - 1) as nat))
}

/// Run TIMA over an elapsed-cycle budget: consume `period` cycles per
/// increment until fewer than `period` remain. Returns the final TIMA, the
/// leftover cycle count, and whether any increment overflowed.
pub open spec fn tima_run(tima: u8, tma: u8, state: u64, period: u64) -> (u8, u64, bool)
    decreases state,
{
    if period == 0 || state < period {
        (tima, state, false)
    } else {
        let rest = tima_run(tima_step(tima, tma), tma, (state - period) as u64, period);
        (rest.0, rest.1, tima == 0xFF || rest.2)
    }
}

/// DIV counter and TIMA with selectable increment rate. `div_state` and
/// `tima_state` hold the T-cycles not yet converted into increments.
pub struct Timer {
    pub div: u8,
    pub tima: u8,
    pub tma: u8,
    pub tac: u8,
    /// Latch set when a TIMA increment overflowed; the bus collects it into
    /// IF bit 2 and clears it.
    pub timer_int: bool,
    pub tima_state: u64,
    pub div_state: u64,
}

impl Timer {
    /// Residual cycle counts stay below one full increment.
    pub open spec fn wf(self) -> bool {
        self.div_state < 256 && self.tima_state < 1024
    }

    pub fn new() -> (r: Timer)
        ensures
            r == (Timer {
                div: 0, tima: 0, tma: 0, tac: 0,
                timer_int: false, tima_state: 0, div_state: 0,
            }),
            r.wf(),
    {
        Timer { div: 0, tima: 0, tma: 0, tac: 0, timer_int: false, tima_state: 0, div_state: 0 }
    }

    /// Advance the timer by `cycles` T-cycles: DIV gains one per 256 cycles
    /// elapsed, and TIMA, if enabled, one per `tac_period(TAC)`, reloading
    /// from TMA and latching the interrupt on overflow.
    pub fn tick(&mut self, cycles: u64)
        requires
            old(self).wf(),
            cycles <= 0xFFFF_FFFF_FFFF_F000,
        ensures
            final(self).wf(),
            final(self).div == ((old(self).div + (old(self).div_state + cycles) / 256) % 256) as u8,
            final(self).div_state == (old(self).div_state + cycles) % 256,
            final(self).tma == old(self).tma,
            final(self).tac == old(self).tac,
            tac_enabled(old(self).tac) ==> {
                let run = tima_run(
                    old(self).tima,
                    old(self).tma,
                    (old(self).tima_state + cycles) as u64,
                    tac_period(old(self).tac),
                );
                &&& final(self).tima == run.0
                &&& final(self).tima_state == run.1
                &&& final(self).timer_int == (old(self).timer_int || run.2)
            },
            !tac_enabled(old(self).tac) ==> {
                &&& final(self).tima == old(self).tima
                &&& final(self).tima_state == old(self).tima_state
                &&& final(self).timer_int == old(self).timer_int
            },
    {
        // DIV: closed form, one increment per 256 cycles.
        self.div_state = self.div_state + cycles;
        let n: u64 = self.div_state / 256;
        self.div = ((self.div as u64 + n) % 256) as u8;
        self.div_state = self.div_state % 256;

        // TIMA: consume whole periods one increment at a time.
        if (self.tac / 4) % 2 == 1 {
            let inc: u64 = tac_period_of(self.tac);
            self.tima_state = self.tima_state + cycles;
            let ghost t0 = self.tima;
            let ghost s0 = self.tima_state;
            let ghost int0 = self.timer_int;
            while self.tima_state >= inc
                invariant
                    inc == tac_period(self.tac),
                    inc <= 1024,
                    self.tma == old(self).tma,
                    self.tac == old(self).tac,
                    self.div == ((old(self).div + (old(self).div_state + cycles) / 256) % 256) as u8,
                    self.div_state == (old(self).div_state + cycles) % 256,
                    t0 == old(self).tima,
                    s0 == old(self).tima_state + cycles,
                    int0 == old(self).timer_int,
                    tima_run(self.tima, self.tma, self.tima_state, inc).0
                        == tima_run(t0, self.tma, s0, inc).0,
                    tima_run(self.tima, self.tma, self.tima_state, inc).1
                        == tima_run(t0, self.tma, s0, inc).1,
                    (self.timer_int
                        || tima_run(self.tima, self.tma, self.tima_state, inc).2)
                        == (int0 || tima_run(t0, self.tma, s0, inc).2),
                decreases self.tima_state,
            {
                self.tima_state = self.tima_state - inc;
                if self.tima == 0xFF {
                    self.tima = self.tma;
                    self.timer_int = true;
                } else {
                    self.tima = self.tima + 1;
                }
            }
        }
    }

    /// Read one of the four timer registers, DIV at 0xFF04 through TAC at
    /// 0xFF07.
    pub fn read_u8(&self, addr: u16) -> (r: u8)
        requires
            0xFF04 <= addr <= 0xFF07,
        ensures
            addr == 0xFF04 ==> r == self.div,
            addr == 0xFF05 ==> r == self.tima,
            addr == 0xFF06 ==> r == self.tma,
            addr == 0xFF07 ==> r == self.tac,
    {
        match addr {
            0xFF04 => self.div,
            0xFF05 => self.tima,
            0xFF06 => self.tma,
            _ => self.tac,
        }
    }

    /// Write one of the four timer registers; a write to DIV clears the
    /// whole underlying divider counter, whatever the value written.
    pub fn write_u8(&mut self, addr: u16, val: u8)
        requires
            0xFF04 <= addr <= 0xFF07,
        ensures
            old(self).wf() ==> final(self).wf(),
            addr == 0xFF04 ==> *final(self) == (Timer {
                div: 0,
                div_state: 0,
                ..*old(self)
            }),
            addr == 0xFF05 ==> *final(self) == (Timer { tima: val, ..*old(self) }),
            addr == 0xFF06 ==> *final(self) == (Timer { tma: val, ..*old(self) }),
            addr == 0xFF07 ==> *final(self) == (Timer { tac: val, ..*old(self) }),
    {
        match addr {
            0xFF04 => {
                self.div = 0;
                self.div_state = 0;
            },
            0xFF05 => self.tima = val,
            0xFF06 => self.tma = val,
            _ => self.tac = val,
        }
    }

    /// Clear the divider counter (the STOP instruction does this).
    pub fn reset_divider(&mut self)
        ensures
            *final(self) == (Timer { div: 0, div_state: 0, ..*old(self) }),
    {
        self.div = 0;
        self.div_state = 0;
    }
}

/// TIMA period in T-cycles selected by TAC bits 0..1.
pub fn tac_period_of(tac: u8) -> (r: u64)
    ensures
        r == tac_period(tac),
{
    match tac % 4 {
        0 => 1024,
        1 => 16,
        2 => 64,
        _ => 256,
    }
}

/// A full period elapsing makes TIMA count: over any budget, TIMA advances
/// by exactly one increment per whole period contained in the budget.
pub proof fn lemma_tima_increment_count(tima: u8, tma: u8, state: u64, period: u64)
    requires
        period > 0,
    ensures
        tima_run(tima, tma, state, period).0 == tima_after(tima, tma, (state / period) as nat),
        tima_run(tima, tma, state, period).1 == state % period,
        tima_run(tima, tma, state, period).2 == tima_overflows(tima, tma, (state / period) as nat),
    decreases state,
{
    if state < period {
        assert(state / period == 0) by (nonlinear_arith)
            requires 0 <= state < period;
        assert(state % period == state) by (nonlinear_arith)
            requires 0 <= state < period;
    } else {
        lemma_tima_increment_count(tima_step(tima, tma), tma, (state - period) as u64, period);
        assert((state - period) as u64 / period == state / period - 1
            && (state - period) as u64 % period == state % period
            && state / period >= 1) by (nonlinear_arith)
            requires period > 0 && state >= period;
    }
}


/// The timer after an advance of `cycles` T-cycles.
pub open spec fn timer_after(t: Timer, cycles: u64) -> Timer {
    let run = tima_run(t.tima, t.tma, (t.tima_state + cycles) as u64, tac_period(t.tac));
    Timer {
        div: ((t.div + (t.div_state + cycles) / 256) % 256) as u8,
        div_state: ((t.div_state + cycles) % 256) as u64,
        tima: if tac_enabled(t.tac) { run.0 } else { t.tima },
        tima_state: if tac_enabled(t.tac) { run.1 } else { t.tima_state },
        timer_int: t.timer_int || (tac_enabled(t.tac) && run.2),
        ..t
    }
}

/// The timer after a register write; DIV writes clear the whole divider.
pub open spec fn timer_after_write(t: Timer, addr: u16, val: u8) -> Timer {
    if addr == 0xFF04 {
        Timer { div: 0, div_state: 0, ..t }
    } else if addr == 0xFF05 {
        Timer { tima: val, ..t }
    } else if addr == 0xFF06 {
        Timer { tma: val, ..t }
    } else {
        Timer { tac: val, ..t }
    }
}

} // verus!
