//! Joypad: eight button booleans snapshotted into the P1 register.
//!
//! P1 exposes one of two four-bit lines, selected active-low by bit 4
//! (directions) or bit 5 (buttons); a selected, pressed button reads as 0.
//! Refreshing the register with any selected button held posts the joypad
//! interrupt.

use vstd::prelude::*;

verus! {

/// Whether P1 selects the button line (bit 5 clear, active low).
pub open spec fn p1_buttons_selected(p1: u8) -> bool {
    (p1 / 32) % 2 == 0
}

/// Whether P1 selects the direction line (bit 4 clear, active low).
pub open spec fn p1_dpad_selected(p1: u8) -> bool {
    (p1 / 16) % 2 == 0
}

/// Button states and the P1 register (0xFF00).
pub struct Joypad {
    pub up: bool,
    pub down: bool,
    pub left: bool,
    pub right: bool,
    pub a: bool,
    pub b: bool,
    pub select: bool,
    pub start: bool,
    pub p1: u8,
    /// Latch set when a selected button is seen pressed; the bus collects
    /// it into IF bit 4 and clears it.
    pub joypad_int: bool,
}

impl Joypad {
    pub fn new() -> (r: Joypad)
        ensures
            r == (Joypad {
                up: false, down: false, left: false, right: false,
                a: false, b: false, select: false, start: false,
                p1: 0xFF, joypad_int: false,
            }),
    {
        Joypad {
            up: false, down: false, left: false, right: false,
            a: false, b: false, select: false, start: false,
            p1: 0xFF, joypad_int: false,
        }
    }

    /// CPU write to P1; only the written byte is stored, the low nibble is
    /// rebuilt on the next tick.
    pub fn write_u8(&mut self, val: u8)
        ensures
            *final(self) == (Joypad { p1: val, ..*old(self) }),
    {
        self.p1 = val;
    }

    /// CPU read of P1.
    pub fn read_u8(&self) -> (r: u8)
        ensures
            r == self.p1,
    {
        self.p1
    }

    /// Rebuild the low nibble of P1 from the selected line (1 = released)
    /// and post the interrupt if any selected button is held.
    pub fn tick(&mut self)
        ensures
            *final(self) == (Joypad {
                p1: p1_after(*old(self)),
                joypad_int: old(self).joypad_int || joypad_pressed(*old(self)),
                ..*old(self)
            }),
    {
        let high: u8 = (self.p1 / 16) * 16;
        if (self.p1 / 32) % 2 == 0 {
            if self.start || self.select || self.b || self.a {
                self.joypad_int = true;
            }
            self.p1 = high
                + (if self.start { 0u8 } else { 8u8 })
                + (if self.select { 0u8 } else { 4u8 })
                + (if self.b { 0u8 } else { 2u8 })
                + (if self.a { 0u8 } else { 1u8 });
        } else if (self.p1 / 16) % 2 == 0 {
            if self.down || self.up || self.left || self.right {
                self.joypad_int = true;
            }
            self.p1 = high
                + (if self.down { 0u8 } else { 8u8 })
                + (if self.up { 0u8 } else { 4u8 })
                + (if self.left { 0u8 } else { 2u8 })
                + (if self.right { 0u8 } else { 1u8 });
        } else {
            self.p1 = high + 15;
        }
    }
}

/// The P1 value after a tick: high nibble kept, low nibble rebuilt from the
/// selected line, released buttons reading 1.
pub open spec fn p1_after(j: Joypad) -> u8 {
    let high = (j.p1 / 16) * 16;
    if p1_buttons_selected(j.p1) {
        (high + (if j.start { 0int } else { 8int }) + (if j.select { 0int } else { 4int })
            + (if j.b { 0int } else { 2int }) + (if j.a { 0int } else { 1int })) as u8
    } else if p1_dpad_selected(j.p1) {
        (high + (if j.down { 0int } else { 8int }) + (if j.up { 0int } else { 4int })
            + (if j.left { 0int } else { 2int }) + (if j.right { 0int } else { 1int })) as u8
    } else {
        (high + 15) as u8
    }
}

/// Whether any button of the selected line is held.
pub open spec fn joypad_pressed(j: Joypad) -> bool {
    if p1_buttons_selected(j.p1) {
        j.start || j.select || j.b || j.a
    } else if p1_dpad_selected(j.p1) {
        j.down || j.up || j.left || j.right
    } else {
        false
    }
}

} // verus!
