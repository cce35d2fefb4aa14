//! Pixel-processing unit: VRAM, OAM, the derived tile and object caches,
//! two framebuffers and the four-mode scanline state machine.
//!
//! Per scanline the PPU spends 80 T-cycles scanning OAM, 172 drawing and
//! 204 in horizontal blank, 456 in all; vertical blank covers lines 144 to
//! 153 at 456 T-cycles each, giving 154 lines per frame. The tileset and
//! object caches always equal the decoded projection of VRAM and OAM; the
//! invariant is re-established by every write hook.

use vstd::prelude::*;

use crate::util::bit;
use crate::render::enter_hblank_rel;

verus! {

pub const SCREEN_WIDTH: usize = 160;
pub const SCREEN_HEIGHT: usize = 144;
/// T-cycles of the OAM-scan mode.
pub const OAMSCAN_CYCLES: u64 = 80;
/// T-cycles of the drawing mode (fixed in this core).
pub const DRAW_CYCLES: u64 = 172;
/// T-cycles of the horizontal-blank mode.
pub const HBLANK_CYCLES: u64 = 204;
/// T-cycles of one whole scanline.
pub const LINE_CYCLES: u64 = 456;

/// The four PPU modes, numbered 0 to 3 in the STAT register.
#[derive(Debug, Clone, Copy, PartialEq, Eq, Structural)]
pub enum PpuState {
    HBlank,
    VBlank,
    OAMScan,
    Draw,
}

/// One of the four shades the monochrome panel can show.
#[derive(Debug, Clone, Copy, PartialEq, Eq, Structural)]
pub enum Color {
    White,
    LightGrey,
    DarkGrey,
    Black,
}

/// A 2-bit tile pixel before palette translation.
#[derive(Debug, Clone, Copy, PartialEq, Eq, Structural)]
pub enum TilePixel {
    Zero,
    One,
    Two,
    Three,
}

/// One parsed OAM slot: position, tile index and attribute flags.
#[derive(Debug, Clone, Copy, PartialEq, Eq, Structural)]
pub struct ObjAttr {
    pub y: u8,
    pub x: u8,
    pub tile: u8,
    pub flags: u8,
}

/// The STAT mode number of a machine state.
pub open spec fn mode_number(s: PpuState) -> u8 {
    match s {
        PpuState::HBlank => 0,
        PpuState::VBlank => 1,
        PpuState::OAMScan => 2,
        PpuState::Draw => 3,
    }
}

/// STAT with its mode bits (1..0) replaced.
pub open spec fn stat_with_mode(stat: u8, m: u8) -> u8 {
    ((stat / 4) * 4 + m) as u8
}

/// STAT with its coincidence bit (2) replaced.
pub open spec fn stat_with_coincidence(stat: u8, b: bool) -> u8 {
    ((stat / 8) * 8 + (if b { 4int } else { 0int }) + stat % 4) as u8
}

/// The pixel decoded from one bit of each of a tile row's two bytes.
pub open spec fn decode_px(lsb: bool, msb: bool) -> TilePixel {
    if !msb && !lsb {
        TilePixel::Zero
    } else if !msb {
        TilePixel::One
    } else if !lsb {
        TilePixel::Two
    } else {
        TilePixel::Three
    }
}

/// The single-bit mask selecting bit `k` of a byte.
pub open spec fn mask_of(k: int) -> u8 {
    if k == 0 {
        1
    } else if k == 1 {
        2
    } else if k == 2 {
        4
    } else if k == 3 {
        8
    } else if k == 4 {
        16
    } else if k == 5 {
        32
    } else if k == 6 {
        64
    } else {
        128
    }
}

/// Pixel (row `r`, column `c`, most significant bit first) of tile `t` as
/// decoded from the tile-data region of VRAM.
pub open spec fn spec_tile_pixel(vram: Seq<u8>, t: int, r: int, c: int) -> TilePixel {
    decode_px(
        bit(vram[t * 16 + 2 * r], mask_of(7 - c)),
        bit(vram[t * 16 + 2 * r + 1], mask_of(7 - c)),
    )
}

/// The object parsed from OAM slot `i`.
pub open spec fn spec_obj(oam: Seq<u8>, i: int) -> ObjAttr {
    ObjAttr { y: oam[i * 4], x: oam[i * 4 + 1], tile: oam[i * 4 + 2], flags: oam[i * 4 + 3] }
}

/// Translate a 2-bit pixel through a palette byte: each pair of palette
/// bits names one of the four shades.
pub open spec fn spec_pixel_color(px: TilePixel, palette: u8) -> Color {
    let sel = match px {
        TilePixel::Zero => palette % 4,
        TilePixel::One => (palette / 4) % 4,
        TilePixel::Two => (palette / 16) % 4,
        TilePixel::Three => (palette / 64) % 4,
    };
    if sel == 0 {
        Color::White
    } else if sel == 1 {
        Color::LightGrey
    } else if sel == 2 {
        Color::DarkGrey
    } else {
        Color::Black
    }
}

/// Translate a 2-bit pixel through a palette byte.
pub fn pixel_to_color(pixel: TilePixel, palette: u8) -> (r: Color)
    ensures
        r == spec_pixel_color(pixel, palette),
{
    let sel = match pixel {
        TilePixel::Zero => palette % 4,
        TilePixel::One => (palette / 4) % 4,
        TilePixel::Two => (palette / 16) % 4,
        TilePixel::Three => (palette / 64) % 4,
    };
    match sel {
        0 => Color::White,
        1 => Color::LightGrey,
        2 => Color::DarkGrey,
        _ => Color::Black,
    }
}

/// The pixel-processing unit.
pub struct Ppu {
    pub state: PpuState,
    pub vram: Vec<u8>,
    /// Decoded tile cache: 384 tiles of 8x8 pixels, row-major.
    pub tileset: Vec<TilePixel>,
    pub oam: Vec<u8>,
    /// Parsed OAM cache: one entry per sprite slot.
    pub objects: Vec<ObjAttr>,
    /// The frame shown to the host, swapped in at each vertical blank.
    pub frame: Vec<Color>,
    /// The frame being composited, one scanline at a time.
    pub frame_buffer: Vec<Color>,
    /// T-cycles accumulated inside the current mode.
    pub cycles: u64,
    /// Latch set when a STAT condition fires; the bus collects it into IF
    /// bit 1 and clears it.
    pub stat_int: bool,
    /// Latch set on entering vertical blank; the bus collects it into IF
    /// bit 0 and clears it.
    pub vblank_int: bool,
    pub lcdc: u8,
    pub stat: u8,
    pub scy: u8,
    pub scx: u8,
    pub ly: u8,
    pub lyc: u8,
    pub bgp: u8,
    pub obp0: u8,
    pub obp1: u8,
    pub wy: u8,
    pub wx: u8,
    /// Window line counter: which window row the next window pixel uses.
    pub wly: u8,
}

impl Ppu {
    /// Memory sizes, cache consistency and the mode-relative bounds on the
    /// cycle counter, LY and WLY.
    pub open spec fn wf(self) -> bool {
        &&& self.vram@.len() == 0x2000
        &&& self.tileset@.len() == 384 * 64
        &&& self.oam@.len() == 0xA0
        &&& self.objects@.len() == 40
        &&& self.frame@.len() == 160 * 144
        &&& self.frame_buffer@.len() == 160 * 144
        &&& forall|t: int, r: int, c: int|
            0 <= t < 384 && 0 <= r < 8 && 0 <= c < 8 ==> #[trigger] self.tileset@[t * 64 + r * 8
                + c] == spec_tile_pixel(self.vram@, t, r, c)
        &&& forall|i: int| 0 <= i < 40 ==> #[trigger] self.objects@[i] == spec_obj(self.oam@, i)
        &&& match self.state {
            PpuState::OAMScan => self.cycles < OAMSCAN_CYCLES && self.ly < 144 && self.wly
                <= self.ly,
            PpuState::Draw => self.cycles < DRAW_CYCLES && self.ly < 144 && self.wly <= self.ly,
            PpuState::HBlank => self.cycles < HBLANK_CYCLES && self.ly < 144 && self.wly <= self.ly
                + 1,
            PpuState::VBlank => self.cycles < LINE_CYCLES && 144 <= self.ly <= 153 && self.wly
                <= 144,
        }
    }

    /// Post-reset PPU: LCD on, caches empty, both frames white.
    pub fn new() -> (r: Ppu)
        ensures
            r.wf(),
            r.state == PpuState::OAMScan,
            r.cycles == 0 && r.ly == 0 && r.lyc == 0 && r.wly == 0,
            r.lcdc == 0xA3 && r.stat == 0,
            r.scy == 0 && r.scx == 0 && r.bgp == 0 && r.obp0 == 0 && r.obp1 == 0,
            r.wy == 0 && r.wx == 0,
            !r.stat_int && !r.vblank_int,
            forall|i: int| 0 <= i < r.vram@.len() ==> r.vram@[i] == 0,
            forall|i: int| 0 <= i < r.oam@.len() ==> r.oam@[i] == 0,
            forall|i: int| 0 <= i < r.frame@.len() ==> r.frame@[i] == Color::White,
            forall|i: int| 0 <= i < r.frame_buffer@.len() ==> r.frame_buffer@[i] == Color::White,
    {
        let vram = crate::util::zero_vec(0x2000);
        let oam = crate::util::zero_vec(0xA0);
        let tileset = fill_px(384 * 64, TilePixel::Zero);
        let objects = fill_obj(40, ObjAttr { y: 0, x: 0, tile: 0, flags: 0 });
        let frame = fill_color(160 * 144, Color::White);
        let frame_buffer = fill_color(160 * 144, Color::White);
        let r = Ppu {
            state: PpuState::OAMScan,
            vram,
            tileset,
            oam,
            objects,
            frame,
            frame_buffer,
            cycles: 0,
            stat_int: false,
            vblank_int: false,
            lcdc: 0xA3,
            stat: 0,
            scy: 0,
            scx: 0,
            ly: 0,
            lyc: 0,
            bgp: 0,
            obp0: 0,
            obp1: 0,
            wy: 0,
            wx: 0,
            wly: 0,
        };
        proof {
            assert forall|t: int, r_: int, c: int|
                0 <= t < 384 && 0 <= r_ < 8 && 0 <= c < 8 implies #[trigger] r.tileset@[t * 64 + r_
                * 8 + c] == spec_tile_pixel(r.vram@, t, r_, c) by {
                assert(0 <= t * 64 + r_ * 8 + c < 384 * 64) by (nonlinear_arith)
                    requires
                        0 <= t < 384 && 0 <= r_ < 8 && 0 <= c < 8,
                ;
                assert(0 <= t * 16 + 2 * r_ && t * 16 + 2 * r_ + 1 < 0x2000) by (nonlinear_arith)
                    requires
                        0 <= t < 384 && 0 <= r_ < 8,
                ;
            }
        }
        r
    }

    /// The byte read back at a PPU address: VRAM, OAM or a register.
    pub open spec fn spec_read(self, addr: u16) -> u8 {
        if 0x8000 <= addr < 0xA000 {
            self.vram@[addr - 0x8000]
        } else if 0xFE00 <= addr < 0xFEA0 {
            self.oam@[addr - 0xFE00]
        } else if addr == 0xFF40 {
            self.lcdc
        } else if addr == 0xFF41 {
            self.stat
        } else if addr == 0xFF42 {
            self.scy
        } else if addr == 0xFF43 {
            self.scx
        } else if addr == 0xFF44 {
            self.ly
        } else if addr == 0xFF45 {
            self.lyc
        } else if addr == 0xFF47 {
            self.bgp
        } else if addr == 0xFF48 {
            self.obp0
        } else if addr == 0xFF49 {
            self.obp1
        } else if addr == 0xFF4A {
            self.wy
        } else {
            self.wx
        }
    }

    /// Read a byte from VRAM, OAM or a PPU register.
    pub fn read_u8(&self, addr: u16) -> (r: u8)
        requires
            self.wf(),
            (0x8000 <= addr < 0xA000) || (0xFE00 <= addr < 0xFEA0) || (0xFF40 <= addr <= 0xFF45)
                || (0xFF47 <= addr <= 0xFF4B),
        ensures
            r == self.spec_read(addr),
    {
        if 0x8000 <= addr && addr < 0xA000 {
            self.vram[(addr - 0x8000) as usize]
        } else if 0xFE00 <= addr && addr < 0xFEA0 {
            self.oam[(addr - 0xFE00) as usize]
        } else if addr == 0xFF40 {
            self.lcdc
        } else if addr == 0xFF41 {
            self.stat
        } else if addr == 0xFF42 {
            self.scy
        } else if addr == 0xFF43 {
            self.scx
        } else if addr == 0xFF44 {
            self.ly
        } else if addr == 0xFF45 {
            self.lyc
        } else if addr == 0xFF47 {
            self.bgp
        } else if addr == 0xFF48 {
            self.obp0
        } else if addr == 0xFF49 {
            self.obp1
        } else if addr == 0xFF4A {
            self.wy
        } else {
            self.wx
        }
    }

    /// LY updated together with the coincidence bit and its STAT source.
    pub open spec fn with_ly(self, v: u8) -> Ppu {
        let c = v == self.lyc;
        Ppu {
            ly: v,
            stat: stat_with_coincidence(self.stat, c),
            stat_int: self.stat_int || (c && bit(self.stat, 64)),
            ..self
        }
    }

    /// LYC updated together with the coincidence bit and its STAT source.
    pub open spec fn with_lyc(self, v: u8) -> Ppu {
        let c = self.ly == v;
        Ppu {
            lyc: v,
            stat: stat_with_coincidence(self.stat, c),
            stat_int: self.stat_int || (c && bit(self.stat, 64)),
            ..self
        }
    }

    /// Set LY, refresh the coincidence bit, and raise the STAT latch if
    /// the coincidence interrupt source is enabled.
    fn set_ly(&mut self, val: u8)
        ensures
            *final(self) == old(self).with_ly(val),
    {
        let src = (self.stat / 64) % 2 == 1;
        self.ly = val;
        let c = self.ly == self.lyc;
        self.stat = (self.stat / 8) * 8 + (if c { 4 } else { 0 }) + self.stat % 4;
        if c && src {
            self.stat_int = true;
        }
    }

    /// Set LYC, refresh the coincidence bit, and raise the STAT latch if
    /// the coincidence interrupt source is enabled.
    fn set_lyc(&mut self, val: u8)
        ensures
            *final(self) == old(self).with_lyc(val),
    {
        let src = (self.stat / 64) % 2 == 1;
        self.lyc = val;
        let c = self.ly == self.lyc;
        self.stat = (self.stat / 8) * 8 + (if c { 4 } else { 0 }) + self.stat % 4;
        if c && src {
            self.stat_int = true;
        }
    }
}

/// LCDC bit 7: LCD and PPU enable.
pub open spec fn lcdc_lcd_enable(l: u8) -> bool {
    bit(l, 128)
}

/// LCDC bit 6: window tilemap select (set picks 0x9C00).
pub open spec fn lcdc_window_tilemap(l: u8) -> bool {
    bit(l, 64)
}

/// LCDC bit 5: window enable.
pub open spec fn lcdc_window_enable(l: u8) -> bool {
    bit(l, 32)
}

/// LCDC bit 4: tile addressing (set picks the unsigned 0x8000 method).
pub open spec fn lcdc_bg_window_tiles(l: u8) -> bool {
    bit(l, 16)
}

/// LCDC bit 3: background tilemap select (set picks 0x9C00).
pub open spec fn lcdc_bg_tilemap(l: u8) -> bool {
    bit(l, 8)
}

/// LCDC bit 2: object height (set is 8x16).
pub open spec fn lcdc_obj_size(l: u8) -> bool {
    bit(l, 4)
}

/// LCDC bit 1: object enable.
pub open spec fn lcdc_obj_enable(l: u8) -> bool {
    bit(l, 2)
}

/// LCDC bit 0: background and window enable.
pub open spec fn lcdc_bg_window_enable(l: u8) -> bool {
    bit(l, 1)
}

/// The PPU entering OAM scan: mode 2, with its STAT source.
pub open spec fn enter_oamscan(p: Ppu) -> Ppu {
    Ppu {
        state: PpuState::OAMScan,
        stat: stat_with_mode(p.stat, 2),
        stat_int: p.stat_int || bit(p.stat, 32),
        ..p
    }
}

/// The PPU entering the drawing mode: mode 3, no STAT source.
pub open spec fn enter_draw(p: Ppu) -> Ppu {
    Ppu { state: PpuState::Draw, stat: stat_with_mode(p.stat, 3), ..p }
}

/// The PPU entering vertical blank: the back buffer becomes the shown
/// frame, the new back buffer is cleared to white, the VBlank interrupt is
/// raised unconditionally and STAT fires if its mode-1 source is enabled.
pub open spec fn enter_vblank_rel(pre: Ppu, post: Ppu) -> bool {
    &&& post.frame_buffer@.len() == pre.frame_buffer@.len()
    &&& forall|k: int| 0 <= k < post.frame_buffer@.len() ==> post.frame_buffer@[k] == Color::White
    &&& post == (Ppu {
        frame: pre.frame_buffer,
        frame_buffer: post.frame_buffer,
        state: PpuState::VBlank,
        stat: stat_with_mode(pre.stat, 1),
        vblank_int: true,
        stat_int: pre.stat_int || bit(pre.stat, 16),
        ..pre
    })
}

/// How one PPU advance by `c` T-cycles relates the old state to the new.
/// With the LCD disabled the STAT mode is forced to 0 and nothing else
/// moves; otherwise the cycle counter accumulates and at most one mode
/// transition fires.
#[verifier::opaque]
pub open spec fn ppu_tick_rel(pre: Ppu, post: Ppu, c: u64) -> bool {
    if !lcdc_lcd_enable(pre.lcdc) {
        post == (Ppu { stat: stat_with_mode(pre.stat, 0), ..pre })
    } else {
        let acc = Ppu { cycles: (pre.cycles + c) as u64, ..pre };
        match pre.state {
            PpuState::OAMScan => if acc.cycles < OAMSCAN_CYCLES {
                post == acc
            } else {
                post == enter_draw(
                    Ppu { cycles: (acc.cycles - OAMSCAN_CYCLES) as u64, ..acc },
                )
            },
            PpuState::Draw => if acc.cycles < DRAW_CYCLES {
                post == acc
            } else {
                crate::render::enter_hblank_rel(
                    Ppu { cycles: (acc.cycles - DRAW_CYCLES) as u64, ..acc },
                    post,
                )
            },
            PpuState::HBlank => if acc.cycles < HBLANK_CYCLES {
                post == acc
            } else {
                let base = Ppu { cycles: (acc.cycles - HBLANK_CYCLES) as u64, ..acc }.with_ly(
                    (pre.ly + 1) as u8,
                );
                if base.ly >= 144 {
                    enter_vblank_rel(base, post)
                } else {
                    post == enter_oamscan(base)
                }
            },
            PpuState::VBlank => if acc.cycles < LINE_CYCLES {
                post == acc
            } else {
                let base = Ppu { cycles: (acc.cycles - LINE_CYCLES) as u64, ..acc }.with_ly(
                    (pre.ly + 1) as u8,
                );
                if base.ly > 153 {
                    post == enter_oamscan(Ppu { wly: 0, ..base.with_ly(0) })
                } else {
                    post == base
                }
            },
        }
    }
}

/// A VRAM write and its effect on the decoded tile cache.
pub open spec fn vram_write_rel(pre: Ppu, post: Ppu, addr: u16, val: u8) -> bool {
    &&& post.vram@ == pre.vram@.update(addr - 0x8000, val)
    &&& post.tileset@.len() == pre.tileset@.len()
    &&& forall|t: int, r: int, c: int|
        0 <= t < 384 && 0 <= r < 8 && 0 <= c < 8 ==> #[trigger] post.tileset@[t * 64 + r * 8 + c]
            == spec_tile_pixel(post.vram@, t, r, c)
    &&& post == (Ppu { vram: post.vram, tileset: post.tileset, ..pre })
}

/// An OAM write and its effect on the parsed object cache.
pub open spec fn oam_write_rel(pre: Ppu, post: Ppu, addr: u16, val: u8) -> bool {
    &&& post.oam@ == pre.oam@.update(addr - 0xFE00, val)
    &&& post.objects@.len() == pre.objects@.len()
    &&& forall|i: int| 0 <= i < 40 ==> #[trigger] post.objects@[i] == spec_obj(post.oam@, i)
    &&& post == (Ppu { oam: post.oam, objects: post.objects, ..pre })
}

/// A PPU register write: LY is read-only, LYC refreshes the coincidence
/// bit, everything else is a plain byte store.
pub open spec fn reg_write_rel(pre: Ppu, post: Ppu, addr: u16, val: u8) -> bool {
    if addr == 0xFF40 {
        post == (Ppu { lcdc: val, ..pre })
    } else if addr == 0xFF41 {
        post == (Ppu { stat: val, ..pre })
    } else if addr == 0xFF42 {
        post == (Ppu { scy: val, ..pre })
    } else if addr == 0xFF43 {
        post == (Ppu { scx: val, ..pre })
    } else if addr == 0xFF44 {
        post == pre
    } else if addr == 0xFF45 {
        post == pre.with_lyc(val)
    } else if addr == 0xFF47 {
        post == (Ppu { bgp: val, ..pre })
    } else if addr == 0xFF48 {
        post == (Ppu { obp0: val, ..pre })
    } else if addr == 0xFF49 {
        post == (Ppu { obp1: val, ..pre })
    } else if addr == 0xFF4A {
        post == (Ppu { wy: val, ..pre })
    } else {
        post == (Ppu { wx: val, ..pre })
    }
}

impl Ppu {
    /// Write a byte into VRAM; a write inside the tile-data region also
    /// refreshes the decoded row of the tile cache.
    fn write_vram(&mut self, addr: u16, val: u8)
        requires
            old(self).wf(),
            0x8000 <= addr < 0xA000,
        ensures
            final(self).wf(),
            vram_write_rel(*old(self), *final(self), addr, val),
    {
        let index = (addr - 0x8000) as usize;
        self.vram[index] = val;
        if index >= 0x1800 {
            proof {
                assert forall|t: int, r: int, c: int|
                    0 <= t < 384 && 0 <= r < 8 && 0 <= c < 8 implies #[trigger] self.tileset@[t * 64
                    + r * 8 + c] == spec_tile_pixel(self.vram@, t, r, c) by {
                    assert(t * 16 + 2 * r + 1 < 0x1800) by (nonlinear_arith)
                        requires
                            0 <= t < 384 && 0 <= r < 8,
                    ;
                }
            }
            return ;
        }

        let norm_index = index - index % 2;
        let b1 = self.vram[norm_index];
        let b2 = self.vram[norm_index + 1];
        let tile_index = index / 16;
        let row_index = (index % 16) / 2;

        let ghost pre_ts = self.tileset@;
        let mut pixel_index: usize = 0;
        let mut m: u8 = 128;
        while pixel_index < 8
            invariant
                pixel_index <= 8,
                m as int == (if pixel_index < 8 { mask_of(7 - pixel_index) as int } else { 0 }),
                index < 0x1800,
                index == addr - 0x8000,
                norm_index == index - index % 2,
                tile_index == index / 16,
                row_index == (index % 16) / 2,
                self.vram@.len() == 0x2000,
                self.vram@ == old(self).vram@.update(index as int, val),
                *self == (Ppu { vram: self.vram, tileset: self.tileset, ..*old(self) }),
                b1 == self.vram@[norm_index as int],
                b2 == self.vram@[norm_index as int + 1],
                self.tileset@.len() == pre_ts.len() == 384 * 64,
                forall|k: int|
                    0 <= k < 384 * 64 && !(tile_index * 64 + row_index * 8 <= k < tile_index * 64
                        + row_index * 8 + pixel_index) ==> self.tileset@[k] == pre_ts[k],
                forall|p: int|
                    0 <= p < pixel_index ==> #[trigger] self.tileset@[tile_index * 64 + row_index
                        * 8 + p] == spec_tile_pixel(self.vram@, tile_index as int, row_index as int, p),
            decreases 8 - pixel_index,
        {
            let lsb = (b1 / m) % 2 == 1;
            let msb = (b2 / m) % 2 == 1;
            let px = if !msb && !lsb {
                TilePixel::Zero
            } else if !msb {
                TilePixel::One
            } else if !lsb {
                TilePixel::Two
            } else {
                TilePixel::Three
            };
            proof {
                assert(tile_index * 64 + row_index * 8 + pixel_index < 384 * 64) by (nonlinear_arith)
                    requires
                        tile_index < 384 && row_index < 8 && pixel_index < 8,
                ;
                assert(tile_index * 16 + 2 * row_index == norm_index && norm_index + 1 < 0x1800)
                    by (nonlinear_arith)
                    requires
                        index < 0x1800,
                        norm_index == index - index % 2,
                        tile_index == index / 16,
                        row_index == (index % 16) / 2,
                ;
            }
            self.tileset[tile_index * 64 + row_index * 8 + pixel_index] = px;
            pixel_index = pixel_index + 1;
            m = m / 2;
        }
        proof {
            assert forall|t: int, r: int, c: int|
                0 <= t < 384 && 0 <= r < 8 && 0 <= c < 8 implies #[trigger] self.tileset@[t * 64 + r
                * 8 + c] == spec_tile_pixel(self.vram@, t, r, c) by {
                lemma_tile_row_disjoint(t, r, c, tile_index as int, row_index as int, index as int);
                if t == tile_index && r == row_index {
                    assert(t * 64 + r * 8 + c == tile_index * 64 + row_index * 8 + c);
                    assert(self.tileset@[tile_index * 64 + row_index * 8 + c] == spec_tile_pixel(
                        self.vram@,
                        tile_index as int,
                        row_index as int,
                        c,
                    ));
                } else {
                    assert(self.tileset@[t * 64 + r * 8 + c] == pre_ts[t * 64 + r * 8 + c]);
                    assert(pre_ts == old(self).tileset@);
                    assert(pre_ts[t * 64 + r * 8 + c] == spec_tile_pixel(old(self).vram@, t, r, c));
                    assert(self.vram@ == old(self).vram@.update(index as int, val));
                    assert(self.vram@[t * 16 + 2 * r] == old(self).vram@[t * 16 + 2 * r]);
                    assert(self.vram@[t * 16 + 2 * r + 1] == old(self).vram@[t * 16 + 2 * r + 1]);
                }
            }
        }
    }

    /// Write a byte into OAM and refresh the parsed field of the affected
    /// object slot.
    fn write_oam(&mut self, addr: u16, val: u8)
        requires
            old(self).wf(),
            0xFE00 <= addr < 0xFEA0,
        ensures
            final(self).wf(),
            oam_write_rel(*old(self), *final(self), addr, val),
    {
        let index = (addr - 0xFE00) as usize;
        self.oam[index] = val;
        let obj_index = index / 4;
        let mut o = self.objects[obj_index];
        if index % 4 == 0 {
            o.y = val;
        } else if index % 4 == 1 {
            o.x = val;
        } else if index % 4 == 2 {
            o.tile = val;
        } else {
            o.flags = val;
        }
        self.objects[obj_index] = o;
        proof {
            assert forall|i: int| 0 <= i < 40 implies #[trigger] self.objects@[i] == spec_obj(
                self.oam@,
                i,
            ) by {
                assert(i * 4 <= index < i * 4 + 4 <==> i == obj_index) by (nonlinear_arith)
                    requires
                        0 <= i < 40 && index < 0xA0 && obj_index == index / 4,
                ;
            }
        }
    }

    /// Write a byte to VRAM, OAM or a PPU register.
    pub fn write_u8(&mut self, addr: u16, val: u8)
        requires
            old(self).wf(),
            (0x8000 <= addr < 0xA000) || (0xFE00 <= addr < 0xFEA0) || (0xFF40 <= addr <= 0xFF45)
                || (0xFF47 <= addr <= 0xFF4B),
        ensures
            final(self).wf(),
            0x8000 <= addr < 0xA000 ==> vram_write_rel(*old(self), *final(self), addr, val),
            0xFE00 <= addr < 0xFEA0 ==> oam_write_rel(*old(self), *final(self), addr, val),
            addr >= 0xFF40 ==> reg_write_rel(*old(self), *final(self), addr, val),
    {
        if 0x8000 <= addr && addr < 0xA000 {
            self.write_vram(addr, val);
        } else if 0xFE00 <= addr && addr < 0xFEA0 {
            self.write_oam(addr, val);
        } else if addr == 0xFF40 {
            self.lcdc = val;
        } else if addr == 0xFF41 {
            self.stat = val;
        } else if addr == 0xFF42 {
            self.scy = val;
        } else if addr == 0xFF43 {
            self.scx = val;
        } else if addr == 0xFF44 {
            // LY is read-only
        } else if addr == 0xFF45 {
            self.set_lyc(val);
        } else if addr == 0xFF47 {
            self.bgp = val;
        } else if addr == 0xFF48 {
            self.obp0 = val;
        } else if addr == 0xFF49 {
            self.obp1 = val;
        } else if addr == 0xFF4A {
            self.wy = val;
        } else {
            self.wx = val;
        }
    }

    /// Advance the PPU by `cycles` T-cycles: accumulate into the current
    /// mode and fire at most one mode transition.
    pub fn tick(&mut self, cycles: u64)
        requires
            old(self).wf(),
            cycles <= 80,
        ensures
            final(self).wf(),
            ppu_tick_rel(*old(self), *final(self), cycles),
    {
        proof {
            reveal(ppu_tick_rel);
        }
        if (self.lcdc / 128) % 2 != 1 {
            self.stat = (self.stat / 4) * 4;
            return ;
        }
        self.cycles = self.cycles + cycles;
        if matches!(self.state, PpuState::OAMScan) {
            if self.cycles >= OAMSCAN_CYCLES {
                self.cycles = self.cycles - OAMSCAN_CYCLES;
                self.state = PpuState::Draw;
                self.stat = (self.stat / 4) * 4 + 3;
            }
        } else if matches!(self.state, PpuState::Draw) {
            if self.cycles >= DRAW_CYCLES {
                self.cycles = self.cycles - DRAW_CYCLES;
                self.enter_hblank();
            }
        } else if matches!(self.state, PpuState::HBlank) {
            if self.cycles >= HBLANK_CYCLES {
                self.cycles = self.cycles - HBLANK_CYCLES;
                let next = self.ly + 1;
                self.set_ly(next);
                if self.ly >= 144 {
                    self.enter_vblank();
                } else {
                    let src = (self.stat / 32) % 2 == 1;
                    self.state = PpuState::OAMScan;
                    self.stat = (self.stat / 4) * 4 + 2;
                    if src {
                        self.stat_int = true;
                    }
                }
            }
        } else {
            if self.cycles >= LINE_CYCLES {
                self.cycles = self.cycles - LINE_CYCLES;
                let next = self.ly + 1;
                self.set_ly(next);
                if self.ly > 153 {
                    self.set_ly(0);
                    self.wly = 0;
                    let src = (self.stat / 32) % 2 == 1;
                    self.state = PpuState::OAMScan;
                    self.stat = (self.stat / 4) * 4 + 2;
                    if src {
                        self.stat_int = true;
                    }
                }
            }
        }
    }

    /// Enter vertical blank: show the back buffer, clear the new back
    /// buffer to white, raise VBlank and the optional STAT source.
    fn enter_vblank(&mut self)
        requires
            old(self).wf_mem(),
        ensures
            enter_vblank_rel(*old(self), *final(self)),
    {
        core::mem::swap(&mut self.frame, &mut self.frame_buffer);
        let white = fill_color(SCREEN_WIDTH * SCREEN_HEIGHT, Color::White);
        self.frame_buffer = white;
        let src = (self.stat / 16) % 2 == 1;
        self.state = PpuState::VBlank;
        self.stat = (self.stat / 4) * 4 + 1;
        self.vblank_int = true;
        if src {
            self.stat_int = true;
        }
    }

    /// Memory sizes and cache consistency alone, without the mode-relative
    /// counter bounds.
    pub open spec fn wf_mem(self) -> bool {
        &&& self.vram@.len() == 0x2000
        &&& self.tileset@.len() == 384 * 64
        &&& self.oam@.len() == 0xA0
        &&& self.objects@.len() == 40
        &&& self.frame@.len() == 160 * 144
        &&& self.frame_buffer@.len() == 160 * 144
        &&& forall|t: int, r: int, c: int|
            0 <= t < 384 && 0 <= r < 8 && 0 <= c < 8 ==> #[trigger] self.tileset@[t * 64 + r * 8
                + c] == spec_tile_pixel(self.vram@, t, r, c)
        &&& forall|i: int| 0 <= i < 40 ==> #[trigger] self.objects@[i] == spec_obj(self.oam@, i)
    }
}

/// Tile rows occupy disjoint VRAM bytes: a pixel of tile `t`, row `r` is
/// decoded from the byte pair at `t * 16 + 2 * r`, which contains the
/// written index only for the written tile and row.
proof fn lemma_tile_row_disjoint(t: int, r: int, c: int, tile: int, row: int, index: int)
    requires
        0 <= t < 384,
        0 <= r < 8,
        0 <= c < 8,
        0 <= index < 0x1800,
        tile == index / 16,
        row == (index % 16) / 2,
    ensures
        (t != tile || r != row) ==> t * 16 + 2 * r != index && t * 16 + 2 * r + 1 != index,
        (t != tile || r != row) ==> !(tile * 64 + row * 8 <= t * 64 + r * 8 + c < tile * 64 + row
            * 8 + 8),
        t * 16 + 2 * r + 1 < 0x1800,
{
    assert((t != tile || r != row) ==> t * 16 + 2 * r != index && t * 16 + 2 * r + 1 != index)
        by (nonlinear_arith)
        requires
            0 <= t < 384,
            0 <= r < 8,
            0 <= index < 0x1800,
            tile == index / 16,
            row == (index % 16) / 2,
    ;
    assert((t != tile || r != row) ==> !(tile * 64 + row * 8 <= t * 64 + r * 8 + c < tile * 64
        + row * 8 + 8)) by (nonlinear_arith)
        requires
            0 <= t < 384,
            0 <= r < 8,
            0 <= c < 8,
            0 <= row < 8,
    ;
    assert(t * 16 + 2 * r + 1 < 0x1800) by (nonlinear_arith)
        requires
            0 <= t < 384 && 0 <= r < 8,
    ;
}

/// A vector of `n` copies of one tile pixel.
fn fill_px(n: usize, v: TilePixel) -> (r: Vec<TilePixel>)
    ensures
        r@.len() == n,
        forall|i: int| 0 <= i < n ==> r@[i] == v,
{
    let mut r: Vec<TilePixel> = Vec::new();
    let mut i: usize = 0;
    while i < n
        invariant
            i <= n,
            r@.len() == i,
            forall|k: int| 0 <= k < i ==> r@[k] == v,
        decreases n - i,
    {
        r.push(v);
        i = i + 1;
    }
    r
}

/// A vector of `n` copies of one object entry.
fn fill_obj(n: usize, v: ObjAttr) -> (r: Vec<ObjAttr>)
    ensures
        r@.len() == n,
        forall|i: int| 0 <= i < n ==> r@[i] == v,
{
    let mut r: Vec<ObjAttr> = Vec::new();
    let mut i: usize = 0;
    while i < n
        invariant
            i <= n,
            r@.len() == i,
            forall|k: int| 0 <= k < i ==> r@[k] == v,
        decreases n - i,
    {
        r.push(v);
        i = i + 1;
    }
    r
}

/// A vector of `n` copies of one color.
pub fn fill_color(n: usize, v: Color) -> (r: Vec<Color>)
    ensures
        r@.len() == n,
        forall|i: int| 0 <= i < n ==> r@[i] == v,
{
    let mut r: Vec<Color> = Vec::new();
    let mut i: usize = 0;
    while i < n
        invariant
            i <= n,
            r@.len() == i,
            forall|k: int| 0 <= k < i ==> r@[k] == v,
        decreases n - i,
    {
        r.push(v);
        i = i + 1;
    }
    r
}

/// The mode durations of one scanline sum to a whole line, and a frame of
/// 154 such lines is 70224 T-cycles.
pub proof fn lemma_scanline_budget()
    ensures
        OAMSCAN_CYCLES + DRAW_CYCLES + HBLANK_CYCLES == LINE_CYCLES,
        154 * LINE_CYCLES == 70224,
{
}

/// When a scanline is about to be drawn, the window line counter has not
/// outrun the screen.
pub proof fn lemma_wly_on_screen(p: Ppu)
    requires
        p.wf(),
        p.state == PpuState::Draw,
    ensures
        p.wly <= 143,
{
}

/// Entering vertical blank publishes exactly the composited back buffer
/// and leaves a white back buffer behind.
pub proof fn lemma_frame_swap(pre: Ppu, post: Ppu)
    requires
        enter_vblank_rel(pre, post),
    ensures
        post.frame == pre.frame_buffer,
        forall|k: int| 0 <= k < post.frame_buffer@.len() ==> post.frame_buffer@[k] == Color::White,
{
}

/// The tick that completes the horizontal blank of the last drawn line
/// enters vertical blank: it publishes the back buffer as the shown frame,
/// clears the new back buffer to white, and raises the VBlank interrupt.
pub proof fn lemma_tick_into_vblank(pre: Ppu, post: Ppu, c: u64)
    requires
        ppu_tick_rel(pre, post, c),
        pre.wf(),
        c <= 80,
        lcdc_lcd_enable(pre.lcdc),
        pre.state == PpuState::HBlank,
        pre.ly == 143,
        pre.cycles + c >= HBLANK_CYCLES,
    ensures
        post.state == PpuState::VBlank,
        post.frame == pre.frame_buffer,
        forall|k: int| 0 <= k < post.frame_buffer@.len() ==> post.frame_buffer@[k] == Color::White,
        post.vblank_int,
{
    reveal(ppu_tick_rel);
}

} // verus!
