//! Scanline rasterization: background, window and objects.
//!
//! A scanline is drawn on the transition into horizontal blank. Background
//! and window pixels come from the selected tilemap through the decoded
//! tile cache and the BGP palette. Of the objects, the first ten OAM slots
//! overlapping the line compete per column: the drawn sprite is the one
//! with the smallest X (earliest OAM slot on ties) whose pixel is opaque
//! and whose priority flag permits drawing over the pixel beneath.

use vstd::prelude::*;

use crate::ppu::Color;
use crate::ppu::ObjAttr;
use crate::ppu::Ppu;
use crate::ppu::PpuState;
use crate::ppu::TilePixel;
use crate::ppu::lcdc_bg_tilemap;
use crate::ppu::lcdc_bg_window_enable;
use crate::ppu::lcdc_bg_window_tiles;
use crate::ppu::lcdc_obj_enable;
use crate::ppu::lcdc_obj_size;
use crate::ppu::lcdc_window_enable;
use crate::ppu::lcdc_window_tilemap;
use crate::ppu::pixel_to_color;
use crate::ppu::spec_pixel_color;
use crate::ppu::stat_with_mode;
use crate::util::bit;
use vstd::arithmetic::div_mod::lemma_fundamental_div_mod;

verus! {

/// The tile index stored in a tilemap at map coordinates (`x`, `y`).
pub open spec fn tilemap_entry(vram: Seq<u8>, upper: bool, x: int, y: int) -> u8 {
    vram[(if upper {
        0x1C00int
    } else {
        0x1800int
    }) + x + y * 32]
}

/// The tile-cache slot a tilemap byte names: the unsigned 0x8000 method
/// indexes tiles 0..256, the signed 0x8800 method maps 0..127 to tiles
/// 256..384 and 128..255 to themselves.
pub open spec fn tile_base(id: u8, from_lower: bool) -> int {
    if from_lower {
        id as int
    } else if id <= 127 {
        id + 256
    } else {
        id as int
    }
}

/// Pixel (`r`, `c`) of tile `t` in the decoded tile cache.
pub open spec fn tileset_px(ts: Seq<TilePixel>, t: int, r: int, c: int) -> TilePixel {
    ts[t * 64 + r * 8 + c]
}

/// The screen column where the window starts: WX minus 7, wrapping.
pub open spec fn bg_win_x(p: Ppu) -> int {
    (p.wx + 249) % 256
}

/// Whether this scanline samples the window where it covers the screen.
pub open spec fn bg_use_window(p: Ppu) -> bool {
    lcdc_window_enable(p.lcdc) && p.ly >= p.wy
}

/// Whether at least one column of this scanline comes from the window.
pub open spec fn window_rendered(p: Ppu) -> bool {
    bg_use_window(p) && bg_win_x(p) < 160
}

/// The background or window color of screen column `cx` on line LY.
pub open spec fn bg_color(p: Ppu, cx: int) -> Color {
    let win = bg_use_window(p) && cx >= bg_win_x(p);
    let x = if win {
        cx - bg_win_x(p)
    } else {
        (cx + p.scx) % 256
    };
    let y = if win {
        p.wly as int
    } else {
        (p.ly + p.scy) % 256
    };
    let map = if win {
        lcdc_window_tilemap(p.lcdc)
    } else {
        lcdc_bg_tilemap(p.lcdc)
    };
    let tid = tilemap_entry(p.vram@, map, x / 8, y / 8);
    spec_pixel_color(
        tileset_px(p.tileset@, tile_base(tid, lcdc_bg_window_tiles(p.lcdc)), y % 8, x % 8),
        p.bgp,
    )
}

/// Object height in pixels: 8, or 16 with LCDC bit 2 set.
pub open spec fn obj_height(lcdc: u8) -> int {
    if lcdc_obj_size(lcdc) {
        16
    } else {
        8
    }
}

/// Whether OAM slot `i` covers scanline `ly`.
pub open spec fn obj_overlaps(objects: Seq<ObjAttr>, lcdc: u8, ly: u8, i: int) -> bool {
    let oy = objects[i].y - 16;
    oy <= ly < oy + obj_height(lcdc)
}

/// How many OAM slots before `i` cover scanline `ly`.
pub open spec fn n_overlaps_before(objects: Seq<ObjAttr>, lcdc: u8, ly: u8, i: int) -> int
    decreases i,
{
    if i <= 0 {
        0
    } else {
        n_overlaps_before(objects, lcdc, ly, i - 1) + if obj_overlaps(objects, lcdc, ly, i - 1) {
            1int
        } else {
            0int
        }
    }
}

/// Whether OAM slot `i` is among the first ten slots covering the line:
/// only those compete for pixels.
pub open spec fn obj_selected(objects: Seq<ObjAttr>, lcdc: u8, ly: u8, i: int) -> bool {
    obj_overlaps(objects, lcdc, ly, i) && n_overlaps_before(objects, lcdc, ly, i) < 10
}

/// Whether OAM slot `i` covers screen column `cx`.
pub open spec fn obj_x_covers(objects: Seq<ObjAttr>, cx: int, i: int) -> bool {
    let ox = objects[i].x - 8;
    ox <= cx < ox + 8
}

/// The pixel OAM slot `i` shows at column `cx` of line `ly`, after X and Y
/// flips; in 8x16 mode the tile index's low bit is forced to zero and the
/// lower half uses the next tile.
pub open spec fn sprite_pixel(
    objects: Seq<ObjAttr>,
    ts: Seq<TilePixel>,
    lcdc: u8,
    ly: u8,
    i: int,
    cx: int,
) -> TilePixel {
    let o = objects[i];
    let h = obj_height(lcdc);
    let tx0 = cx - (o.x - 8);
    let ty0 = ly - (o.y - 16);
    let tx = if bit(o.flags, 32) {
        7 - tx0
    } else {
        tx0
    };
    let ty = if bit(o.flags, 64) {
        h - 1 - ty0
    } else {
        ty0
    };
    if h == 16 {
        let base = o.tile - o.tile % 2;
        if ty > 7 {
            tileset_px(ts, base + 1, ty - 8, tx)
        } else {
            tileset_px(ts, base, ty, tx)
        }
    } else {
        tileset_px(ts, o.tile as int, ty, tx)
    }
}

/// The palette byte OAM slot `i` selects.
pub open spec fn obj_palette(objects: Seq<ObjAttr>, obp0: u8, obp1: u8, i: int) -> u8 {
    if bit(objects[i].flags, 16) {
        obp1
    } else {
        obp0
    }
}

/// Whether OAM slot `i` puts a pixel on column `cx`: it is among the first
/// ten on the line, covers the column, its priority flag permits drawing
/// over `under`, and its pixel is opaque.
pub open spec fn obj_draws(
    objects: Seq<ObjAttr>,
    ts: Seq<TilePixel>,
    lcdc: u8,
    ly: u8,
    i: int,
    cx: int,
    under: Color,
) -> bool {
    &&& obj_selected(objects, lcdc, ly, i)
    &&& obj_x_covers(objects, cx, i)
    &&& (!bit(objects[i].flags, 128) || under == Color::White)
    &&& sprite_pixel(objects, ts, lcdc, ly, i, cx) != TilePixel::Zero
}

/// The drawing OAM slot with the smallest X (earliest slot on ties) among
/// slots below `i`, scanned in slot order.
pub open spec fn obj_winner_upto(
    objects: Seq<ObjAttr>,
    ts: Seq<TilePixel>,
    lcdc: u8,
    ly: u8,
    cx: int,
    under: Color,
    i: int,
) -> Option<int>
    decreases i,
{
    if i <= 0 {
        None
    } else {
        let prev = obj_winner_upto(objects, ts, lcdc, ly, cx, under, i - 1);
        if obj_draws(objects, ts, lcdc, ly, i - 1, cx, under) {
            match prev {
                Option::None => Some(i - 1),
                Option::Some(j) => if objects[i - 1].x < objects[j].x {
                    Some(i - 1)
                } else {
                    Some(j)
                },
            }
        } else {
            prev
        }
    }
}

/// The color column `cx` shows after the object layer, over `under`.
pub open spec fn obj_line_pixel(
    objects: Seq<ObjAttr>,
    ts: Seq<TilePixel>,
    lcdc: u8,
    ly: u8,
    obp0: u8,
    obp1: u8,
    cx: int,
    under: Color,
) -> Color {
    match obj_winner_upto(objects, ts, lcdc, ly, cx, under, 40) {
        Option::Some(i) => spec_pixel_color(
            sprite_pixel(objects, ts, lcdc, ly, i, cx),
            obj_palette(objects, obp0, obp1, i),
        ),
        Option::None => under,
    }
}

/// The final color of column `cx` after both layers of one scanline draw.
pub open spec fn line_pixel(p: Ppu, cx: int) -> Color {
    let under = if lcdc_bg_window_enable(p.lcdc) {
        bg_color(p, cx)
    } else {
        p.frame_buffer@[p.ly * 160 + cx]
    };
    if lcdc_obj_enable(p.lcdc) {
        obj_line_pixel(p.objects@, p.tileset@, p.lcdc, p.ly, p.obp0, p.obp1, cx, under)
    } else {
        under
    }
}

/// One scanline drawn into the back buffer: row LY takes its final colors,
/// every other pixel keeps its value, and the window line counter steps if
/// the window covered any column.
pub open spec fn draw_line_rel(pre: Ppu, post: Ppu) -> bool {
    &&& post.frame_buffer@.len() == pre.frame_buffer@.len()
    &&& forall|k: int|
        0 <= k < pre.frame_buffer@.len() ==> #[trigger] post.frame_buffer@[k] == (if k / 160
            == pre.ly {
            line_pixel(pre, k % 160)
        } else {
            pre.frame_buffer@[k]
        })
    &&& post.wly == (if lcdc_bg_window_enable(pre.lcdc) && window_rendered(pre) {
        (pre.wly + 1) as u8
    } else {
        pre.wly
    })
    &&& post == (Ppu { frame_buffer: post.frame_buffer, wly: post.wly, ..pre })
}

/// The PPU entering horizontal blank: the scanline is drawn, the mode
/// becomes 0, and STAT fires if its mode-0 source is enabled.
pub open spec fn enter_hblank_rel(pre: Ppu, post: Ppu) -> bool {
    &&& post.frame_buffer@.len() == pre.frame_buffer@.len()
    &&& forall|k: int|
        0 <= k < pre.frame_buffer@.len() ==> #[trigger] post.frame_buffer@[k] == (if k / 160
            == pre.ly {
            line_pixel(pre, k % 160)
        } else {
            pre.frame_buffer@[k]
        })
    &&& post.wly == (if lcdc_bg_window_enable(pre.lcdc) && window_rendered(pre) {
        (pre.wly + 1) as u8
    } else {
        pre.wly
    })
    &&& post == (Ppu {
        frame_buffer: post.frame_buffer,
        wly: post.wly,
        state: PpuState::HBlank,
        stat: stat_with_mode(pre.stat, 0),
        stat_int: pre.stat_int || bit(pre.stat, 8),
        ..pre
    })
}

/// Splitting a framebuffer index into its row and column.
proof fn lemma_row_col(ly: int, cx: int)
    requires
        0 <= ly,
        0 <= cx < 160,
    ensures
        (ly * 160 + cx) / 160 == ly,
        (ly * 160 + cx) % 160 == cx,
{
    assert((ly * 160 + cx) / 160 == ly && (ly * 160 + cx) % 160 == cx) by (nonlinear_arith)
        requires
            0 <= ly && 0 <= cx < 160,
    ;
}

impl Ppu {
    /// Read a tile index out of the selected tilemap.
    fn get_tileid(&self, x: u8, y: u8, from_upper: bool) -> (r: u8)
        requires
            self.wf_mem(),
            x < 32,
            y < 32,
        ensures
            r == tilemap_entry(self.vram@, from_upper, x as int, y as int),
    {
        let base: usize = if from_upper {
            0x1C00
        } else {
            0x1800
        };
        self.vram[base + (x as usize) + (y as usize) * 32]
    }

    /// Turn a tilemap byte into a tile-cache slot.
    fn index_to_tile(&self, id: u8, from_lower: bool) -> (r: usize)
        ensures
            r == tile_base(id, from_lower),
            r < 384,
    {
        if from_lower {
            id as usize
        } else if id <= 127 {
            (id as usize) + 256
        } else {
            id as usize
        }
    }

    /// Read one pixel of the decoded tile cache.
    fn tile_px(&self, t: usize, r: usize, c: usize) -> (px: TilePixel)
        requires
            self.wf_mem(),
            t < 384,
            r < 8,
            c < 8,
        ensures
            px == tileset_px(self.tileset@, t as int, r as int, c as int),
    {
        proof {
            assert(t * 64 + r * 8 + c < 384 * 64) by (nonlinear_arith)
                requires
                    t < 384 && r < 8 && c < 8,
            ;
        }
        self.tileset[t * 64 + r * 8 + c]
    }

    /// Draw the background and window layer of line LY into the back
    /// buffer and step the window line counter if the window was used.
    fn draw_bg(&mut self)
        requires
            old(self).wf_mem(),
            old(self).ly < 144,
            old(self).wly <= 143,
        ensures
            final(self).frame_buffer@.len() == old(self).frame_buffer@.len(),
            forall|k: int|
                0 <= k < old(self).frame_buffer@.len() ==> #[trigger] final(self).frame_buffer@[k]
                    == (if k / 160 == old(self).ly {
                    bg_color(*old(self), k % 160)
                } else {
                    old(self).frame_buffer@[k]
                }),
            final(self).wly == (if window_rendered(*old(self)) {
                (old(self).wly + 1) as u8
            } else {
                old(self).wly
            }),
            *final(self) == (Ppu {
                frame_buffer: final(self).frame_buffer,
                wly: final(self).wly,
                ..*old(self)
            }),
    {
        let use_window = (self.lcdc / 32) % 2 == 1 && self.ly >= self.wy;
        let win_x: usize = ((self.wx as usize) + 249) % 256;
        let tiles_lo = (self.lcdc / 16) % 2 == 1;
        let bg_map = (self.lcdc / 8) % 2 == 1;
        let win_map = (self.lcdc / 64) % 2 == 1;
        let scx = self.scx as usize;
        let scy = self.scy as usize;
        let row = (self.ly as usize) * 160;
        let mut win_seen = false;
        let mut cx: usize = 0;
        while cx < 160
            invariant
                cx <= 160,
                old(self).wf_mem(),
                old(self).ly < 144,
                use_window == bg_use_window(*old(self)),
                win_x == bg_win_x(*old(self)),
                tiles_lo == lcdc_bg_window_tiles(old(self).lcdc),
                bg_map == lcdc_bg_tilemap(old(self).lcdc),
                win_map == lcdc_window_tilemap(old(self).lcdc),
                scx == old(self).scx,
                scy == old(self).scy,
                row == old(self).ly * 160,
                win_seen == (bg_use_window(*old(self)) && bg_win_x(*old(self)) < cx),
                self.frame_buffer@.len() == old(self).frame_buffer@.len(),
                *self == (Ppu { frame_buffer: self.frame_buffer, ..*old(self) }),
                forall|k: int|
                    0 <= k < old(self).frame_buffer@.len() && !(k / 160 == old(self).ly && k % 160
                        < cx) ==> #[trigger] self.frame_buffer@[k] == old(self).frame_buffer@[k],
                forall|j: int|
                    0 <= j < cx ==> #[trigger] self.frame_buffer@[old(self).ly * 160 + j]
                        == bg_color(*old(self), j),
            decreases 160 - cx,
        {
            let x: usize;
            let y: usize;
            let map: bool;
            if use_window && cx >= win_x {
                win_seen = true;
                x = cx - win_x;
                y = self.wly as usize;
                map = win_map;
            } else {
                x = (cx + scx) % 256;
                y = ((self.ly as usize) + scy) % 256;
                map = bg_map;
            }
            let tid = self.get_tileid((x / 8) as u8, (y / 8) as u8, map);
            let t = self.index_to_tile(tid, tiles_lo);
            let px = self.tile_px(t, y % 8, x % 8);
            let color = pixel_to_color(px, self.bgp);
            proof {
                lemma_row_col(old(self).ly as int, cx as int);
            }
            self.frame_buffer[row + cx] = color;
            cx = cx + 1;
        }
        if win_seen {
            self.wly = self.wly + 1;
        }
        proof {
            assert forall|k: int|
                0 <= k < old(self).frame_buffer@.len() && k / 160 == old(self).ly implies #[trigger]
                self.frame_buffer@[k] == bg_color(*old(self), k % 160) by {
                lemma_fundamental_div_mod(k, 160);
                assert(k == old(self).ly * 160 + (k % 160));
            }
        }
    }

    /// Compute the pixel an object shows at column `cx`.
    fn sprite_px(&self, i: usize, cx: usize) -> (px: TilePixel)
        requires
            self.wf_mem(),
            i < 40,
            cx < 160,
            obj_overlaps(self.objects@, self.lcdc, self.ly, i as int),
            obj_x_covers(self.objects@, cx as int, i as int),
        ensures
            px == sprite_pixel(self.objects@, self.tileset@, self.lcdc, self.ly, i as int, cx as int),
    {
        let o = self.objects[i];
        let tall = (self.lcdc / 4) % 2 == 1;
        let h: i32 = if tall {
            16
        } else {
            8
        };
        let tx0: i32 = (cx as i32) - ((o.x as i32) - 8);
        let ty0: i32 = (self.ly as i32) - ((o.y as i32) - 16);
        let tx: i32 = if (o.flags / 32) % 2 == 1 {
            7 - tx0
        } else {
            tx0
        };
        let ty: i32 = if (o.flags / 64) % 2 == 1 {
            h - 1 - ty0
        } else {
            ty0
        };
        if tall {
            let base = (o.tile - o.tile % 2) as usize;
            if ty > 7 {
                self.tile_px(base + 1, (ty - 8) as usize, tx as usize)
            } else {
                self.tile_px(base, ty as usize, tx as usize)
            }
        } else {
            self.tile_px(o.tile as usize, ty as usize, tx as usize)
        }
    }

    /// Draw the object layer of line LY over the back buffer.
    fn draw_obj(&mut self)
        requires
            old(self).wf_mem(),
            old(self).ly < 144,
        ensures
            final(self).frame_buffer@.len() == old(self).frame_buffer@.len(),
            forall|k: int|
                0 <= k < old(self).frame_buffer@.len() ==> #[trigger] final(self).frame_buffer@[k]
                    == (if k / 160 == old(self).ly {
                    obj_line_pixel(
                        old(self).objects@,
                        old(self).tileset@,
                        old(self).lcdc,
                        old(self).ly,
                        old(self).obp0,
                        old(self).obp1,
                        k % 160,
                        old(self).frame_buffer@[k],
                    )
                } else {
                    old(self).frame_buffer@[k]
                }),
            *final(self) == (Ppu { frame_buffer: final(self).frame_buffer, ..*old(self) }),
    {
        // which OAM slots are among the first ten covering this line
        let mut sel: Vec<bool> = Vec::new();
        let mut count: usize = 0;
        let mut i: usize = 0;
        while i < 40
            invariant
                i <= 40,
                old(self).wf_mem(),
                *self == *old(self),
                sel@.len() == i,
                count <= i,
                count == n_overlaps_before(self.objects@, self.lcdc, self.ly, i as int),
                forall|j: int|
                    0 <= j < i ==> #[trigger] sel@[j] == obj_selected(
                        self.objects@,
                        self.lcdc,
                        self.ly,
                        j,
                    ),
            decreases 40 - i,
        {
            let o = self.objects[i];
            let h: i32 = if (self.lcdc / 4) % 2 == 1 {
                16
            } else {
                8
            };
            let oy: i32 = (o.y as i32) - 16;
            let lyi: i32 = self.ly as i32;
            let ov = lyi >= oy && lyi < oy + h;
            sel.push(ov && count < 10);
            if ov {
                count = count + 1;
            }
            i = i + 1;
        }

        let row = (self.ly as usize) * 160;
        let mut cx: usize = 0;
        while cx < 160
            invariant
                cx <= 160,
                old(self).wf_mem(),
                old(self).ly < 144,
                row == old(self).ly * 160,
                sel@.len() == 40,
                forall|j: int|
                    0 <= j < 40 ==> #[trigger] sel@[j] == obj_selected(
                        old(self).objects@,
                        old(self).lcdc,
                        old(self).ly,
                        j,
                    ),
                self.frame_buffer@.len() == old(self).frame_buffer@.len(),
                *self == (Ppu { frame_buffer: self.frame_buffer, ..*old(self) }),
                forall|k: int|
                    0 <= k < old(self).frame_buffer@.len() && !(k / 160 == old(self).ly && k % 160
                        < cx) ==> #[trigger] self.frame_buffer@[k] == old(self).frame_buffer@[k],
                forall|j: int|
                    0 <= j < cx ==> #[trigger] self.frame_buffer@[old(self).ly * 160 + j]
                        == obj_line_pixel(
                        old(self).objects@,
                        old(self).tileset@,
                        old(self).lcdc,
                        old(self).ly,
                        old(self).obp0,
                        old(self).obp1,
                        j,
                        old(self).frame_buffer@[old(self).ly * 160 + j],
                    ),
            decreases 160 - cx,
        {
            proof {
                lemma_row_col(old(self).ly as int, cx as int);
            }
            let under = self.frame_buffer[row + cx];
            let mut have = false;
            let mut best_x: u8 = 0;
            let mut best_px = TilePixel::Zero;
            let mut best_pal: u8 = 0;
            let mut i: usize = 0;
            while i < 40
                invariant
                    i <= 40,
                    cx < 160,
                    old(self).wf_mem(),
                    old(self).ly < 144,
                    row == old(self).ly * 160,
                    sel@.len() == 40,
                    forall|j: int|
                        0 <= j < 40 ==> #[trigger] sel@[j] == obj_selected(
                            old(self).objects@,
                            old(self).lcdc,
                            old(self).ly,
                            j,
                        ),
                    self.frame_buffer@.len() == old(self).frame_buffer@.len(),
                    *self == (Ppu { frame_buffer: self.frame_buffer, ..*old(self) }),
                    under == self.frame_buffer@[row + cx],
                    ({
                        let w = obj_winner_upto(
                            old(self).objects@,
                            old(self).tileset@,
                            old(self).lcdc,
                            old(self).ly,
                            cx as int,
                            under,
                            i as int,
                        );
                        match w {
                            Option::None => !have,
                            Option::Some(j) => have && 0 <= j < i && best_x == old(self).objects@[j].x
                                && best_px
                                == sprite_pixel(
                                old(self).objects@,
                                old(self).tileset@,
                                old(self).lcdc,
                                old(self).ly,
                                j,
                                cx as int,
                            ) && best_pal == obj_palette(
                                old(self).objects@,
                                old(self).obp0,
                                old(self).obp1,
                                j,
                            ),
                        }
                    }),
                decreases 40 - i,
            {
                if sel[i] {
                    let o = self.objects[i];
                    let ox: i32 = (o.x as i32) - 8;
                    let cxi: i32 = cx as i32;
                    if cxi >= ox && cxi < ox + 8 {
                        let white = matches!(under, Color::White);
                        if (o.flags / 128) % 2 == 0 || white {
                            let px = self.sprite_px(i, cx);
                            if !matches!(px, TilePixel::Zero) {
                                if !have || o.x < best_x {
                                    have = true;
                                    best_x = o.x;
                                    best_px = px;
                                    best_pal = if (o.flags / 16) % 2 == 1 {
                                        self.obp1
                                    } else {
                                        self.obp0
                                    };
                                }
                            }
                        }
                    }
                }
                i = i + 1;
            }
            if have {
                let color = pixel_to_color(best_px, best_pal);
                self.frame_buffer[row + cx] = color;
            }
            cx = cx + 1;
        }
        proof {
            assert forall|k: int|
                0 <= k < old(self).frame_buffer@.len() && k / 160 == old(self).ly implies #[trigger]
                self.frame_buffer@[k] == obj_line_pixel(
                    old(self).objects@,
                    old(self).tileset@,
                    old(self).lcdc,
                    old(self).ly,
                    old(self).obp0,
                    old(self).obp1,
                    k % 160,
                    old(self).frame_buffer@[k],
                ) by {
                lemma_fundamental_div_mod(k, 160);
                assert(k == old(self).ly * 160 + (k % 160));
            }
        }
    }

    /// Draw one scanline: the background and window layer when LCDC bit 0
    /// is set, then the object layer when LCDC bit 1 is set.
    fn draw_line(&mut self)
        requires
            old(self).wf_mem(),
            old(self).ly < 144,
            old(self).wly <= 143,
        ensures
            draw_line_rel(*old(self), *final(self)),
    {
        if self.lcdc % 2 == 1 {
            self.draw_bg();
        }
        if (self.lcdc / 2) % 2 == 1 {
            self.draw_obj();
        }
    }

    /// Enter horizontal blank: draw the scanline, set mode 0, raise the
    /// STAT latch if the mode-0 source is enabled.
    pub(crate) fn enter_hblank(&mut self)
        requires
            old(self).wf_mem(),
            old(self).ly < 144,
            old(self).wly <= 143,
        ensures
            enter_hblank_rel(*old(self), *final(self)),
    {
        let src = (self.stat / 8) % 2 == 1;
        self.draw_line();
        self.state = PpuState::HBlank;
        self.stat = (self.stat / 4) * 4;
        if src {
            self.stat_int = true;
        }
    }
}

} // verus!
