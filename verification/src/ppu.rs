//! The picture processing unit: a scanline/dot rasterizer with loopy v/t
//! scrolling registers, background shift registers, sprite evaluation and
//! sprite-zero-hit detection, and VBlank/NMI generation.
//!
//! Scanlines run -1 (pre-render) through 260; dots 0 through 340. One frame
//! is 262 * 341 = 89342 dots.

use crate::mapper::Mapper;
use crate::ppu_bus::PpuIoBus;
use crate::sprite::Sprite;
use vstd::prelude::*;

verus! {

/// Visible pixels per scanline.
pub const DISPLAY_WIDTH: usize = 256;

/// Visible scanlines per frame.
pub const DISPLAY_HEIGHT: usize = 240;

/// PPU dots in one frame: 341 dots on each of 262 scanlines.
pub const CYCLES_PER_FRAME: usize = 89342;

/// One output pixel: R, G, B.
pub type Pixel = (u8, u8, u8);

/// The fixed 64-entry master palette, as RGB.
pub fn palette_rgb(idx: u8) -> (r: Pixel)
    requires
        idx < 64,
{
    match idx {
        0 => (84, 84, 84),
        1 => (0, 30, 116),
        2 => (8, 16, 144),
        3 => (48, 0, 136),
        4 => (68, 0, 100),
        5 => (92, 0, 48),
        6 => (84, 4, 0),
        7 => (60, 24, 0),
        8 => (32, 42, 0),
        9 => (8, 58, 0),
        10 => (0, 64, 0),
        11 => (0, 60, 0),
        12 => (0, 50, 60),
        13 => (0, 0, 0),
        14 => (0, 0, 0),
        15 => (0, 0, 0),
        16 => (152, 150, 152),
        17 => (8, 76, 196),
        18 => (48, 50, 236),
        19 => (92, 30, 228),
        20 => (136, 20, 176),
        21 => (160, 20, 100),
        22 => (152, 34, 32),
        23 => (120, 60, 0),
        24 => (84, 90, 0),
        25 => (40, 114, 0),
        26 => (8, 124, 0),
        27 => (0, 118, 40),
        28 => (0, 102, 120),
        29 => (0, 0, 0),
        30 => (0, 0, 0),
        31 => (0, 0, 0),
        32 => (236, 238, 236),
        33 => (76, 154, 236),
        34 => (120, 124, 236),
        35 => (176, 98, 236),
        36 => (228, 84, 236),
        37 => (236, 88, 180),
        38 => (236, 106, 100),
        39 => (212, 136, 32),
        40 => (160, 170, 0),
        41 => (116, 196, 0),
        42 => (76, 208, 32),
        43 => (56, 204, 108),
        44 => (56, 180, 204),
        45 => (60, 60, 60),
        46 => (0, 0, 0),
        47 => (0, 0, 0),
        48 => (236, 238, 236),
        49 => (168, 204, 236),
        50 => (188, 188, 236),
        51 => (212, 178, 236),
        52 => (236, 174, 236),
        53 => (236, 174, 212),
        54 => (236, 180, 176),
        55 => (228, 196, 144),
        56 => (204, 210, 120),
        57 => (180, 222, 120),
        58 => (168, 226, 144),
        59 => (152, 226, 180),
        60 => (160, 214, 228),
        61 => (160, 162, 160),
        62 => (0, 0, 0),
        _ => (0, 0, 0),
    }
}

/// One sprite of the coming scanline, with its pattern row already fetched.
#[derive(Clone, Copy)]
pub struct SpriteRow {
    pub x: u8,
    pub palette: u8,
    pub behind: bool,
    pub flip_h: bool,
    pub lo: u8,
    pub hi: u8,
    pub is_zero: bool,
}

/// Whether a coinciding opaque sprite-zero pixel and opaque background
/// pixel at column `px` raise the sprite-zero hit: never at x=255, never
/// with either layer disabled, and not in the clipped left column.
pub open spec fn spec_zero_hit_fires(mask: u8, px: u16) -> bool {
    &&& px != 255
    &&& mask & 0x08 != 0
    &&& mask & 0x10 != 0
    &&& !(px < 8 && mask & 0x06 != 0x06)
}

/// Decide a sprite-zero hit for an overlapping opaque pair at column `px`.
/// The hit never fires at x=255 nor when either layer is disabled.
pub fn sprite_zero_hit_fires(mask: u8, px: u16) -> (r: bool)
    ensures
        r == spec_zero_hit_fires(mask, px),
        r ==> px != 255,
        r ==> mask & 0x08 != 0 && mask & 0x10 != 0,
{
    px != 255 && mask & 0x08 != 0 && mask & 0x10 != 0 && !(px < 8 && mask & 0x06 != 0x06)
}

/// How the sprite-overflow and VBlank writes leave the other status
/// bits, the sprite-zero-hit bit in particular, untouched.
proof fn lemma_status_bits(x: u8)
    by (bit_vector)
    ensures
        (x | 0x20) & 0x40 == x & 0x40,
        (x | 0x80) & 0x40 == x & 0x40,
        (x & 0x1F) & 0x40 == 0,
{
}

/// The picture processing unit.
pub struct Ppu {
    /// $2000 PPUCTRL.
    pub ctrl: u8,
    /// $2001 PPUMASK.
    pub mask: u8,
    /// $2002 PPUSTATUS.
    pub status: u8,
    /// $2003 OAMADDR.
    pub oam_addr: u8,
    /// Loopy current VRAM address (15 bits used).
    pub v: u16,
    /// Loopy temporary VRAM address.
    pub t: u16,
    /// Fine X scroll, 3 bits.
    pub fine_x: u8,
    /// The $2005/$2006 write toggle.
    pub w: bool,
    /// The delayed $2007 read buffer.
    pub read_buffer: u8,
    /// 256 bytes of object attribute memory.
    pub oam: Vec<u8>,
    /// The up-to-eight sprites fetched for the coming scanline.
    pub scanline_sprites: Vec<SpriteRow>,
    /// Current dot, 0-340.
    pub dot: u16,
    /// Current scanline, -1 (pre-render) through 260.
    pub scanline: i32,
    /// NMI line out to the CPU.
    pub nmi_request: bool,
    /// The PPU-side bus: nametables, palette, route to CHR.
    pub bus: PpuIoBus,
    // background fetch latches
    pub nt_byte: u8,
    pub at_byte: u8,
    pub pt_lo: u8,
    pub pt_hi: u8,
    // background shift registers
    pub shift_pt_lo: u16,
    pub shift_pt_hi: u16,
    pub shift_at_lo: u16,
    pub shift_at_hi: u16,
    /// Total dots ever ticked, for stating clock laws.
    pub dots: Ghost<int>,
}

impl Ppu {
    pub open spec fn wf(&self) -> bool {
        &&& self.oam@.len() == 256
        &&& self.scanline_sprites@.len() <= 8
        &&& (forall|i: int|
            0 <= i < self.scanline_sprites@.len() ==> (
            #[trigger] self.scanline_sprites@[i]).palette < 4)
        &&& self.dot <= 340
        &&& -1 <= self.scanline <= 260
        &&& self.fine_x < 8
        &&& self.bus.wf()
    }

    pub fn new() -> (r: Ppu)
        ensures
            r.wf(),
            r.scanline == -1,
            r.dot == 0,
            r.dots@ == 0,
            !r.nmi_request,
            r.status == 0,
            !r.w,
    {
        let mut oam: Vec<u8> = Vec::new();
        let mut i: usize = 0;
        while i < 256
            invariant
                i <= 256,
                oam@.len() == i,
            decreases 256 - i,
        {
            oam.push(0);
            i = i + 1;
        }
        Ppu {
            ctrl: 0,
            mask: 0,
            status: 0,
            oam_addr: 0,
            v: 0,
            t: 0,
            fine_x: 0,
            w: false,
            read_buffer: 0,
            oam,
            scanline_sprites: Vec::new(),
            dot: 0,
            scanline: -1,
            nmi_request: false,
            bus: PpuIoBus::new(),
            nt_byte: 0,
            at_byte: 0,
            pt_lo: 0,
            pt_hi: 0,
            shift_pt_lo: 0,
            shift_pt_hi: 0,
            shift_at_lo: 0,
            shift_at_hi: 0,
            dots: Ghost(0),
        }
    }

    /// Whether either rendering layer is enabled.
    pub fn rendering_enabled(&self) -> (r: bool)
        ensures
            r == (self.mask & 0x18 != 0),
    {
        self.mask & 0x18 != 0
    }

    /// Take the NMI line down after the CPU has sampled it.
    pub fn clear_nmi(&mut self)
        ensures
            *final(self) == (Ppu { nmi_request: false, ..*old(self) }),
    {
        self.nmi_request = false;
    }

    /// Coarse X increment of v, wrapping into the next nametable.
    fn increment_x(&mut self)
        ensures
            *final(self) == (Ppu { v: final(self).v, ..*old(self) }),
    {
        if self.v & 0x001F == 31 {
            self.v = (self.v & 0xFFE0) ^ 0x0400;
        } else {
            self.v = self.v.wrapping_add(1);
        }
    }

    /// Fine/coarse Y increment of v, wrapping into the next nametable.
    fn increment_y(&mut self)
        ensures
            *final(self) == (Ppu { v: final(self).v, ..*old(self) }),
    {
        if self.v & 0x7000 != 0x7000 {
            self.v = self.v.wrapping_add(0x1000);
        } else {
            let mut v = self.v & 0x8FFF;
            let y = (v >> 5) & 0x001F;
            proof {
                crate::bits::lemma_u16_and_le((v >> 5), 0x001F);
            }
            if y == 29 {
                v = (v & 0xFC1F) ^ 0x0800;
            } else if y == 31 {
                v = v & 0xFC1F;
            } else {
                let y2 = (y + 1) & 0x001F;
                v = (v & 0xFC1F) | (y2 << 5);
            }
            self.v = v;
        }
    }

    /// Copy the horizontal bits of t into v (dot 257).
    fn copy_x(&mut self)
        ensures
            *final(self) == (Ppu { v: final(self).v, ..*old(self) }),
            final(self).v == (old(self).v & 0xFBE0) | (old(self).t & 0x041F),
    {
        self.v = (self.v & 0xFBE0) | (self.t & 0x041F);
    }

    /// Copy the vertical bits of t into v (pre-render dots 280-304).
    fn copy_y(&mut self)
        ensures
            *final(self) == (Ppu { v: final(self).v, ..*old(self) }),
            final(self).v == (old(self).v & 0x841F) | (old(self).t & 0x7BE0),
    {
        self.v = (self.v & 0x841F) | (self.t & 0x7BE0);
    }

    /// One dot of the background fetch pipeline: shift, fetch on the
    /// 8-dot cadence, reload the shifters at the start of each tile.
    fn bg_pipeline_step(&mut self, mapper: &Mapper)
        requires
            old(self).wf(),
            mapper.wf(),
            1 <= old(self).dot,
        ensures
            final(self).wf(),
            final(self).dot == old(self).dot,
            final(self).scanline == old(self).scanline,
            final(self).dots == old(self).dots,
            final(self).status == old(self).status,
            final(self).nmi_request == old(self).nmi_request,
            final(self).mask == old(self).mask,
            final(self).scanline_sprites == old(self).scanline_sprites,
    {
        let phase = (self.dot - 1) % 8;
        if phase == 0 {
            // reload the shifters from the latched tile
            self.shift_pt_lo = (self.shift_pt_lo & 0xFF00) | self.pt_lo as u16;
            self.shift_pt_hi = (self.shift_pt_hi & 0xFF00) | self.pt_hi as u16;
            let at_lo: u16 = if self.at_byte & 0x01 != 0 {
                0x00FF
            } else {
                0
            };
            let at_hi: u16 = if self.at_byte & 0x02 != 0 {
                0x00FF
            } else {
                0
            };
            self.shift_at_lo = (self.shift_at_lo & 0xFF00) | at_lo;
            self.shift_at_hi = (self.shift_at_hi & 0xFF00) | at_hi;
        }
        if phase == 1 {
            let vv = self.v;
            proof {
                assert(0x2000 | (vv & 0x0FFF) < 0x4000) by (bit_vector);
            }
            let addr = 0x2000 | (vv & 0x0FFF);
            self.nt_byte = self.bus.read_byte(mapper, addr);
        } else if phase == 3 {
            let vv = self.v;
            proof {
                assert(0x23C0 | (vv & 0x0C00) | ((vv >> 4) & 0x38) | ((vv >> 2) & 0x07) < 0x4000
                    && (((vv >> 4) & 0x04) | (vv & 0x02)) < 8) by (bit_vector);
            }
            let addr = 0x23C0 | (vv & 0x0C00) | ((vv >> 4) & 0x38) | ((vv >> 2) & 0x07);
            let raw = self.bus.read_byte(mapper, addr);
            // pick the quadrant's two attribute bits
            let shift_amt = ((((vv >> 4) & 0x04) | (vv & 0x02))) as u8;
            self.at_byte = (raw >> shift_amt) & 0x03;
        } else if phase == 5 {
            let fine_y = ((self.v >> 12) & 0x07) as u8;
            let table: u16 = if self.ctrl & 0x10 != 0 {
                0x1000
            } else {
                0
            };
            let addr = table + (self.nt_byte as u16) * 16 + fine_y as u16;
            proof {
                let vv = self.v;
                assert((vv >> 12) & 0x07 < 8) by (bit_vector);
            }
            self.pt_lo = self.bus.read_byte(mapper, addr);
        } else if phase == 7 {
            let fine_y = ((self.v >> 12) & 0x07) as u8;
            let table: u16 = if self.ctrl & 0x10 != 0 {
                0x1000
            } else {
                0
            };
            proof {
                let vv = self.v;
                assert((vv >> 12) & 0x07 < 8) by (bit_vector);
            }
            let addr = table + (self.nt_byte as u16) * 16 + fine_y as u16 + 8;
            self.pt_hi = self.bus.read_byte(mapper, addr);
            self.increment_x();
        }
        // the shifters move one bit per dot
        self.shift_pt_lo = self.shift_pt_lo << 1;
        self.shift_pt_hi = self.shift_pt_hi << 1;
        self.shift_at_lo = self.shift_at_lo << 1;
        self.shift_at_hi = self.shift_at_hi << 1;
    }

    /// Scan OAM for the up-to-eight sprites intersecting the next
    /// scanline, fetch their pattern rows, and set sprite overflow on the
    /// ninth. A stored y of 256 (OAM byte 255) intersects nothing.
    fn evaluate_sprites(&mut self, mapper: &Mapper)
        requires
            old(self).wf(),
            mapper.wf(),
            0 <= old(self).scanline <= 239,
        ensures
            final(self).wf(),
            final(self).dot == old(self).dot,
            final(self).scanline == old(self).scanline,
            final(self).dots == old(self).dots,
            final(self).nmi_request == old(self).nmi_request,
            final(self).mask == old(self).mask,
            final(self).status == old(self).status || final(self).status == (old(self).status
                | 0x20),
    {
        let next: u16 = (self.scanline + 1) as u16;
        let height: u16 = if self.ctrl & 0x20 != 0 {
            16
        } else {
            8
        };
        let mut found: Vec<SpriteRow> = Vec::new();
        let mut i: usize = 0;
        let mut overflow = false;
        while i < 64
            invariant
                i <= 64,
                found@.len() <= 8,
                forall|k: int|
                    0 <= k < found@.len() ==> (#[trigger] found@[k]).palette < 4,
                self.oam@.len() == 256,
                self.wf(),
                mapper.wf(),
                height == 8 || height == 16,
            decreases 64 - i,
        {
            let data: Vec<u8> = vec![
                self.oam[i * 4],
                self.oam[i * 4 + 1],
                self.oam[i * 4 + 2],
                self.oam[i * 4 + 3],
            ];
            let sprite = Sprite::from(data.as_slice(), i as u8);
            if next >= sprite.y && next < sprite.y + height {
                if found.len() == 8 {
                    overflow = true;
                } else {
                    let mut row: u16 = next - sprite.y;
                    if sprite.flip_v() {
                        row = (height - 1) - row;
                    }
                    let (table, tile, fine): (u16, u8, u16) = if height == 16 {
                        (
                            sprite.pattern_table_8x16(),
                            if row >= 8 {
                                sprite.tile_number_8x16() | 0x01
                            } else {
                                sprite.tile_number_8x16()
                            },
                            row % 8,
                        )
                    } else {
                        (
                            if self.ctrl & 0x08 != 0 {
                                0x1000u16
                            } else {
                                0u16
                            },
                            sprite.tile,
                            row % 8,
                        )
                    };
                    proof {
                        crate::bits::lemma_u8_and_le(sprite.tile, 0x01);
                        assert(table <= 0x1000);
                        assert(fine < 8);
                    }
                    let addr = table + (tile as u16) * 16 + fine;
                    let lo = mapper.read_chr(addr);
                    let hi = mapper.read_chr(addr + 8);
                    let pal = sprite.palette();
                    proof {
                        crate::bits::lemma_u8_and_le(sprite.attr, 0x03);
                    }
                    found.push(
                        SpriteRow {
                            x: sprite.x,
                            palette: pal,
                            behind: sprite.priority(),
                            flip_h: sprite.flip_h(),
                            lo,
                            hi,
                            is_zero: i == 0,
                        },
                    );
                }
            }
            i = i + 1;
        }
        self.scanline_sprites = found;
        if overflow {
            self.status = self.status | 0x20;
        }
    }

    /// The background pixel at the current dot: color 0-3 and palette 0-3,
    /// from the shift registers under fine X. Zero when the layer is off
    /// or clipped.
    fn background_pixel(&self, px: u16) -> (r: (u8, u8))
        requires
            self.wf(),
        ensures
            r.0 < 4,
            r.1 < 4,
    {
        if self.mask & 0x08 == 0 || (px < 8 && self.mask & 0x02 == 0) {
            return (0, 0);
        }
        let bit: u16 = (15 - self.fine_x) as u16;
        let p0 = ((self.shift_pt_lo >> bit) & 1) as u8;
        let p1 = ((self.shift_pt_hi >> bit) & 1) as u8;
        let a0 = ((self.shift_at_lo >> bit) & 1) as u8;
        let a1 = ((self.shift_at_hi >> bit) & 1) as u8;
        proof {
            let lo = self.shift_pt_lo;
            let hi = self.shift_pt_hi;
            let alo = self.shift_at_lo;
            let ahi = self.shift_at_hi;
            let b = bit;
            assert((lo >> b) & 1 < 2 && (hi >> b) & 1 < 2 && (alo >> b) & 1 < 2 && (ahi >> b) & 1
                < 2) by (bit_vector);
        }
        (p1 * 2 + p0, a1 * 2 + a0)
    }

    /// The first opaque sprite pixel at the current dot, if any: the
    /// sprite-row index, the color 1-3, and whether it is sprite zero.
    fn sprite_pixel(&self, px: u16) -> (r: Option<(usize, u8)>)
        requires
            self.wf(),
        ensures
            match r {
                Some((idx, c)) => idx < self.scanline_sprites@.len() && 1 <= c < 4,
                None => true,
            },
    {
        if self.mask & 0x10 == 0 || (px < 8 && self.mask & 0x04 == 0) {
            return None;
        }
        let n = self.scanline_sprites.len();
        let mut i: usize = 0;
        while i < n
            invariant
                i <= n,
                n == self.scanline_sprites@.len(),
                self.wf(),
            decreases n - i,
        {
            let s = self.scanline_sprites[i];
            let sx = s.x as u16;
            if px >= sx && px < sx + 8 {
                let offset = (px - sx) as u8;
                let bit: u8 = if s.flip_h {
                    offset
                } else {
                    7 - offset
                };
                let c0 = (s.lo >> bit) & 1;
                let c1 = (s.hi >> bit) & 1;
                proof {
                    let lo = s.lo;
                    let hi = s.hi;
                    let b = bit;
                    assert((lo >> b) & 1 < 2 && (hi >> b) & 1 < 2) by (bit_vector);
                }
                let c = c1 * 2 + c0;
                if c != 0 {
                    return Some((i, c));
                }
            }
            i = i + 1;
        }
        None
    }

    /// Compose the pixel at the current dot: background vs. sprite by
    /// priority, sprite-zero hit on an opaque overlap, palette lookup.
    fn render_pixel(&mut self, mapper: &Mapper) -> (r: Pixel)
        requires
            old(self).wf(),
            mapper.wf(),
            1 <= old(self).dot <= 256,
        ensures
            final(self).wf(),
            final(self).dot == old(self).dot,
            final(self).scanline == old(self).scanline,
            final(self).dots == old(self).dots,
            final(self).nmi_request == old(self).nmi_request,
            // the status byte can only gain the sprite-zero-hit bit here,
            // and only where the decision function allows a hit
            final(self).status == old(self).status || (final(self).status == (old(self).status
                | 0x40) && spec_zero_hit_fires(old(self).mask, (old(self).dot - 1) as u16)),
    {
        let px: u16 = self.dot - 1;
        let (bg_color, bg_pal) = self.background_pixel(px);
        let sp = self.sprite_pixel(px);
        let mut pal_addr: u16 = 0x3F00;
        match sp {
            Some((idx, sp_color)) => {
                let s = self.scanline_sprites[idx];
                if bg_color == 0 {
                    pal_addr = 0x3F10 + (s.palette as u16) * 4 + sp_color as u16;
                } else {
                    // opaque overlap: sprite zero hit
                    if s.is_zero && sprite_zero_hit_fires(self.mask, px) {
                        self.status = self.status | 0x40;
                    }
                    if s.behind {
                        pal_addr = 0x3F00 + (bg_pal as u16) * 4 + bg_color as u16;
                    } else {
                        pal_addr = 0x3F10 + (s.palette as u16) * 4 + sp_color as u16;
                    }
                }
            },
            None => {
                if bg_color != 0 {
                    pal_addr = 0x3F00 + (bg_pal as u16) * 4 + bg_color as u16;
                }
            },
        }
        let base = self.bus.read_byte(mapper, pal_addr);
        proof {
            let b = base;
            assert(b & 0x30 < 64 && b & 0x3F < 64) by (bit_vector);
        }
        let idx = if self.mask & 0x01 != 0 {
            base & 0x30
        } else {
            base & 0x3F
        };
        palette_rgb(idx)
    }

    /// Advance one dot. Returns the rendered pixel on the visible dots.
    /// The dot counter wraps 340 to 0 into the next scanline; scanline 260
    /// wraps to the pre-render line -1.
    pub fn tick(&mut self, mapper: &mut Mapper) -> (r: Option<Pixel>)
        requires
            old(self).wf(),
            old(mapper).wf(),
        ensures
            final(self).wf(),
            final(mapper).wf(),
            final(self).dots@ == old(self).dots@ + 1,
            old(self).dot < 340 ==> final(self).dot == old(self).dot + 1 && final(self).scanline
                == old(self).scanline,
            old(self).dot == 340 ==> final(self).dot == 0 && final(self).scanline == (if old(
                self,
            ).scanline == 260 {
                -1
            } else {
                old(self).scanline + 1
            }),
            r is Some <==> (0 <= old(self).scanline <= 239 && 1 <= old(self).dot <= 256),
            // the sprite-zero-hit bit is gained only where the hit rule
            // of `spec_zero_hit_fires` allows it
            final(self).status & 0x40 != 0 ==> old(self).status & 0x40 != 0
                || spec_zero_hit_fires(old(self).mask, (old(self).dot - 1) as u16),
            // the NMI line rises only at dot 1 of scanline 241 with
            // NMI-enable set
            final(self).nmi_request ==> old(self).nmi_request || (old(self).scanline == 241
                && old(self).dot == 1 && old(self).ctrl & 0x80 != 0),
            old(self).scanline == 241 && old(self).dot == 1 ==> final(self).status & 0x80 != 0
                && (old(self).ctrl & 0x80 != 0 ==> final(self).nmi_request),
            // dot 1 of the pre-render line clears VBlank, zero hit, overflow
            old(self).scanline == -1 && old(self).dot == 1 ==> final(self).status & 0xE0 == 0,
    {
        let sl = self.scanline;
        let d = self.dot;
        let visible = 0 <= sl && sl <= 239;
        let prerender = sl == -1;
        let rendering = self.rendering_enabled();

        // pixel output happens before the shifters move
        let out: Option<Pixel> = if visible && 1 <= d && d <= 256 {
            Some(self.render_pixel(mapper))
        } else {
            None
        };

        if (visible || prerender) && rendering {
            if (1 <= d && d <= 256) || (321 <= d && d <= 336) {
                self.bg_pipeline_step(mapper);
            }
            if d == 256 {
                self.increment_y();
            }
            if d == 257 {
                self.copy_x();
            }
            if prerender && 280 <= d && d <= 304 {
                self.copy_y();
            }
            if d == 260 {
                // end of the visible part of the line: boards with a
                // scanline counter observe it
                mapper.clock_scanline();
            }
        }
        if visible && d == 257 {
            self.evaluate_sprites(mapper);
        }
        if sl == 241 && d == 1 {
            let st = self.status;
            proof {
                assert((st | 0x80) & 0x80 != 0) by (bit_vector);
            }
            self.status = st | 0x80;
            if self.ctrl & 0x80 != 0 {
                self.nmi_request = true;
            }
        }
        if prerender && d == 1 {
            let st = self.status;
            proof {
                assert((st & 0x1F) & 0xE0 == 0) by (bit_vector);
            }
            self.status = st & 0x1F;
        }

        proof {
            lemma_status_bits(old(self).status);
            lemma_status_bits((old(self).status | 0x40) as u8);
        }
        // advance the dot/scanline counters
        self.dots = Ghost(self.dots@ + 1);
        if self.dot < 340 {
            self.dot = self.dot + 1;
        } else {
            self.dot = 0;
            if self.scanline == 260 {
                self.scanline = -1;
            } else {
                self.scanline = self.scanline + 1;
            }
        }
        out
    }

    /// A CPU read of register `idx` ($2000 + idx, mirrored every 8).
    /// Reading $2002 returns the status byte and clears both the VBlank
    /// flag and the $2005/$2006 write toggle.
    pub fn read_register(&mut self, mapper: &Mapper, idx: u16) -> (r: u8)
        requires
            idx < 8,
            old(self).wf(),
            mapper.wf(),
        ensures
            final(self).wf(),
            idx == 2 ==> {
                &&& r == old(self).status
                &&& final(self).status == old(self).status & 0x7F
                &&& final(self).w == false
            },
            idx == 4 ==> r == old(self).oam@[old(self).oam_addr as int] && *final(self) == *old(
                self,
            ),
            idx == 7 ==> {
                &&& final(self).v == (old(self).v.wrapping_add(
                    if old(self).ctrl & 0x04 != 0 {
                        32u16
                    } else {
                        1u16
                    },
                ) & 0x7FFF)
                &&& final(self).w == old(self).w
                &&& ((old(self).v & 0x3FFF) < 0x3F00 ==> r == old(self).read_buffer)
                &&& ((old(self).v & 0x3FFF) >= 0x3F00 ==> r == old(self).bus.palette_ram@[(old(
                    self,
                ).v & 0x3FFF) - 0x3F00])
            },
            final(self).dot == old(self).dot,
            final(self).scanline == old(self).scanline,
            final(self).dots == old(self).dots,
    {
        if idx == 2 {
            let r = self.status;
            self.status = self.status & 0x7F;
            self.w = false;
            r
        } else if idx == 4 {
            self.oam[self.oam_addr as usize]
        } else if idx == 7 {
            let addr = self.v & 0x3FFF;
            proof {
                crate::bits::lemma_u16_and_le(self.v, 0x3FFF);
            }
            let r = if addr >= 0x3F00 {
                // palette reads bypass the buffer
                let direct = self.bus.read_byte(mapper, addr);
                self.read_buffer = direct;
                direct
            } else {
                let buffered = self.read_buffer;
                self.read_buffer = self.bus.read_byte(mapper, addr);
                buffered
            };
            let inc: u16 = if self.ctrl & 0x04 != 0 {
                32
            } else {
                1
            };
            self.v = self.v.wrapping_add(inc) & 0x7FFF;
            r
        } else {
            0
        }
    }

    /// A CPU write to register `idx` ($2000 + idx, mirrored every 8).
    /// $2005 and $2006 alternate between two phases: the write toggle
    /// flips on every one of their writes. Setting NMI-enable while the
    /// VBlank flag is set asserts NMI immediately.
    pub fn write_register(&mut self, mapper: &mut Mapper, idx: u16, data: u8)
        requires
            idx < 8,
            old(self).wf(),
            old(mapper).wf(),
        ensures
            final(self).wf(),
            final(mapper).wf(),
            idx == 0 ==> {
                &&& final(self).ctrl == data
                &&& (data & 0x80 != 0 && old(self).status & 0x80 != 0 ==> final(self).nmi_request)
                &&& final(self).w == old(self).w
            },
            idx == 1 ==> final(self).mask == data && final(self).w == old(self).w,
            idx == 3 ==> final(self).oam_addr == data,
            idx == 4 ==> {
                &&& final(self).oam@ == old(self).oam@.update(old(self).oam_addr as int, data)
                &&& final(self).oam_addr == old(self).oam_addr.wrapping_add(1)
            },
            idx == 5 || idx == 6 ==> final(self).w == !old(self).w,
            idx != 7 ==> *final(mapper) == *old(mapper),
            final(self).dot == old(self).dot,
            final(self).scanline == old(self).scanline,
            final(self).dots == old(self).dots,
            final(self).status == old(self).status,
    {
        if idx == 0 {
            self.ctrl = data;
            self.t = (self.t & 0xF3FF) | (((data & 0x03) as u16) << 10);
            if data & 0x80 != 0 && self.status & 0x80 != 0 {
                self.nmi_request = true;
            }
        } else if idx == 1 {
            self.mask = data;
        } else if idx == 3 {
            self.oam_addr = data;
        } else if idx == 4 {
            let i = self.oam_addr as usize;
            self.oam[i] = data;
            self.oam_addr = self.oam_addr.wrapping_add(1);
        } else if idx == 5 {
            if !self.w {
                proof {
                    crate::bits::lemma_u8_and_le(data, 0x07);
                }
                self.fine_x = data & 0x07;
                self.t = (self.t & 0xFFE0) | ((data >> 3) as u16);
            } else {
                self.t = (self.t & 0x8C1F) | (((data & 0x07) as u16) << 12) | (((data
                    >> 3) as u16) << 5);
            }
            self.w = !self.w;
        } else if idx == 6 {
            if !self.w {
                self.t = (self.t & 0x00FF) | (((data & 0x3F) as u16) << 8);
            } else {
                self.t = (self.t & 0xFF00) | (data as u16);
                self.v = self.t;
            }
            self.w = !self.w;
        } else if idx == 7 {
            let addr = self.v & 0x3FFF;
            proof {
                crate::bits::lemma_u16_and_le(self.v, 0x3FFF);
            }
            self.bus.write_byte(mapper, addr, data);
            let inc: u16 = if self.ctrl & 0x04 != 0 {
                32
            } else {
                1
            };
            self.v = self.v.wrapping_add(inc) & 0x7FFF;
        }
    }

    /// Read VRAM directly, for inspection, with the routing of the PPU
    /// bus: CHR below $2000, mirrored nametable RAM, palette RAM on top.
    pub fn read_vram(&self, mapper: &Mapper, addr: u16) -> (r: u8)
        requires
            self.wf(),
            mapper.wf(),
            addr < 0x4000,
        ensures
            addr < 0x2000 ==> r == mapper.chr@[mapper.spec_chr_bank_for(addr)
                * crate::mapper::spec_chr_bank_size(mapper.kind) + mapper.spec_chr_off(addr)],
            0x2000 <= addr < 0x3000 ==> r == self.bus.nametable_ram@[
                crate::ppu_bus::spec_calc_nametable_addr(addr, self.bus.vertical_mirroring)
                    - 0x2000],
            0x3000 <= addr < 0x3F00 ==> r == self.bus.nametable_ram@[
                crate::ppu_bus::spec_calc_nametable_addr(
                    (addr - 0x1000) as u16,
                    self.bus.vertical_mirroring,
                ) - 0x2000],
            0x3F00 <= addr ==> r == self.bus.palette_ram@[addr - 0x3F00],
    {
        self.bus.read_byte(mapper, addr)
    }

    /// Read a tile index out of the given nametable.
    pub fn read_tile(&self, nametable: u16, x: usize, y: usize) -> (r: u8)
        requires
            self.wf(),
            0x2000 <= nametable <= 0x2C00,
            x < 32,
            y < 30,
        ensures
            r == self.bus.nametable_ram@[crate::ppu_bus::spec_calc_nametable_addr(
                (nametable + y * 32 + x) as u16,
                self.bus.vertical_mirroring,
            ) - 0x2000],
    {
        let addr = nametable + (y * 32 + x) as u16;
        let m = crate::ppu_bus::calc_nametable_addr(addr, self.bus.vertical_mirroring);
        self.bus.nametable_ram[(m - 0x2000) as usize]
    }
}

} // verus!
