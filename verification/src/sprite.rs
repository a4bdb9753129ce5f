//! A sprite as read out of OAM: four bytes giving y, tile, attributes and x.
//!
//! The stored y is the OAM byte plus one: a stored 255 therefore places the
//! sprite at line 256, off the visible screen.

use vstd::prelude::*;

verus! {

/// One OAM entry, decoded.
#[derive(Default, Copy, Clone)]
pub struct Sprite {
    /// Scanline of the sprite's top row: the OAM byte plus one.
    pub y: u16,
    /// Leftmost screen column.
    pub x: u8,
    /// Tile index.
    pub tile: u8,
    /// Raw attribute byte: palette, priority and flip bits.
    pub attr: u8,
    /// Index of the entry in OAM (0 is the sprite-zero-hit sprite).
    pub num: u8,
}

impl Sprite {
    /// Decode the four OAM bytes at the head of `data`.
    pub fn from(data: &[u8], num: u8) -> (r: Sprite)
        requires
            data@.len() >= 4,
        ensures
            r.y == data@[0] + 1,
            r.x == data@[3],
            r.tile == data@[1],
            r.attr == data@[2],
            r.num == num,
    {
        Sprite { y: (data[0] as u16) + 1, x: data[3], tile: data[1], attr: data[2], num }
    }

    /// Palette index: attribute bits 0-1.
    pub fn palette(&self) -> (r: u8)
        ensures
            r == self.attr & 0x03,
    {
        self.attr & 0x03
    }

    /// Behind-background priority: attribute bit 5.
    pub fn priority(&self) -> (r: bool)
        ensures
            r == (self.attr & 0x20 != 0),
    {
        proof {
            crate::bits::lemma_bit_values();
        }
        crate::bits::bit_is_set(self.attr, 5)
    }

    /// Vertical flip: attribute bit 7.
    pub fn flip_v(&self) -> (r: bool)
        ensures
            r == (self.attr & 0x80 != 0),
    {
        proof {
            crate::bits::lemma_bit_values();
        }
        crate::bits::bit_is_set(self.attr, 7)
    }

    /// Horizontal flip: attribute bit 6.
    pub fn flip_h(&self) -> (r: bool)
        ensures
            r == (self.attr & 0x40 != 0),
    {
        proof {
            crate::bits::lemma_bit_values();
        }
        crate::bits::bit_is_set(self.attr, 6)
    }

    /// In 8x16 mode the tile byte's low bit selects the pattern table.
    pub fn pattern_table_8x16(&self) -> (r: u16)
        ensures
            r == (self.tile & 0x01) as u16 * 0x1000,
    {
        let t = self.tile;
        proof {
            assert(t & 0x01 <= 1) by (bit_vector);
        }
        (t & 0x01) as u16 * 0x1000
    }

    /// In 8x16 mode the remaining tile bits address a pair of tiles.
    pub fn tile_number_8x16(&self) -> (r: u8)
        ensures
            r == self.tile & 0xFE,
    {
        self.tile & 0xFE
    }
}

} // verus!
