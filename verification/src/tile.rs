//! Tiles: an 8x8 (or, for tall sprites, 8x16) block of 2-bit pixels, with
//! optional horizontal and vertical flips, and the iterator that walks a
//! tile map along a scanline.

use vstd::prelude::*;

use crate::gpu::TileMap;
use crate::gpu::TileSet;
use crate::memory::BlockMemoryView;
use crate::sprite::SpriteAttribute;
use crate::vram::Vram;
use crate::vram::spec_row_pixel;
use crate::vram::spec_tile_num;
use crate::vram::spec_tile_row;

verus! {

#[derive(Clone, Copy, PartialEq, Eq, Debug)]
pub struct Tile {
    pub tile_num: u8,
    pub tile_set: TileSet,
    pub x_flip: bool,
    pub y_flip: bool,
    pub large_tile: bool,
}

/// A plain background/window tile: no flips, single height.
pub open spec fn spec_plain_tile(tile_num: u8, tile_set: TileSet) -> Tile {
    Tile { tile_num, tile_set, x_flip: false, y_flip: false, large_tile: false }
}

/// Raw pixel value of a tile at (x, y), flips applied; sprites always
/// index tile set 1.
pub open spec fn spec_tile_color(t: Tile, v: BlockMemoryView, x: u8, y: u8) -> u8 {
    let x2: u8 = if t.x_flip {
        (7 - x) as u8
    } else {
        x
    };
    let y2: u8 = if t.y_flip {
        if t.large_tile {
            (15 - y) as u8
        } else {
            (7 - y) as u8
        }
    } else {
        y
    };
    spec_row_pixel(spec_tile_row(v, t.tile_set, t.tile_num, y2), x2)
}

impl Tile {
    pub fn new(tile_num: u8, tile_set: TileSet) -> (r: Tile)
        ensures
            r == spec_plain_tile(tile_num, tile_set),
    {
        Tile { tile_num, tile_set, x_flip: false, y_flip: false, large_tile: false }
    }

    /// The tile a sprite entry names, carrying the sprite's flips.
    pub fn from_sprite(sprite: &SpriteAttribute) -> (r: Tile)
        ensures
            r == (Tile {
                tile_num: sprite.tile_num,
                tile_set: TileSet::Set1,
                x_flip: sprite.x_flip,
                y_flip: sprite.y_flip,
                large_tile: sprite.large_sprite,
            }),
    {
        Tile {
            tile_num: sprite.get_tile_num(),
            tile_set: TileSet::Set1,
            x_flip: sprite.has_x_flip(),
            y_flip: sprite.has_y_flip(),
            large_tile: sprite.is_large_sprite(),
        }
    }

    /// Raw pixel value at (x, y) of this tile.
    pub fn get_color(&self, x: u8, y: u8, vram: &Vram) -> (r: u8)
        requires
            x < 8,
            self.large_tile ==> y < 16,
            !self.large_tile ==> y < 8,
        ensures
            r == spec_tile_color(*self, vram@, x, y),
            r < 4,
    {
        let x = if self.x_flip {
            7 - x
        } else {
            x
        };
        let y = if self.y_flip {
            if self.large_tile {
                15 - y
            } else {
                7 - y
            }
        } else {
            y
        };
        let tile_row = vram.get_tile_row(self.tile_set, self.tile_num, y);
        tile_row.get_pixel(x)
    }
}

/// Walks one row of a tile map pixel by pixel: `bg_x` is the layer
/// coordinate, `tile_x` its offset inside the current tile, and
/// `tile_num` the map entry for the current tile.
#[derive(Clone, Copy, PartialEq, Eq, Debug)]
pub struct TileIterator {
    pub bg_x: u8,
    pub tile_x: u8,
    pub tile_y: u8,
    pub tile_num: u8,
    pub tile_map: TileMap,
}

/// The iterator positioned at layer coordinates (x, y).
pub open spec fn spec_tile_iter_at(tile_map: TileMap, x: u8, y: u8, v: BlockMemoryView) -> TileIterator {
    TileIterator {
        bg_x: x,
        tile_x: (x % 8) as u8,
        tile_y: y,
        tile_num: spec_tile_num(v, tile_map, (y / 8) as u8, (x / 8) as u8),
        tile_map,
    }
}

/// One step of the iterator: move a pixel right and refetch the map entry
/// on a tile boundary.
pub open spec fn spec_tile_iter_next(it: TileIterator, v: BlockMemoryView) -> TileIterator {
    let tile_x = it.tile_x.wrapping_add(1) % 8;
    let bg_x = it.bg_x.wrapping_add(1);
    if tile_x == 0 {
        spec_tile_iter_at(it.tile_map, bg_x, it.tile_y, v)
    } else {
        TileIterator { bg_x, tile_x, ..it }
    }
}

/// Advancing the iterator from position x lands it at position x+1
/// (wrapping around the 256-pixel layer).
pub proof fn lemma_tile_iter_step(tile_map: TileMap, x: u8, y: u8, v: BlockMemoryView)
    ensures
        spec_tile_iter_next(spec_tile_iter_at(tile_map, x, y, v), v) == spec_tile_iter_at(
            tile_map,
            x.wrapping_add(1),
            y,
            v,
        ),
{
    let it = spec_tile_iter_at(tile_map, x, y, v);
    let tile_x = it.tile_x.wrapping_add(1) % 8;
    if tile_x != 0 {
        assert(x < 0xFF) by {
            if x == 0xFF {
                assert((x % 8 + 1) % 8 == 0);
            }
        }
        assert((x + 1) / 8 == x / 8) by {
            assert(x % 8 + 1 < 8);
        }
    }
}

impl TileIterator {
    pub fn new(x: u8, y: u8, tile_map: TileMap, vram: &Vram) -> (r: TileIterator)
        ensures
            r == spec_tile_iter_at(tile_map, x, y, vram@),
    {
        let row = y / 8;
        let col = x / 8;
        let tile_num = vram.get_tile_num(tile_map, row, col);
        TileIterator { bg_x: x, tile_x: x % 8, tile_y: y, tile_num, tile_map }
    }

    pub fn next(&mut self, vram: &Vram)
        ensures
            *final(self) == spec_tile_iter_next(*old(self), vram@),
    {
        self.tile_x = self.tile_x.wrapping_add(1) % 8;
        self.bg_x = self.bg_x.wrapping_add(1);
        if self.tile_x == 0 {
            *self = TileIterator::new(self.bg_x, self.tile_y, self.tile_map, vram);
        }
    }

    /// The raw pixel value under the iterator, in the given tile set.
    pub fn get_pixel_color(&self, tile_set: TileSet, vram: &Vram) -> (r: u8)
        ensures
            r == spec_tile_color(
                spec_plain_tile(self.tile_num, tile_set),
                vram@,
                (self.tile_x % 8) as u8,
                (self.tile_y % 8) as u8,
            ),
            r < 4,
    {
        let tile = Tile::new(self.tile_num, tile_set);
        tile.get_color(self.tile_x % 8, self.tile_y % 8, vram)
    }
}

} // verus!
