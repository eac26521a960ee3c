//! Video RAM: 8 KiB holding the two overlapping tile sets and the two
//! 32x32 tile maps, with the tile-row and tile-number lookups the
//! rasterizer builds on.  Tile set 1 starts at offset 0x0000 with
//! unsigned tile indices; tile set 0 has its origin at offset 0x1000 and
//! indices are signed, so its high half coincides with tile set 1's.

use vstd::prelude::*;

use crate::gpu::TileMap;
use crate::gpu::TileSet;
use crate::memory::BlockMemory;
use crate::memory::BlockMemoryView;
use crate::memory::Memory;
use crate::memory::spec_zero_block;

verus! {

pub const OFFSET_TILE_SET_1: u16 = 0x0000;

/// Offset of the 0th tile of tile set 0; negative indices reach below it.
pub const OFFSET_TILE_SET_0: u16 = 0x1000;

pub const OFFSET_TILE_MAP_0: u16 = 0x1800;

pub const OFFSET_TILE_MAP_1: u16 = 0x1C00;

pub const TILE_SIZE_IN_BYTES: u16 = 0x10;

/// One row of a tile: the two bytes whose bits interleave into eight
/// 2-bit pixels.
#[derive(Clone, Copy, PartialEq, Eq, Structural, Debug)]
pub struct TileRow {
    pub low_bits: u8,
    pub high_bits: u8,
}

/// Raw pixel value at column `x` of a tile row: bit 7-x of the low byte
/// is the low bit, the same bit of the high byte the high bit.
pub open spec fn spec_row_pixel(row: TileRow, x: u8) -> u8 {
    ((if row.low_bits & (0x80u8 >> x) != 0 {
        1int
    } else {
        0int
    }) + (if row.high_bits & (0x80u8 >> x) != 0 {
        2int
    } else {
        0int
    })) as u8
}

impl TileRow {
    /// Decode the pixel at column `x` (0 is leftmost).
    pub fn get_pixel(&self, x: u8) -> (r: u8)
        requires
            x < 8,
        ensures
            r == spec_row_pixel(*self, x),
            r < 4,
    {
        let mut pixel: u8 = 0;
        if self.low_bits & (0x80u8 >> x) != 0 {
            pixel = pixel + 1;
        }
        if self.high_bits & (0x80u8 >> x) != 0 {
            pixel = pixel + 2;
        }
        pixel
    }
}

/// Byte offset into VRAM of row `line_num` of tile `tile_num` in the
/// given tile set; set 0 interprets the index as signed around its
/// 0x1000 origin, which lands the high indices in set 1's high half.
pub open spec fn spec_tile_row_address(tile_set: TileSet, tile_num: u8, line_num: u8) -> int {
    let tile_base: int = match tile_set {
        TileSet::Set0 => if tile_num < 0x80 {
            0x1000 + (tile_num as int) * 16
        } else {
            (tile_num as int) * 16
        },
        TileSet::Set1 => (tile_num as int) * 16,
    };
    tile_base + (line_num as int) * 2
}

/// The two bytes of a tile row, as stored.
pub open spec fn spec_tile_row(v: BlockMemoryView, tile_set: TileSet, tile_num: u8, line_num: u8) -> TileRow {
    let address = spec_tile_row_address(tile_set, tile_num, line_num);
    TileRow { low_bits: v.read(address), high_bits: v.read(address + 1) }
}

/// The tile index stored at (row, col) of a tile map.
pub open spec fn spec_tile_num(v: BlockMemoryView, tile_map: TileMap, row: u8, col: u8) -> u8 {
    let base: int = match tile_map {
        TileMap::Map0 => 0x1800,
        TileMap::Map1 => 0x1C00,
    };
    v.read(base + (row as int) * 32 + col as int)
}

/// The PPU's video RAM.
pub struct Vram {
    pub memory: BlockMemory,
}

impl View for Vram {
    type V = BlockMemoryView;

    open spec fn view(&self) -> BlockMemoryView {
        self.memory@
    }
}

impl Vram {
    pub fn new() -> (r: Vram)
        ensures
            r@ == spec_zero_block(0x2000),
    {
        let memory = BlockMemory::new(0x2000);
        proof {
            assert(memory@.bytes =~= spec_zero_block(0x2000).bytes);
        }
        Vram { memory }
    }

    /// Fetch row `line_num` of tile `tile_num` from a tile set.
    pub fn get_tile_row(&self, tile_set: TileSet, tile_num: u8, line_num: u8) -> (r: TileRow)
        ensures
            r == spec_tile_row(self@, tile_set, tile_num, line_num),
    {
        let tile_base: u16 = match tile_set {
            TileSet::Set0 => if tile_num < 0x80 {
                0x1000 + (tile_num as u16) * 16
            } else {
                (tile_num as u16) * 16
            },
            TileSet::Set1 => (tile_num as u16) * 16,
        };
        let address = tile_base + (line_num as u16) * 2;
        TileRow {
            low_bits: self.memory.read_byte_usize(address as usize),
            high_bits: self.memory.read_byte_usize(address as usize + 1),
        }
    }

    /// Look the tile index up at (row, col) of a tile map.
    pub fn get_tile_num(&self, tile_map: TileMap, row: u8, col: u8) -> (r: u8)
        ensures
            r == spec_tile_num(self@, tile_map, row, col),
    {
        let base: u16 = match tile_map {
            TileMap::Map0 => 0x1800,
            TileMap::Map1 => 0x1C00,
        };
        let offset = base + (row as u16) * 32 + col as u16;
        self.memory.read_byte_usize(offset as usize)
    }
}

impl Memory for Vram {
    open spec fn spec_read_v(v: BlockMemoryView, address: u16) -> u8 {
        v.read(address as int)
    }

    open spec fn spec_write_v(v: BlockMemoryView, address: u16, value: u8) -> BlockMemoryView {
        v.write(address as int, value)
    }

    open spec fn spec_in_bios_v(v: BlockMemoryView) -> bool {
        false
    }

    open spec fn spec_leave_bios_v(v: BlockMemoryView) -> BlockMemoryView {
        v
    }

    open spec fn spec_inv(v: BlockMemoryView) -> bool {
        true
    }

    fn read_byte(&self, address: u16) -> (r: u8)
        ensures
            r == Self::spec_read_v(self@, address),
    {
        self.memory.read_byte_usize(address as usize)
    }

    fn write_byte(&mut self, address: u16, value: u8)
        ensures
            final(self)@ == Self::spec_write_v(old(self)@, address, value),
    {
        self.memory.write_byte_usize(address as usize, value);
    }

    fn in_bios(&self) -> (r: bool)
        ensures
            r == Self::spec_in_bios_v(self@),
    {
        false
    }

    fn leave_bios(&mut self)
        ensures
            final(self)@ == Self::spec_leave_bios_v(old(self)@),
    {
    }
}

} // verus!
