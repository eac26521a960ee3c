//! Sprite attributes: the 4-byte OAM entries (y with +16 bias, x with +8
//! bias, tile index, flag byte) decoded into plain values, and the
//! per-column pixel a sprite contributes to a scanline.

use vstd::prelude::*;

use crate::memory::BlockMemory;
use crate::memory::BlockMemoryView;
use crate::palette::Palette;

verus! {

/// Entries in the sprite attribute table.
pub const NUM_SPRITES: usize = 40;

/// The contribution of the sprite layer to one screen column: the raw
/// pixel value and palette when a sprite covers it, and the sprite's
/// "in front of the background" flag.
#[derive(Clone, Copy, PartialEq, Eq, Debug)]
pub struct SpritePixel {
    pub pixel: Option<u8>,
    pub palette: Option<Palette>,
    pub priority: bool,
}

/// One decoded OAM entry.
#[derive(Clone, Copy, PartialEq, Eq, Debug)]
pub struct SpriteAttribute {
    pub x_position: u8,
    pub y_position: u8,
    pub tile_num: u8,
    pub large_sprite: bool,
    /// Bit 7 clear in the flag byte: the sprite shows over the background.
    pub priority: bool,
    pub x_flip: bool,
    pub y_flip: bool,
    pub palette: Palette,
}

/// Decode a 4-byte OAM entry; in 8x16 mode the tile index's low bit is
/// forced to zero.
pub open spec fn spec_sprite_from_bytes(
    b0: u8,
    b1: u8,
    b2: u8,
    b3: u8,
    large_sprite: bool,
) -> SpriteAttribute {
    SpriteAttribute {
        x_position: b1,
        y_position: b0,
        tile_num: if large_sprite {
            b2 & 0xFE
        } else {
            b2
        },
        large_sprite,
        priority: b3 & 0x80 == 0,
        x_flip: b3 & 0x20 != 0,
        y_flip: b3 & 0x40 != 0,
        palette: if b3 & 0x10 != 0 {
            Palette::ObjectPalette1
        } else {
            Palette::ObjectPalette0
        },
    }
}

/// All forty sprite entries as the OAM bytes decode them.
pub open spec fn spec_sprites_from_oam(oam: BlockMemoryView, large_sprites: bool) -> Seq<
    SpriteAttribute,
> {
    Seq::new(
        NUM_SPRITES as nat,
        |i: int| spec_sprite_from_bytes(
            oam.read(4 * i),
            oam.read(4 * i + 1),
            oam.read(4 * i + 2),
            oam.read(4 * i + 3),
            large_sprites,
        ),
    )
}

impl SpriteAttribute {
    /// Decode one 4-byte OAM entry.
    pub fn from_memory(memory: [u8; 4], large_sprite: bool) -> (r: SpriteAttribute)
        ensures
            r == spec_sprite_from_bytes(memory[0], memory[1], memory[2], memory[3], large_sprite),
    {
        let x_position = memory[1];
        let y_position = memory[0];
        let tile_num = if large_sprite {
            memory[2] & 0xFE
        } else {
            memory[2]
        };
        let flags = memory[3];
        let priority = flags & 0x80 == 0;
        let x_flip = flags & 0x20 != 0;
        let y_flip = flags & 0x40 != 0;
        let palette = if flags & 0x10 != 0 {
            Palette::ObjectPalette1
        } else {
            Palette::ObjectPalette0
        };
        SpriteAttribute {
            x_position,
            y_position,
            tile_num,
            large_sprite,
            priority,
            x_flip,
            y_flip,
            palette,
        }
    }

    pub fn get_x_pos(&self) -> (r: u8)
        ensures
            r == self.x_position,
    {
        self.x_position
    }

    pub fn get_y_pos(&self) -> (r: u8)
        ensures
            r == self.y_position,
    {
        self.y_position
    }

    pub fn get_tile_num(&self) -> (r: u8)
        ensures
            r == self.tile_num,
    {
        self.tile_num
    }

    pub fn is_large_sprite(&self) -> (r: bool)
        ensures
            r == self.large_sprite,
    {
        self.large_sprite
    }

    pub fn has_priority(&self) -> (r: bool)
        ensures
            r == self.priority,
    {
        self.priority
    }

    pub fn has_x_flip(&self) -> (r: bool)
        ensures
            r == self.x_flip,
    {
        self.x_flip
    }

    pub fn has_y_flip(&self) -> (r: bool)
        ensures
            r == self.y_flip,
    {
        self.y_flip
    }

    pub fn get_palette(&self) -> (r: Palette)
        ensures
            r == self.palette,
    {
        self.palette
    }
}

/// Decode the whole sprite attribute table.
pub fn get_sprite_attributes_from_oam(oam: &BlockMemory, large_sprites: bool) -> (r: Vec<
    SpriteAttribute,
>)
    ensures
        r@ == spec_sprites_from_oam(oam@, large_sprites),
{
    let mut attributes: Vec<SpriteAttribute> = Vec::new();
    let mut i: usize = 0;
    while i < NUM_SPRITES
        invariant
            i <= NUM_SPRITES,
            attributes@.len() == i,
            forall|j: int|
                0 <= j < i ==> attributes@[j] == spec_sprites_from_oam(oam@, large_sprites)[j],
        decreases NUM_SPRITES - i,
    {
        let from = i * 4;
        let entry = [
            oam.read_byte_usize(from),
            oam.read_byte_usize(from + 1),
            oam.read_byte_usize(from + 2),
            oam.read_byte_usize(from + 3),
        ];
        attributes.push(SpriteAttribute::from_memory(entry, large_sprites));
        i = i + 1;
    }
    proof {
        assert(attributes@ =~= spec_sprites_from_oam(oam@, large_sprites));
    }
    attributes
}

} // verus!
