//! Palette registers: each holds four 2-bit entries translating a raw
//! pixel value 0..3 into a shade 0..3.

use vstd::prelude::*;

verus! {

/// Which palette register a pixel goes through.
#[derive(Clone, Copy, PartialEq, Eq, Structural, Debug)]
pub enum Palette {
    BackgroundPalette,
    ObjectPalette0,
    ObjectPalette1,
}

/// The three palette registers.
#[derive(Clone, Copy, PartialEq, Eq, Structural, Debug)]
pub struct Palettes {
    pub bg: u8,
    pub obj0: u8,
    pub obj1: u8,
}

impl Palettes {
    pub fn new() -> (r: Palettes)
        ensures
            r == (Palettes { bg: 0, obj0: 0, obj1: 0 }),
    {
        Palettes { bg: 0, obj0: 0, obj1: 0 }
    }
}

/// The 2-bit entry of `palette` selected by `color`: entry k sits at bits
/// 2k..2k+1 of the register byte.
pub open spec fn spec_apply_palette(color: u8, palette: Palette, palettes: Palettes) -> u8 {
    let register = match palette {
        Palette::BackgroundPalette => palettes.bg,
        Palette::ObjectPalette0 => palettes.obj0,
        Palette::ObjectPalette1 => palettes.obj1,
    };
    let divisor: u8 = match color {
        0 => 1,
        1 => 4,
        2 => 16,
        _ => 64,
    };
    (register / divisor) % 4
}

/// Translate a raw pixel value into a shade through a palette register.
pub fn apply_palette(color: u8, palette: Palette, palettes: &Palettes) -> (r: u8)
    ensures
        r == spec_apply_palette(color, palette, *palettes),
        r < 4,
{
    let register = match palette {
        Palette::BackgroundPalette => palettes.bg,
        Palette::ObjectPalette0 => palettes.obj0,
        Palette::ObjectPalette1 => palettes.obj1,
    };
    let divisor: u8 = match color {
        0 => 1,
        1 => 4,
        2 => 16,
        _ => 64,
    };
    (register / divisor) % 4
}

} // verus!
