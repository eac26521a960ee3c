//! The display sink the PPU draws into: the host hands the core an
//! implementation (a window, a test buffer); the core delivers finished
//! scanlines of shades 0..3 (0 lightest) and asks for a redraw once per
//! frame.

use vstd::prelude::*;

verus! {

/// Visible columns per scanline.
pub const COLS: usize = 160;

/// Visible scanlines per frame.
pub const ROWS: usize = 144;

/// Pixels in a full frame.
pub const PIXELS: usize = COLS * ROWS;

/// A sink for rendered frames.  The host implements it; nothing is
/// assumed about its behaviour.
pub trait Display {
    /// Present the frame composed so far.
    fn redraw(&mut self);

    /// Blank the frame.
    fn clear(&mut self);

    /// Deliver one finished scanline; `pixels` holds `COLS` shades 0..3.
    fn set_line(&mut self, line: u8, pixels: &[u8]);
}

} // verus!
