//! The picture processing unit: the per-scanline mode state machine
//! driven by CPU cycles, and the rasterizer that composes background,
//! window and sprite layers into 160-pixel lines of shades 0..3.
//!
//! `spec_gpu_step` gives the exact effect of one step on everything but
//! the display sink; the rasterizing functions are specified pixel by
//! pixel.

use vstd::prelude::*;

use crate::display::Display;
use crate::memory::BlockMemory;
use crate::memory::BlockMemoryView;
use crate::memory::spec_zero_block;
use crate::palette::Palette;
use crate::palette::Palettes;
use crate::palette::apply_palette;
use crate::palette::spec_apply_palette;
use crate::sprite::SpriteAttribute;
use crate::sprite::SpritePixel;
use crate::sprite::get_sprite_attributes_from_oam;
use crate::sprite::spec_sprites_from_oam;
use crate::tile::Tile;
use crate::tile::TileIterator;
use crate::tile::lemma_tile_iter_step;
use crate::tile::spec_plain_tile;
use crate::tile::spec_tile_color;
use crate::tile::spec_tile_iter_at;
use crate::vram::Vram;
use crate::vram::spec_tile_num;

verus! {

pub const SCANLINE_OAM_TIME: u32 = 80;

pub const SCANLINE_VRAM_TIME: u32 = 172;

pub const HORIZONTAL_BLANK_TIME: u32 = 204;

pub const VERTICAL_BLANK_TIME: u32 = 4560;

pub const DIM_X: usize = 160;

pub const DIM_Y: u8 = 144;

/// Cycles of a full frame: 144 visible lines plus 10 blank ones, 456
/// cycles each.
pub const CLOCK_TICKS_PER_FRAME: u32 = 70224;

/// Which of the two 32x32 tile maps a layer reads.
#[derive(Clone, Copy, PartialEq, Eq, Structural, Debug)]
pub enum TileMap {
    Map0,
    Map1,
}

impl TileMap {
    pub fn from_bool(b: bool) -> (r: TileMap)
        ensures
            r == (if b {
                TileMap::Map1
            } else {
                TileMap::Map0
            }),
    {
        if b {
            TileMap::Map1
        } else {
            TileMap::Map0
        }
    }

    pub fn to_bool(&self) -> (r: bool)
        ensures
            r == (*self is Map1),
    {
        match *self {
            TileMap::Map0 => false,
            TileMap::Map1 => true,
        }
    }
}

/// Which tile set the background and window share: set 1 ("high",
/// unsigned indices at 0x8000) or set 0 (signed indices around 0x9000).
#[derive(Clone, Copy, PartialEq, Eq, Structural, Debug)]
pub enum TileSet {
    Set0,
    Set1,
}

impl TileSet {
    pub fn from_bool(b: bool) -> (r: TileSet)
        ensures
            r == (if b {
                TileSet::Set1
            } else {
                TileSet::Set0
            }),
    {
        if b {
            TileSet::Set1
        } else {
            TileSet::Set0
        }
    }

    pub fn to_bool(&self) -> (r: bool)
        ensures
            r == (*self is Set1),
    {
        match *self {
            TileSet::Set0 => false,
            TileSet::Set1 => true,
        }
    }
}

/// The four PPU modes of a scanline.
#[derive(Clone, Copy, PartialEq, Eq, Structural, Debug)]
pub enum Mode {
    HorizontalBlank,
    VerticalBlank,
    ScanlineOam,
    ScanlineVram,
}

/// Everything of the PPU that the I/O registers project: control bits,
/// scroll and window positions, palettes, the line counters and the
/// interrupt status bits.
#[derive(Clone, Copy, PartialEq, Eq, Structural, Debug)]
pub struct GpuState {
    pub mode: Mode,
    pub bg_on: bool,
    pub sprites_on: bool,
    pub large_sprites: bool,
    pub bg_tile_map: TileMap,
    pub bg_window_tile_set: TileSet,
    pub window_on: bool,
    pub window_tile_map: TileMap,
    pub display_on: bool,
    pub scx: u8,
    pub scy: u8,
    pub current_line: u8,
    pub lyc: u8,
    pub window_x: u8,
    pub window_y: u8,
    pub palettes: Palettes,
    pub vblank_interrupt_status: bool,
    pub state_interrupt_status: bool,
    pub state_interrupt_vblank: bool,
    pub state_interrupt_hblank: bool,
    pub state_interrupt_oam: bool,
    pub state_interrupt_lycly_coincidence: bool,
}

impl GpuState {
    pub open spec fn spec_initial() -> GpuState {
        GpuState {
            mode: Mode::ScanlineOam,
            bg_on: false,
            sprites_on: false,
            large_sprites: false,
            bg_tile_map: TileMap::Map0,
            bg_window_tile_set: TileSet::Set0,
            window_on: false,
            window_tile_map: TileMap::Map0,
            display_on: false,
            scx: 0,
            scy: 0,
            current_line: 0,
            lyc: 0,
            window_x: 0,
            window_y: 0,
            palettes: Palettes { bg: 0, obj0: 0, obj1: 0 },
            vblank_interrupt_status: false,
            state_interrupt_status: false,
            state_interrupt_vblank: false,
            state_interrupt_hblank: false,
            state_interrupt_oam: false,
            state_interrupt_lycly_coincidence: false,
        }
    }

    pub fn set_display_on(&mut self, on: bool)
        ensures
            *final(self) == (GpuState { display_on: on, ..*old(self) }),
    {
        self.display_on = on;
    }

    pub fn get_display_on(&self) -> (r: bool)
        ensures
            r == self.display_on,
    {
        self.display_on
    }

    /// The mode bits as the STAT register shows them.
    pub open spec fn spec_mode_bits(self) -> u8 {
        match self.mode {
            Mode::HorizontalBlank => 0,
            Mode::VerticalBlank => 1,
            Mode::ScanlineOam => 2,
            Mode::ScanlineVram => 3,
        }
    }

    pub fn get_mode(&self) -> (r: u8)
        ensures
            r == self.spec_mode_bits(),
    {
        match self.mode {
            Mode::HorizontalBlank => 0,
            Mode::VerticalBlank => 1,
            Mode::ScanlineOam => 2,
            Mode::ScanlineVram => 3,
        }
    }

    pub fn get_current_line(&self) -> (r: u8)
        ensures
            r == self.current_line,
    {
        self.current_line
    }

    /// Enter `mode`; with the display on, a mode whose STAT interrupt
    /// enable is set raises the STAT interrupt.  (With the display off no
    /// mode-transition interrupt fires.)
    pub open spec fn spec_set_mode(self, mode: Mode) -> GpuState {
        let fired = self.display_on && match mode {
            Mode::HorizontalBlank => self.state_interrupt_hblank,
            Mode::VerticalBlank => self.state_interrupt_vblank,
            Mode::ScanlineOam => self.state_interrupt_oam,
            Mode::ScanlineVram => false,
        };
        GpuState {
            mode,
            state_interrupt_status: self.state_interrupt_status || fired,
            ..self
        }
    }

    /// A line-counter change re-runs the LY=LYC coincidence check.
    pub open spec fn spec_check_coincidence(self) -> GpuState {
        if self.state_interrupt_lycly_coincidence && self.lyc == self.current_line {
            GpuState { state_interrupt_status: true, ..self }
        } else {
            self
        }
    }

    pub open spec fn spec_increment_line(self) -> GpuState {
        GpuState {
            current_line: self.current_line.wrapping_add(1),
            ..self
        }.spec_check_coincidence()
    }

    pub open spec fn spec_reset_line(self) -> GpuState {
        GpuState { current_line: 0, ..self }.spec_check_coincidence()
    }
}

/// Mathematical content of the PPU, the display sink aside.
pub struct GpuView {
    pub mode_clock: u32,
    pub vram: BlockMemoryView,
    pub oam: BlockMemoryView,
    pub state: GpuState,
    pub frame_count: u64,
}

/// The PPU with the display sink it draws into.
pub struct Gpu<D> {
    pub mode_clock: u32,
    pub vram: Vram,
    pub oam: BlockMemory,
    pub display: D,
    pub state: GpuState,
    /// VBlank entries seen so far (one per frame while the display is on).
    pub frame_count: u64,
}

impl<D> View for Gpu<D> {
    type V = GpuView;

    open spec fn view(&self) -> GpuView {
        GpuView {
            mode_clock: self.mode_clock,
            vram: self.vram@,
            oam: self.oam@,
            state: self.state,
            frame_count: self.frame_count,
        }
    }
}

/// Effect of feeding `cycles` CPU cycles to the mode state machine: at
/// most one mode transition, VBlank entry raising the VBlank interrupt
/// and counting a frame (display on), and the line counter walking
/// 0..153.  VRAM, OAM and everything the rasterizer reads are untouched.
#[verifier::opaque]
pub open spec fn spec_gpu_step(v: GpuView, cycles: u8) -> GpuView {
    let mc = v.mode_clock.wrapping_add(cycles as u32);
    match v.state.mode {
        Mode::ScanlineOam => {
            if mc >= SCANLINE_OAM_TIME {
                GpuView {
                    mode_clock: mc % SCANLINE_OAM_TIME,
                    state: v.state.spec_set_mode(Mode::ScanlineVram),
                    ..v
                }
            } else {
                GpuView { mode_clock: mc, ..v }
            }
        }
        Mode::ScanlineVram => {
            if mc >= SCANLINE_VRAM_TIME {
                GpuView {
                    mode_clock: mc % SCANLINE_VRAM_TIME,
                    state: v.state.spec_set_mode(Mode::HorizontalBlank),
                    ..v
                }
            } else {
                GpuView { mode_clock: mc, ..v }
            }
        }
        Mode::HorizontalBlank => {
            if mc >= HORIZONTAL_BLANK_TIME {
                if v.state.current_line == DIM_Y - 1 {
                    let st = v.state.spec_set_mode(Mode::VerticalBlank);
                    let st = GpuState {
                        vblank_interrupt_status: st.vblank_interrupt_status || st.display_on,
                        ..st
                    };
                    GpuView {
                        mode_clock: mc % HORIZONTAL_BLANK_TIME,
                        state: st.spec_increment_line(),
                        frame_count: if v.state.display_on {
                            v.frame_count.wrapping_add(1)
                        } else {
                            v.frame_count
                        },
                        ..v
                    }
                } else {
                    GpuView {
                        mode_clock: mc % HORIZONTAL_BLANK_TIME,
                        state: v.state.spec_set_mode(Mode::ScanlineOam).spec_increment_line(),
                        ..v
                    }
                }
            } else {
                GpuView { mode_clock: mc, ..v }
            }
        }
        Mode::VerticalBlank => {
            if mc >= VERTICAL_BLANK_TIME / 10 {
                let st = v.state.spec_increment_line();
                if st.current_line > 153 {
                    GpuView {
                        mode_clock: mc % (VERTICAL_BLANK_TIME / 10),
                        state: st.spec_set_mode(Mode::ScanlineOam).spec_reset_line(),
                        ..v
                    }
                } else {
                    GpuView { mode_clock: mc % (VERTICAL_BLANK_TIME / 10), state: st, ..v }
                }
            } else {
                GpuView { mode_clock: mc, ..v }
            }
        }
    }
}

/// Raw pixel of a background/window layer at layer coordinates (x, y):
/// the map names the tile, the tile row names the pixel.
pub open spec fn spec_layer_pixel(
    v: BlockMemoryView,
    tile_map: TileMap,
    tile_set: TileSet,
    x: u8,
    y: u8,
) -> u8 {
    spec_tile_color(
        spec_plain_tile(spec_tile_num(v, tile_map, (y / 8) as u8, (x / 8) as u8), tile_set),
        v,
        (x % 8) as u8,
        (y % 8) as u8,
    )
}

/// Background pixel for screen column `i` of line `line`: transparent 0
/// with the background off, else the layer pixel at the scrolled
/// coordinates (wrapping at 256).
pub open spec fn spec_bg_pixel(st: GpuState, v: BlockMemoryView, line: u8, i: int) -> u8 {
    if !st.bg_on {
        0
    } else {
        spec_layer_pixel(
            v,
            st.bg_tile_map,
            st.bg_window_tile_set,
            ((st.scx + i) % 256) as u8,
            line.wrapping_add(st.scy),
        )
    }
}

pub open spec fn spec_bg_line(st: GpuState, v: BlockMemoryView, line: u8) -> Seq<u8> {
    Seq::new(DIM_X as nat, |i: int| spec_bg_pixel(st, v, line, i))
}

/// Window pixel for screen column `i`: present from column
/// max(0, WX-7) on once the line has reached WY, sampled at
/// window-relative coordinates.
pub open spec fn spec_window_pixel(st: GpuState, v: BlockMemoryView, line: u8, i: int) -> Option<
    u8,
> {
    if !st.window_on || line < st.window_y {
        None
    } else {
        let start_x: int = if st.window_x >= 7 {
            st.window_x - 7
        } else {
            0
        };
        if i < start_x {
            None
        } else {
            Some(
                spec_layer_pixel(
                    v,
                    st.window_tile_map,
                    st.bg_window_tile_set,
                    (i - start_x) as u8,
                    (line - st.window_y) as u8,
                ),
            )
        }
    }
}

pub open spec fn spec_window_line(st: GpuState, v: BlockMemoryView, line: u8) -> Seq<Option<u8>> {
    Seq::new(DIM_X as nat, |i: int| spec_window_pixel(st, v, line, i))
}

/// Whether a sprite's 8- or 16-pixel-tall box covers `line`.
pub open spec fn spec_sprite_covers(sp: SpriteAttribute, line: u8, sprite_y_size: int) -> bool {
    0 <= line + 16 - sp.y_position < sprite_y_size
}

/// The sprites rasterized for a line: walking the table in order, the
/// first ten whose box covers the line.
pub open spec fn spec_selected_upto(
    sprites: Seq<SpriteAttribute>,
    line: u8,
    sprite_y_size: int,
    n: nat,
) -> Seq<SpriteAttribute>
    decreases n,
{
    if n == 0 || n > sprites.len() {
        Seq::empty()
    } else {
        let prev = spec_selected_upto(sprites, line, sprite_y_size, (n - 1) as nat);
        if prev.len() < 10 && spec_sprite_covers(sprites[n - 1], line, sprite_y_size) {
            prev.push(sprites[n - 1])
        } else {
            prev
        }
    }
}

/// Insert a sprite behind every already-placed sprite whose x is not
/// greater: a stable insertion by x.
pub open spec fn spec_insert_by_x(s: Seq<SpriteAttribute>, sp: SpriteAttribute) -> Seq<
    SpriteAttribute,
>
    decreases s.len(),
{
    if s.len() == 0 {
        seq![sp]
    } else if s.last().x_position > sp.x_position {
        spec_insert_by_x(s.drop_last(), sp).push(s.last())
    } else {
        s.push(sp)
    }
}

/// Stable sort of the selected sprites by x position.
pub open spec fn spec_sort_by_x(s: Seq<SpriteAttribute>) -> Seq<SpriteAttribute>
    decreases s.len(),
{
    if s.len() == 0 {
        Seq::empty()
    } else {
        spec_insert_by_x(spec_sort_by_x(s.drop_last()), s.last())
    }
}

pub open spec fn spec_default_sprite_pixel() -> SpritePixel {
    SpritePixel { pixel: None, palette: None, priority: false }
}

/// What one sprite contributes to column `i`, over what earlier (lower-x)
/// sprites left there: the first sprite to produce a non-zero pixel wins.
pub open spec fn spec_paint_pixel(
    px: SpritePixel,
    sp: SpriteAttribute,
    v: BlockMemoryView,
    line: u8,
    i: int,
) -> SpritePixel {
    if px.pixel is Some {
        px
    } else {
        let x_in_tile = i + 8 - sp.x_position;
        if 0 <= x_in_tile < 8 {
            let y_in_tile = line + 16 - sp.y_position;
            let color = spec_tile_color(
                Tile {
                    tile_num: sp.tile_num,
                    tile_set: TileSet::Set1,
                    x_flip: sp.x_flip,
                    y_flip: sp.y_flip,
                    large_tile: sp.large_sprite,
                },
                v,
                x_in_tile as u8,
                y_in_tile as u8,
            );
            if color != 0 {
                SpritePixel { pixel: Some(color), palette: Some(sp.palette), priority: sp.priority }
            } else {
                px
            }
        } else {
            px
        }
    }
}

pub open spec fn spec_paint_one(
    pixels: Seq<SpritePixel>,
    sp: SpriteAttribute,
    v: BlockMemoryView,
    line: u8,
) -> Seq<SpritePixel> {
    Seq::new(pixels.len(), |i: int| spec_paint_pixel(pixels[i], sp, v, line, i))
}

pub open spec fn spec_paint_all(
    pixels: Seq<SpritePixel>,
    sprites: Seq<SpriteAttribute>,
    v: BlockMemoryView,
    line: u8,
) -> Seq<SpritePixel>
    decreases sprites.len(),
{
    if sprites.len() == 0 {
        pixels
    } else {
        spec_paint_all(spec_paint_one(pixels, sprites[0], v, line), sprites.drop_first(), v, line)
    }
}

/// The sprite layer of a line: up to ten sprites covering the line, in x
/// order, painted left to right.
pub open spec fn spec_sprite_line(st: GpuState, v: BlockMemoryView, oam: BlockMemoryView, line: u8) -> Seq<
    SpritePixel,
> {
    let blank = Seq::new(DIM_X as nat, |i: int| spec_default_sprite_pixel());
    if !st.sprites_on {
        blank
    } else {
        let sprite_y_size: int = if st.large_sprites {
            16
        } else {
            8
        };
        let all = spec_sprites_from_oam(oam, st.large_sprites);
        let selected = spec_selected_upto(all, line, sprite_y_size, 40);
        let sorted = spec_sort_by_x(selected);
        spec_paint_all(blank, sorted, v, line)
    }
}

/// One composed pixel: the window overlays the background; a sprite
/// behind the background shows only over background colour 0; palettes
/// translate raw values into shades.
pub open spec fn spec_combine_pixel(
    palettes: Palettes,
    bg: u8,
    window: Option<u8>,
    sprite: SpritePixel,
) -> u8 {
    let base = match window {
        Some(x) => x,
        None => bg,
    };
    if base != 0 && !sprite.priority {
        spec_apply_palette(base, Palette::BackgroundPalette, palettes)
    } else {
        match sprite.pixel {
            Some(color) => spec_apply_palette(
                color,
                match sprite.palette {
                    Some(p) => p,
                    None => Palette::ObjectPalette0,
                },
                palettes,
            ),
            None => spec_apply_palette(base, Palette::BackgroundPalette, palettes),
        }
    }
}

pub open spec fn spec_combine_line(
    palettes: Palettes,
    bg: Seq<u8>,
    window: Seq<Option<u8>>,
    sprites: Seq<SpritePixel>,
) -> Seq<u8> {
    Seq::new(DIM_X as nat, |i: int| spec_combine_pixel(palettes, bg[i], window[i], sprites[i]))
}

/// The finished scanline the display receives.
pub open spec fn spec_scanline(st: GpuState, v: BlockMemoryView, oam: BlockMemoryView, line: u8) -> Seq<u8> {
    spec_combine_line(
        st.palettes,
        spec_bg_line(st, v, line),
        spec_window_line(st, v, line),
        spec_sprite_line(st, v, oam, line),
    )
}

impl<D: Display> Gpu<D> {
    /// A powered-on PPU around the given display sink.
    pub fn new(display: D) -> (r: Gpu<D>)
        ensures
            r@ == (GpuView {
                mode_clock: 0,
                vram: spec_zero_block(0x2000),
                oam: spec_zero_block(0x100),
                state: GpuState::spec_initial(),
                frame_count: 0,
            }),
    {
        let oam = BlockMemory::new(0x100);
        proof {
            assert(oam@.bytes =~= spec_zero_block(0x100).bytes);
        }
        let mut gpu = Gpu {
            mode_clock: 0,
            vram: Vram::new(),
            oam,
            display,
            state: GpuState::spec_initial_exec(),
            frame_count: 0,
        };
        gpu.set_mode(Mode::ScanlineOam);
        gpu
    }

    /// The STAT mode bits, as the register file shows them.
    pub fn get_mode(&self) -> (r: u8)
        ensures
            r == self.state.spec_mode_bits(),
    {
        self.state.get_mode()
    }

    pub fn set_display_on(&mut self, on: bool)
        ensures
            *final(self) == (Gpu { state: GpuState { display_on: on, ..old(self).state }, ..*old(self) }),
    {
        self.state.set_display_on(on);
    }

    pub fn get_display_on(&self) -> (r: bool)
        ensures
            r == self.state.display_on,
    {
        self.state.get_display_on()
    }

    pub fn get_current_line(&self) -> (r: u8)
        ensures
            r == self.state.current_line,
    {
        self.state.get_current_line()
    }

    pub fn get_vram(&self) -> (r: &Vram)
        ensures
            r == &self.vram,
    {
        &self.vram
    }

    pub fn get_vram_mut(&mut self) -> (r: &mut Vram)
        ensures
            *r == old(self).vram,
            *final(self) == (Gpu { vram: *final(r), ..*old(self) }),
    {
        &mut self.vram
    }

    pub fn get_oam(&self) -> (r: &BlockMemory)
        ensures
            r == &self.oam,
    {
        &self.oam
    }

    pub fn get_oam_mut(&mut self) -> (r: &mut BlockMemory)
        ensures
            *r == old(self).oam,
            *final(self) == (Gpu { oam: *final(r), ..*old(self) }),
    {
        &mut self.oam
    }

    fn fire_lcdc_interrupt(&mut self)
        ensures
            *final(self) == (Gpu {
                state: GpuState { state_interrupt_status: true, ..old(self).state },
                ..*old(self)
            }),
    {
        self.state.state_interrupt_status = true;
    }

    fn set_mode(&mut self, mode: Mode)
        ensures
            *final(self) == (Gpu { state: old(self).state.spec_set_mode(mode), ..*old(self) }),
    {
        self.state.mode = mode;
        if self.state.display_on {
            match mode {
                Mode::HorizontalBlank => {
                    if self.state.state_interrupt_hblank {
                        self.fire_lcdc_interrupt();
                    }
                }
                Mode::VerticalBlank => {
                    if self.state.state_interrupt_vblank {
                        self.fire_lcdc_interrupt();
                    }
                }
                Mode::ScanlineOam => {
                    if self.state.state_interrupt_oam {
                        self.fire_lcdc_interrupt();
                    }
                }
                Mode::ScanlineVram => {}
            }
        }
    }

    fn check_fire_coincidence_interrupt(&mut self)
        ensures
            *final(self) == (Gpu { state: old(self).state.spec_check_coincidence(), ..*old(self) }),
    {
        if self.state.state_interrupt_lycly_coincidence && self.state.lyc
            == self.state.current_line {
            self.fire_lcdc_interrupt();
        }
    }

    fn increment_current_line(&mut self)
        ensures
            *final(self) == (Gpu { state: old(self).state.spec_increment_line(), ..*old(self) }),
    {
        self.state.current_line = self.state.current_line.wrapping_add(1);
        self.check_fire_coincidence_interrupt();
    }

    fn reset_current_line(&mut self)
        ensures
            *final(self) == (Gpu { state: old(self).state.spec_reset_line(), ..*old(self) }),
    {
        self.state.current_line = 0;
        self.check_fire_coincidence_interrupt();
    }

    fn render_screen(&mut self)
        ensures
            final(self)@ == old(self)@,
    {
        self.display.redraw();
    }

    /// Advance the mode state machine by the cycle cost of the last
    /// instruction; on leaving the VRAM-scan mode the finished line goes
    /// to the display, on entering VBlank the frame is presented.
    pub fn step(&mut self, cycles: u8)
        ensures
            final(self)@ == spec_gpu_step(old(self)@, cycles),
            final(self)@.vram == old(self)@.vram,
            final(self)@.oam == old(self)@.oam,
    {
        proof {
            reveal(spec_gpu_step);
        }
        self.mode_clock = self.mode_clock.wrapping_add(cycles as u32);
        match self.state.mode {
            Mode::ScanlineOam => {
                if self.mode_clock >= SCANLINE_OAM_TIME {
                    self.mode_clock = self.mode_clock % SCANLINE_OAM_TIME;
                    self.set_mode(Mode::ScanlineVram);
                }
            }
            Mode::ScanlineVram => {
                if self.mode_clock >= SCANLINE_VRAM_TIME {
                    self.mode_clock = self.mode_clock % SCANLINE_VRAM_TIME;
                    self.set_mode(Mode::HorizontalBlank);
                    self.render_scanline();
                }
            }
            Mode::HorizontalBlank => {
                if self.mode_clock >= HORIZONTAL_BLANK_TIME {
                    self.mode_clock = self.mode_clock % HORIZONTAL_BLANK_TIME;
                    if self.state.get_current_line() == DIM_Y - 1 {
                        self.set_mode(Mode::VerticalBlank);
                        self.render_screen();
                        if self.state.display_on {
                            self.state.vblank_interrupt_status = true;
                            self.frame_count = self.frame_count.wrapping_add(1);
                        }
                    } else {
                        self.set_mode(Mode::ScanlineOam);
                    }
                    self.increment_current_line();
                }
            }
            Mode::VerticalBlank => {
                if self.mode_clock >= VERTICAL_BLANK_TIME / 10 {
                    self.mode_clock = self.mode_clock % (VERTICAL_BLANK_TIME / 10);
                    self.increment_current_line();
                    if self.state.get_current_line() > 153 {
                        self.set_mode(Mode::ScanlineOam);
                        self.reset_current_line();
                    }
                }
            }
        }
    }

    /// Compose the current line and hand it to the display (a no-op while
    /// the display is off).
    pub fn render_scanline(&mut self)
        ensures
            final(self)@ == old(self)@,
    {
        if !self.state.display_on {
            return ;
        }
        let display_line_number = self.state.get_current_line();
        let bg_pixels = self.render_bg_line(display_line_number);
        let window_pixels = self.render_window_line(display_line_number);
        let sprite_pixels = self.render_sprites(display_line_number);
        let pixels = self.combine_pixels(&bg_pixels, &window_pixels, &sprite_pixels);
        self.display.set_line(display_line_number, pixels.as_slice());
    }

    /// The background layer of one line.
    #[verifier::rlimit(100)]
    pub fn render_bg_line(&self, display_line_number: u8) -> (r: Vec<u8>)
        ensures
            r@ == spec_bg_line(self.state, self.vram@, display_line_number),
    {
        if !self.state.bg_on {
            let pixels = vec![0u8; DIM_X];
            proof {
                assert(pixels@ =~= spec_bg_line(self.state, self.vram@, display_line_number));
            }
            return pixels;
        }
        let mut pixels: Vec<u8> = Vec::new();
        let x0 = self.state.scx;
        let y = display_line_number.wrapping_add(self.state.scy);
        let mut tile_iter = TileIterator::new(x0, y, self.state.bg_tile_map, &self.vram);
        let mut i: usize = 0;
        while i < DIM_X
            invariant
                i <= DIM_X,
                pixels@.len() == i,
                self.state.bg_on,
                y == display_line_number.wrapping_add(self.state.scy),
                x0 == self.state.scx,
                tile_iter == spec_tile_iter_at(
                    self.state.bg_tile_map,
                    ((x0 + i) % 256) as u8,
                    y,
                    self.vram@,
                ),
                forall|j: int|
                    0 <= j < i ==> pixels@[j] == spec_bg_pixel(
                        self.state,
                        self.vram@,
                        display_line_number,
                        j,
                    ),
            decreases DIM_X - i,
        {
            let color = tile_iter.get_pixel_color(self.state.bg_window_tile_set, &self.vram);
            pixels.push(color);
            proof {
                lemma_tile_iter_step(
                    self.state.bg_tile_map,
                    ((x0 + i) % 256) as u8,
                    y,
                    self.vram@,
                );
                assert(((x0 + i) % 256) as u8 % 8 == ((x0 + i) % 256) % 8);
            }
            tile_iter.next(&self.vram);
            i = i + 1;
        }
        proof {
            assert(pixels@ =~= spec_bg_line(self.state, self.vram@, display_line_number));
        }
        pixels
    }

    /// The window layer of one line; `None` where the window does not
    /// cover the column.
    #[verifier::rlimit(100)]
    pub fn render_window_line(&self, display_line_number: u8) -> (r: Vec<Option<u8>>)
        ensures
            r@ == spec_window_line(self.state, self.vram@, display_line_number),
    {
        if !self.state.window_on || display_line_number < self.state.window_y {
            let pixels = vec![None::<u8>; DIM_X];
            proof {
                assert(pixels@ =~= spec_window_line(self.state, self.vram@, display_line_number));
            }
            return pixels;
        }
        let start_x: usize = if self.state.window_x >= 7 {
            (self.state.window_x - 7) as usize
        } else {
            0
        };
        let window_y = display_line_number - self.state.window_y;
        let mut tile_iter = TileIterator::new(0, window_y, self.state.window_tile_map, &self.vram);
        let mut pixels: Vec<Option<u8>> = Vec::new();
        let mut i: usize = 0;
        while i < DIM_X
            invariant
                i <= DIM_X,
                pixels@.len() == i,
                self.state.window_on,
                display_line_number >= self.state.window_y,
                start_x == (if self.state.window_x >= 7 {
                    self.state.window_x - 7
                } else {
                    0
                }),
                window_y == display_line_number - self.state.window_y,
                i <= start_x ==> tile_iter == spec_tile_iter_at(
                    self.state.window_tile_map,
                    0,
                    window_y,
                    self.vram@,
                ),
                start_x < i ==> tile_iter == spec_tile_iter_at(
                    self.state.window_tile_map,
                    (i - start_x) as u8,
                    window_y,
                    self.vram@,
                ),
                forall|j: int|
                    0 <= j < i ==> pixels@[j] == spec_window_pixel(
                        self.state,
                        self.vram@,
                        display_line_number,
                        j,
                    ),
            decreases DIM_X - i,
        {
            if i < start_x {
                pixels.push(None);
            } else {
                let color = tile_iter.get_pixel_color(self.state.bg_window_tile_set, &self.vram);
                pixels.push(Some(color));
                proof {
                    lemma_tile_iter_step(
                        self.state.window_tile_map,
                        (i - start_x) as u8,
                        window_y,
                        self.vram@,
                    );
                }
                tile_iter.next(&self.vram);
            }
            i = i + 1;
        }
        proof {
            assert(pixels@ =~= spec_window_line(self.state, self.vram@, display_line_number));
        }
        pixels
    }

    /// The sprite layer of one line.
    #[verifier::rlimit(100)]
    pub fn render_sprites(&self, display_line_number: u8) -> (r: Vec<SpritePixel>)
        ensures
            r@ == spec_sprite_line(self.state, self.vram@, self.oam@, display_line_number),
            r@.len() == DIM_X,
    {
        let mut pixels: Vec<SpritePixel> = vec![SpritePixel {
            pixel: None,
            palette: None,
            priority: false,
        }; DIM_X];
        proof {
            assert(pixels@ =~= Seq::new(DIM_X as nat, |i: int| spec_default_sprite_pixel()));
        }
        if !self.state.sprites_on {
            return pixels;
        }
        let sprite_y_size: u16 = if self.state.large_sprites {
            16
        } else {
            8
        };
        let sprites = get_sprite_attributes_from_oam(&self.oam, self.state.large_sprites);
        // The first ten sprites whose box covers this line, in table order.
        let mut selected: Vec<SpriteAttribute> = Vec::new();
        let mut k: usize = 0;
        while k < sprites.len()
            invariant
                k <= sprites@.len(),
                sprites@.len() == 40,
                sprites@ == spec_sprites_from_oam(self.oam@, self.state.large_sprites),
                sprite_y_size == (if self.state.large_sprites {
                    16int
                } else {
                    8int
                }),
                selected@ == spec_selected_upto(
                    sprites@,
                    display_line_number,
                    sprite_y_size as int,
                    k as nat,
                ),
            decreases sprites@.len() - k,
        {
            let sp = sprites[k];
            if selected.len() < 10 {
                let y_in_tile = display_line_number as i32 + 16 - sp.get_y_pos() as i32;
                if 0 <= y_in_tile && y_in_tile < sprite_y_size as i32 {
                    selected.push(sp);
                }
            }
            k = k + 1;
        }
        let sorted = sort_sprites_by_x(selected);
        // Paint in x order; the first sprite to colour a column keeps it.
        let ghost sorted_seq = sorted@;
        proof {
            let selected_seq = spec_selected_upto(
                sprites@,
                display_line_number,
                sprite_y_size as int,
                40,
            );
            lemma_selected_covers(sprites@, display_line_number, sprite_y_size as int, 40);
            lemma_sort_by_x_contains(selected_seq);
            lemma_sprites_from_oam_large(self.oam@, self.state.large_sprites);
            assert forall|j: int|
                0 <= j < sorted_seq.len() implies spec_sprite_covers(
                #[trigger] sorted_seq[j],
                display_line_number,
                sprite_y_size as int,
            ) && sorted_seq[j].large_sprite == self.state.large_sprites by {
                let y = sorted_seq[j];
                assert(sorted_seq.contains(y));
                assert(selected_seq.contains(y));
                let idx = choose|idx: int|
                    0 <= idx < selected_seq.len() && selected_seq[idx] == y;
                assert(spec_sprite_covers(
                    selected_seq[idx],
                    display_line_number,
                    sprite_y_size as int,
                ));
                assert(sprites@.contains(y));
                let idx2 = choose|idx2: int| 0 <= idx2 < sprites@.len() && sprites@[idx2] == y;
                assert(spec_sprites_from_oam(self.oam@, self.state.large_sprites)[idx2]
                    .large_sprite == self.state.large_sprites);
            }
            assert(sorted_seq.subrange(0, sorted_seq.len() as int) =~= sorted_seq);
        }
        let mut s: usize = 0;
        while s < sorted.len()
            invariant
                s <= sorted@.len(),
                sorted@ == sorted_seq,
                pixels@.len() == DIM_X,
                self.state.sprites_on,
                sprite_y_size == (if self.state.large_sprites {
                    16int
                } else {
                    8int
                }),
                forall|j: int|
                    0 <= j < sorted_seq.len() ==> spec_sprite_covers(
                        #[trigger] sorted_seq[j],
                        display_line_number,
                        sprite_y_size as int,
                    ) && sorted_seq[j].large_sprite == self.state.large_sprites,
                spec_paint_all(
                    pixels@,
                    sorted_seq.subrange(s as int, sorted_seq.len() as int),
                    self.vram@,
                    display_line_number,
                ) == spec_sprite_line(
                    self.state,
                    self.vram@,
                    self.oam@,
                    display_line_number,
                ),
            decreases sorted@.len() - s,
        {
            let sprite = sorted[s];
            let mut painted: Vec<SpritePixel> = Vec::new();
            let mut i: usize = 0;
            while i < DIM_X
                invariant
                    i <= DIM_X,
                    painted@.len() == i,
                    pixels@.len() == DIM_X,
                    s < sorted_seq.len(),
                    sprite == sorted_seq[s as int],
                    spec_sprite_covers(sprite, display_line_number, sprite_y_size as int),
                    sprite.large_sprite == self.state.large_sprites,
                    sprite_y_size == (if self.state.large_sprites {
                        16int
                    } else {
                        8int
                    }),
                    forall|j: int|
                        0 <= j < i ==> painted@[j] == spec_paint_pixel(
                            pixels@[j],
                            sprite,
                            self.vram@,
                            display_line_number,
                            j,
                        ),
                decreases DIM_X - i,
            {
                let px = pixels[i];
                let next = if px.pixel.is_some() {
                    px
                } else {
                    let x_in_tile = i as i32 + 8 - sprite.get_x_pos() as i32;
                    if 0 <= x_in_tile && x_in_tile < 8 {
                        let y_in_tile = display_line_number as i32 + 16 - sprite.get_y_pos()
                            as i32;
                        let tile = Tile::from_sprite(&sprite);
                        let color = tile.get_color(
                            x_in_tile as u8,
                            y_in_tile as u8,
                            &self.vram,
                        );
                        if color != 0 {
                            SpritePixel {
                                pixel: Some(color),
                                palette: Some(sprite.get_palette()),
                                priority: sprite.has_priority(),
                            }
                        } else {
                            px
                        }
                    } else {
                        px
                    }
                };
                painted.push(next);
                i = i + 1;
            }
            proof {
                assert(painted@ =~= spec_paint_one(
                    pixels@,
                    sprite,
                    self.vram@,
                    display_line_number,
                ));
                assert(sorted_seq.subrange(s as int, sorted_seq.len() as int).drop_first()
                    =~= sorted_seq.subrange(s as int + 1, sorted_seq.len() as int));
            }
            pixels = painted;
            s = s + 1;
        }
        proof {
            assert(sorted_seq.subrange(sorted_seq.len() as int, sorted_seq.len() as int)
                =~= Seq::<SpriteAttribute>::empty());
        }
        pixels
    }

    /// Merge the three layers and apply the palettes.
    pub fn combine_pixels(
        &self,
        bg_pixels: &Vec<u8>,
        window_pixels: &Vec<Option<u8>>,
        sprite_pixels: &Vec<SpritePixel>,
    ) -> (r: Vec<u8>)
        requires
            bg_pixels@.len() == DIM_X,
            window_pixels@.len() == DIM_X,
            sprite_pixels@.len() == DIM_X,
        ensures
            r@ == spec_combine_line(
                self.state.palettes,
                bg_pixels@,
                window_pixels@,
                sprite_pixels@,
            ),
    {
        let mut combined: Vec<u8> = Vec::new();
        let mut i: usize = 0;
        while i < DIM_X
            invariant
                i <= DIM_X,
                combined@.len() == i,
                bg_pixels@.len() == DIM_X,
                window_pixels@.len() == DIM_X,
                sprite_pixels@.len() == DIM_X,
                forall|j: int|
                    0 <= j < i ==> combined@[j] == spec_combine_pixel(
                        self.state.palettes,
                        bg_pixels@[j],
                        window_pixels@[j],
                        sprite_pixels@[j],
                    ),
            decreases DIM_X - i,
        {
            let bg = match window_pixels[i] {
                Some(x) => x,
                None => bg_pixels[i],
            };
            let sprite = sprite_pixels[i];
            let shade = if bg != 0 && !sprite.priority {
                apply_palette(bg, Palette::BackgroundPalette, &self.state.palettes)
            } else {
                match sprite.pixel {
                    Some(color) => apply_palette(
                        color,
                        match sprite.palette {
                            Some(p) => p,
                            None => Palette::ObjectPalette0,
                        },
                        &self.state.palettes,
                    ),
                    None => apply_palette(bg, Palette::BackgroundPalette, &self.state.palettes),
                }
            };
            combined.push(shade);
            i = i + 1;
        }
        proof {
            assert(combined@ =~= spec_combine_line(
                self.state.palettes,
                bg_pixels@,
                window_pixels@,
                sprite_pixels@,
            ));
        }
        combined
    }
}

impl GpuState {
    /// Executable twin of `spec_initial`.
    pub fn spec_initial_exec() -> (r: GpuState)
        ensures
            r == GpuState::spec_initial(),
    {
        GpuState {
            mode: Mode::ScanlineOam,
            bg_on: false,
            sprites_on: false,
            large_sprites: false,
            bg_tile_map: TileMap::Map0,
            bg_window_tile_set: TileSet::Set0,
            window_on: false,
            window_tile_map: TileMap::Map0,
            display_on: false,
            scx: 0,
            scy: 0,
            current_line: 0,
            lyc: 0,
            window_x: 0,
            window_y: 0,
            palettes: Palettes::new(),
            vblank_interrupt_status: false,
            state_interrupt_status: false,
            state_interrupt_vblank: false,
            state_interrupt_hblank: false,
            state_interrupt_oam: false,
            state_interrupt_lycly_coincidence: false,
        }
    }
}

/// Stable insertion sort of sprites by x position.
fn sort_sprites_by_x(sprites: Vec<SpriteAttribute>) -> (r: Vec<SpriteAttribute>)
    ensures
        r@ == spec_sort_by_x(sprites@),
{
    let mut sorted: Vec<SpriteAttribute> = Vec::new();
    let mut k: usize = 0;
    while k < sprites.len()
        invariant
            k <= sprites@.len(),
            sorted@ == spec_sort_by_x(sprites@.subrange(0, k as int)),
        decreases sprites@.len() - k,
    {
        let sp = sprites[k];
        let mut pos: usize = sorted.len();
        while pos > 0 && sorted[pos - 1].x_position > sp.x_position
            invariant
                pos <= sorted@.len(),
                forall|j: int| pos <= j < sorted@.len() ==> sorted@[j].x_position > sp.x_position,
            decreases pos,
        {
            pos = pos - 1;
        }
        proof {
            lemma_insert_by_x_at(sorted@, sp, pos as int);
            assert(sprites@.subrange(0, k as int + 1).drop_last() =~= sprites@.subrange(
                0,
                k as int,
            ));
        }
        sorted.insert(pos, sp);
        proof {
            assert(sorted@ =~= spec_sort_by_x(sprites@.subrange(0, k as int + 1)));
        }
        k = k + 1;
    }
    proof {
        assert(sprites@.subrange(0, sprites@.len() as int) =~= sprites@);
    }
    sorted
}

/// Inserting at the position the scan found is what the recursive
/// insertion spec computes.
proof fn lemma_insert_by_x_at(s: Seq<SpriteAttribute>, sp: SpriteAttribute, pos: int)
    requires
        0 <= pos <= s.len(),
        forall|j: int| pos <= j < s.len() ==> s[j].x_position > sp.x_position,
        pos > 0 ==> s[pos - 1].x_position <= sp.x_position,
    ensures
        spec_insert_by_x(s, sp) == s.subrange(0, pos).push(sp) + s.subrange(pos, s.len() as int),
    decreases s.len(),
{
    if pos == s.len() {
        if s.len() == 0 {
            assert(spec_insert_by_x(s, sp) =~= s.subrange(0, pos).push(sp) + s.subrange(
                pos,
                s.len() as int,
            ));
        } else {
            assert(s.subrange(0, s.len() as int) =~= s);
            assert(spec_insert_by_x(s, sp) =~= s.subrange(0, pos).push(sp) + s.subrange(
                pos,
                s.len() as int,
            ));
        }
    } else {
        lemma_insert_by_x_at(s.drop_last(), sp, pos);
        assert(s.drop_last().subrange(0, pos) =~= s.subrange(0, pos));
        assert(s.drop_last().subrange(pos, s.len() - 1) =~= s.subrange(pos, s.len() - 1));
        assert((s.subrange(0, pos).push(sp) + s.subrange(pos, s.len() - 1)).push(s.last())
            =~= s.subrange(0, pos).push(sp) + s.subrange(pos, s.len() as int));
    }
}

/// Sorting keeps exactly the original sprites.
proof fn lemma_insert_by_x_contains(s: Seq<SpriteAttribute>, sp: SpriteAttribute)
    ensures
        forall|y: SpriteAttribute|
            spec_insert_by_x(s, sp).contains(y) <==> (s.contains(y) || y == sp),
    decreases s.len(),
{
    broadcast use vstd::seq_lib::group_seq_properties;

    if s.len() > 0 {
        lemma_insert_by_x_contains(s.drop_last(), sp);
        assert(s =~= s.drop_last().push(s.last()));
        if s.last().x_position > sp.x_position {
            let inner = spec_insert_by_x(s.drop_last(), sp);
            assert(spec_insert_by_x(s, sp) == inner.push(s.last()));
        }
    } else {
        assert(spec_insert_by_x(s, sp) =~= Seq::<SpriteAttribute>::empty().push(sp));
    }
}

proof fn lemma_sort_by_x_contains(s: Seq<SpriteAttribute>)
    ensures
        forall|y: SpriteAttribute| spec_sort_by_x(s).contains(y) <==> s.contains(y),
    decreases s.len(),
{
    broadcast use vstd::seq_lib::group_seq_properties;

    if s.len() > 0 {
        lemma_sort_by_x_contains(s.drop_last());
        lemma_insert_by_x_contains(spec_sort_by_x(s.drop_last()), s.last());
        assert(s =~= s.drop_last().push(s.last()));
        assert forall|y: SpriteAttribute| spec_sort_by_x(s).contains(y) <==> s.contains(y) by {
            assert(spec_sort_by_x(s) == spec_insert_by_x(
                spec_sort_by_x(s.drop_last()),
                s.last(),
            ));
            assert(spec_sort_by_x(s).contains(y) <==> (spec_sort_by_x(s.drop_last()).contains(y)
                || y == s.last()));
            assert(s.drop_last().push(s.last()).contains(y) <==> (s.drop_last().contains(y) || y
                == s.last()));
        }
    }
}

/// Every selected sprite's box covers the line.
proof fn lemma_selected_covers(s: Seq<SpriteAttribute>, line: u8, sprite_y_size: int, n: nat)
    ensures
        forall|j: int|
            0 <= j < spec_selected_upto(s, line, sprite_y_size, n).len()
                ==> spec_sprite_covers(
                #[trigger] spec_selected_upto(s, line, sprite_y_size, n)[j],
                line,
                sprite_y_size,
            ) && s.contains(spec_selected_upto(s, line, sprite_y_size, n)[j]),
    decreases n,
{
    if n > 0 && n <= s.len() {
        lemma_selected_covers(s, line, sprite_y_size, (n - 1) as nat);
        let prev = spec_selected_upto(s, line, sprite_y_size, (n - 1) as nat);
        let cur = spec_selected_upto(s, line, sprite_y_size, n);
        if prev.len() < 10 && spec_sprite_covers(s[n - 1], line, sprite_y_size) {
            assert(s.contains(s[n - 1]));
            assert forall|j: int|
                0 <= j < cur.len() implies spec_sprite_covers(
                #[trigger] cur[j],
                line,
                sprite_y_size,
            ) && s.contains(cur[j]) by {
                if j < prev.len() {
                    assert(cur[j] == prev[j]);
                } else {
                    assert(cur[j] == s[n - 1]);
                }
            }
        }
    }
}

/// Every sprite decoded from OAM carries the table's sprite-size flag.
proof fn lemma_sprites_from_oam_large(oam: BlockMemoryView, large_sprites: bool)
    ensures
        forall|j: int|
            0 <= j < 40 ==> (#[trigger] spec_sprites_from_oam(oam, large_sprites)[j]).large_sprite
                == large_sprites,
{
}


/// How far into the 70224-cycle frame a mode state is: finished lines,
/// the finished modes of the current line, and the cycles into the
/// current mode.
pub open spec fn spec_frame_position(v: GpuView) -> int {
    (v.state.current_line as int) * 456 + (match v.state.mode {
        Mode::ScanlineOam => 0int,
        Mode::ScanlineVram => 80int,
        Mode::HorizontalBlank => 252int,
        Mode::VerticalBlank => 0int,
    }) + v.mode_clock as int
}

/// The mode machine's own invariant: the line counter and the mode clock
/// stay inside the current mode's bounds.
pub open spec fn spec_mode_wf(v: GpuView) -> bool {
    match v.state.mode {
        Mode::ScanlineOam => v.state.current_line < 144 && v.mode_clock < SCANLINE_OAM_TIME,
        Mode::ScanlineVram => v.state.current_line < 144 && v.mode_clock < SCANLINE_VRAM_TIME,
        Mode::HorizontalBlank => v.state.current_line < 144 && v.mode_clock
            < HORIZONTAL_BLANK_TIME,
        Mode::VerticalBlank => 144 <= v.state.current_line <= 153 && v.mode_clock
            < VERTICAL_BLANK_TIME / 10,
    }
}

/// One step of at most 80 cycles advances the frame position by exactly
/// the delivered cycles (modulo a frame), keeps the mode machine
/// well-formed, and counts a frame exactly when the position crosses the
/// VBlank entry point with the display on.
#[verifier::rlimit(100)]
#[verifier::spinoff_prover]
pub proof fn lemma_gpu_step_frame(v: GpuView, cycles: u8)
    requires
        spec_mode_wf(v),
        cycles <= 80,
    ensures
        ({
            let w = spec_gpu_step(v, cycles);
            let pos = spec_frame_position(v);
            &&& spec_mode_wf(w)
            &&& w.state.display_on == v.state.display_on
            &&& spec_frame_position(w) == (pos + cycles) % (CLOCK_TICKS_PER_FRAME as int)
            &&& w.frame_count == (if v.state.display_on && pos < 65664 <= pos + cycles {
                v.frame_count.wrapping_add(1)
            } else {
                v.frame_count
            })
        }),
{
    reveal(spec_gpu_step);
    let w = spec_gpu_step(v, cycles);
    let pos = spec_frame_position(v);
    assert(0 <= pos < 70224);
    if pos + cycles < 70224 {
        assert((pos + cycles) % 70224 == pos + cycles);
    } else {
        assert((pos + cycles) % 70224 == pos + cycles - 70224);
    }
}

/// The PPU after a whole sequence of steps.
pub open spec fn spec_gpu_steps(v: GpuView, cs: Seq<u8>) -> GpuView
    decreases cs.len(),
{
    if cs.len() == 0 {
        v
    } else {
        spec_gpu_steps(spec_gpu_step(v, cs[0]), cs.drop_first())
    }
}

/// Total cycles of a sequence of steps.
pub open spec fn spec_sum_cycles(cs: Seq<u8>) -> int
    decreases cs.len(),
{
    if cs.len() == 0 {
        0
    } else {
        cs[0] + spec_sum_cycles(cs.drop_first())
    }
}

/// The next position at which a frame is counted, at or after the
/// current one.
pub open spec fn spec_next_vblank_mark(v: GpuView) -> int {
    if spec_frame_position(v) < 65664 {
        65664
    } else {
        65664 + CLOCK_TICKS_PER_FRAME as int
    }
}

/// Over any window of steps totalling at most one frame, the frame
/// counter advances exactly once if the window reaches the next VBlank
/// entry, else not at all (display on throughout).
#[verifier::rlimit(100)]
#[verifier::spinoff_prover]
proof fn lemma_gpu_frame_window(v: GpuView, cs: Seq<u8>)
    requires
        spec_mode_wf(v),
        v.state.display_on,
        forall|i: int| 0 <= i < cs.len() ==> cs[i] <= 80,
        spec_sum_cycles(cs) <= CLOCK_TICKS_PER_FRAME as int,
    ensures
        ({
            let w = spec_gpu_steps(v, cs);
            &&& spec_mode_wf(w)
            &&& w.state.display_on
            &&& spec_frame_position(w) == (spec_frame_position(v) + spec_sum_cycles(cs)) % (
            CLOCK_TICKS_PER_FRAME as int)
            &&& w.frame_count == (if spec_frame_position(v) + spec_sum_cycles(cs)
                >= spec_next_vblank_mark(v) {
                v.frame_count.wrapping_add(1)
            } else {
                v.frame_count
            })
        }),
    decreases cs.len(),
{
    if cs.len() > 0 {
        let c = cs[0];
        let rest = cs.drop_first();
        assert(spec_sum_cycles(rest) >= 0) by {
            lemma_sum_cycles_nonneg(rest);
        }
        lemma_gpu_step_frame(v, c);
        let v1 = spec_gpu_step(v, c);
        lemma_gpu_frame_window(v1, rest);
    }
}

proof fn lemma_sum_cycles_nonneg(cs: Seq<u8>)
    ensures
        0 <= spec_sum_cycles(cs),
    decreases cs.len(),
{
    if cs.len() > 0 {
        lemma_sum_cycles_nonneg(cs.drop_first());
    }
}

/// Frame count: with the display on, any sequence of steps totalling
/// exactly one frame (70224 cycles) passes the VBlank entry exactly
/// once, so exactly one frame is counted.  The per-step bound of 80
/// cycles holds of every step the machine delivers: the CPU's
/// `lemma_cycle_cost_bounded` caps each reported cost at 44.
pub proof fn lemma_one_frame_per_period(v: GpuView, cs: Seq<u8>)
    requires
        spec_mode_wf(v),
        v.state.display_on,
        forall|i: int| 0 <= i < cs.len() ==> cs[i] <= 80,
        spec_sum_cycles(cs) == CLOCK_TICKS_PER_FRAME as int,
    ensures
        spec_gpu_steps(v, cs).frame_count == v.frame_count.wrapping_add(1),
{
    lemma_gpu_frame_window(v, cs);
}

} // verus!
