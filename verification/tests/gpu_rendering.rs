//! Scanline rasterization against a test display that captures the
//! delivered lines.

use rustgb::display::{Display, COLS, PIXELS};
use rustgb::gpu::{Gpu, TileMap, TileSet};
use rustgb::memory::Memory;
use rustgb::vram::{OFFSET_TILE_MAP_0, OFFSET_TILE_MAP_1, OFFSET_TILE_SET_0, OFFSET_TILE_SET_1};

struct MockDisplay {
    pixels: Vec<u8>,
}

impl MockDisplay {
    fn new() -> MockDisplay {
        MockDisplay { pixels: vec![0; PIXELS] }
    }
}

impl Display for MockDisplay {
    fn redraw(&mut self) {}

    fn clear(&mut self) {
        self.pixels = vec![0; PIXELS];
    }

    fn set_line(&mut self, line: u8, pixels: &[u8]) {
        let line = line as usize;
        self.pixels[(COLS * line)..(COLS * (line + 1))].copy_from_slice(pixels);
    }
}

fn render_map0_set0() -> Vec<u8> {
    let mut gpu = Gpu::new(MockDisplay::new());
    gpu.state.palettes.bg = 0b11100100;
    gpu.state.set_display_on(true);
    gpu.state.bg_window_tile_set = TileSet::Set0;
    gpu.state.bg_tile_map = TileMap::Map0;
    gpu.state.bg_on = true;
    {
        let vram = gpu.get_vram_mut();
        vram.write_byte(OFFSET_TILE_SET_0 + 0x00, 0b10101010);
        vram.write_byte(OFFSET_TILE_SET_0 + 0x01, 0b10101010);
        vram.write_byte(OFFSET_TILE_SET_0 + 0x10, 0b00000000);
        vram.write_byte(OFFSET_TILE_SET_0 + 0x11, 0b11000110);
        vram.write_byte(OFFSET_TILE_SET_0 - 0x10, 0b00111100);
        vram.write_byte(OFFSET_TILE_SET_0 - 0x0F, 0b00011000);
        vram.write_byte(OFFSET_TILE_MAP_0, 0);
        vram.write_byte(OFFSET_TILE_MAP_0 + 1, 1);
        vram.write_byte(OFFSET_TILE_MAP_0 + 2, -1i8 as u8);
    }
    gpu.render_scanline();
    gpu.display.pixels
}

fn check_map0_set0(pixels: &[u8]) {
    assert_eq!(3, pixels[0x0]);
    assert_eq!(0, pixels[0x1]);
    assert_eq!(3, pixels[0x2]);
    assert_eq!(0, pixels[0x3]);
    assert_eq!(3, pixels[0x4]);
    assert_eq!(0, pixels[0x5]);
    assert_eq!(3, pixels[0x6]);
    assert_eq!(0, pixels[0x7]);

    assert_eq!(2, pixels[0x8]);
    assert_eq!(2, pixels[0x9]);
    assert_eq!(0, pixels[0xA]);
    assert_eq!(0, pixels[0xB]);
    assert_eq!(0, pixels[0xC]);
    assert_eq!(2, pixels[0xD]);
    assert_eq!(2, pixels[0xE]);
    assert_eq!(0, pixels[0xF]);

    assert_eq!(0, pixels[0x10]);
    assert_eq!(0, pixels[0x11]);
    assert_eq!(1, pixels[0x12]);
    assert_eq!(3, pixels[0x13]);
    assert_eq!(3, pixels[0x14]);
    assert_eq!(1, pixels[0x15]);
    assert_eq!(0, pixels[0x16]);
    assert_eq!(0, pixels[0x17]);
}

#[test]
fn test_simple_background_tile_map_0_set_0() {
    let pixels = render_map0_set0();
    check_map0_set0(&pixels);
}

#[test]
fn gpu_test_simple_background_tile_map_0_set_0() {
    let pixels = render_map0_set0();
    check_map0_set0(&pixels);
}

fn render_map1_set0() -> Vec<u8> {
    let mut gpu = Gpu::new(MockDisplay::new());
    gpu.state.palettes.bg = 0b11100100;
    gpu.state.set_display_on(true);
    gpu.state.bg_window_tile_set = TileSet::Set0;
    gpu.state.bg_tile_map = TileMap::Map1;
    gpu.state.bg_on = true;
    {
        let vram = gpu.get_vram_mut();
        vram.write_byte(OFFSET_TILE_SET_0 + 0x00, 0b10101010);
        vram.write_byte(OFFSET_TILE_SET_0 + 0x01, 0b10101010);
        vram.write_byte(OFFSET_TILE_SET_0 + 0x10, 0b00000000);
        vram.write_byte(OFFSET_TILE_SET_0 + 0x11, 0b11000110);
        vram.write_byte(OFFSET_TILE_MAP_1, 0);
        vram.write_byte(OFFSET_TILE_MAP_1 + 1, 1);
    }
    gpu.render_scanline();
    gpu.display.pixels
}

fn check_two_tiles(pixels: &[u8]) {
    assert_eq!(3, pixels[0x0]);
    assert_eq!(0, pixels[0x1]);
    assert_eq!(3, pixels[0x2]);
    assert_eq!(0, pixels[0x3]);
    assert_eq!(3, pixels[0x4]);
    assert_eq!(0, pixels[0x5]);
    assert_eq!(3, pixels[0x6]);
    assert_eq!(0, pixels[0x7]);

    assert_eq!(2, pixels[0x8]);
    assert_eq!(2, pixels[0x9]);
    assert_eq!(0, pixels[0xA]);
    assert_eq!(0, pixels[0xB]);
    assert_eq!(0, pixels[0xC]);
    assert_eq!(2, pixels[0xD]);
    assert_eq!(2, pixels[0xE]);
    assert_eq!(0, pixels[0xF]);
}

#[test]
fn test_simple_background_tile_map_1_set_0() {
    let pixels = render_map1_set0();
    check_two_tiles(&pixels);
}

#[test]
fn gpu_test_simple_background_tile_map_1_set_0() {
    let pixels = render_map1_set0();
    check_two_tiles(&pixels);
}

fn render_map0_set1() -> Vec<u8> {
    let mut gpu = Gpu::new(MockDisplay::new());
    gpu.state.palettes.bg = 0b11100100;
    gpu.state.set_display_on(true);
    gpu.state.bg_window_tile_set = TileSet::Set1;
    gpu.state.bg_tile_map = TileMap::Map0;
    gpu.state.bg_on = true;
    {
        let vram = gpu.get_vram_mut();
        vram.write_byte(OFFSET_TILE_SET_1 + 0x00, 0b10101010);
        vram.write_byte(OFFSET_TILE_SET_1 + 0x01, 0b10101010);
        vram.write_byte(OFFSET_TILE_SET_1 + 0x10, 0b00000000);
        vram.write_byte(OFFSET_TILE_SET_1 + 0x11, 0b11000110);
        vram.write_byte(OFFSET_TILE_MAP_0, 0);
        vram.write_byte(OFFSET_TILE_MAP_0 + 1, 1);
    }
    gpu.render_scanline();
    gpu.display.pixels
}

#[test]
fn test_simple_background_tile_map_0_set_1() {
    let pixels = render_map0_set1();
    check_two_tiles(&pixels);
}

#[test]
fn gpu_test_simple_background_tile_map_0_set_1() {
    let pixels = render_map0_set1();
    check_two_tiles(&pixels);
}

#[test]
fn tests_test_simple_background_tile_map_0_set_0() {
    let pixels = render_map0_set0();
    check_map0_set0(&pixels);
}

#[test]
fn tests_test_simple_background_tile_map_1_set_0() {
    let pixels = render_map1_set0();
    check_two_tiles(&pixels);
}

#[test]
fn tests_test_simple_background_tile_map_0_set_1() {
    let pixels = render_map0_set1();
    check_two_tiles(&pixels);
}
