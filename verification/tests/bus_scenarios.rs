//! Bus-level scenarios: RAM round trips, word endianness, the BIOS
//! hand-off, OAM DMA, cartridge selection and tile decoding.

use rustgb::apu::Apu;
use rustgb::audio::AudioDevice;
use rustgb::display::Display;
use rustgb::gpu::{Gpu, TileSet};
use rustgb::io_registers::IoRegisters;
use rustgb::mbc::create_mbc;
use rustgb::memory::{BlockMemory, Memory};
use rustgb::memory_map::MemoryMap;
use rustgb::palette::{apply_palette, Palette, Palettes};
use rustgb::timer::Timer;
use rustgb::vram::TileRow;

struct NullDisplay;

impl Display for NullDisplay {
    fn redraw(&mut self) {}

    fn clear(&mut self) {}

    fn set_line(&mut self, _line: u8, _pixels: &[u8]) {}
}

struct NullAudio;

impl AudioDevice for NullAudio {
    fn queue(&self, _samples: &[i16]) {}

    fn queue_size(&self) -> usize {
        0
    }
}

fn make_map(rom: Vec<u8>, bios: Vec<u8>) -> MemoryMap<NullAudio, NullDisplay> {
    let rom_block = BlockMemory::from_bytes(rom, true);
    let mbc = create_mbc(rom_block, None).unwrap();
    let io = IoRegisters::new(Apu::new(NullAudio), Gpu::new(NullDisplay), Timer::new());
    MemoryMap::new(BlockMemory::from_bytes(bios, true), mbc, io)
}

fn plain_map() -> MemoryMap<NullAudio, NullDisplay> {
    let rom = vec![0u8; 0x8000];
    let bios = vec![0u8; 0x100];
    make_map(rom, bios)
}

#[test]
fn work_ram_and_high_ram_round_trip() {
    let mut map = plain_map();
    map.write_byte(0xC123, 0xAB);
    assert_eq!(map.read_byte(0xC123), 0xAB);
    // The echo region mirrors work RAM.
    assert_eq!(map.read_byte(0xE123), 0xAB);
    map.write_byte(0xFF85, 0x5C);
    assert_eq!(map.read_byte(0xFF85), 0x5C);
    map.write_byte(0xFFFF, 0x1F);
    assert_eq!(map.read_byte(0xFFFF), 0x1F);
}

#[test]
fn word_write_is_little_endian() {
    let mut map = plain_map();
    map.write_word(0xC200, 0xBEEF);
    assert_eq!(map.read_byte(0xC200), 0xEF);
    assert_eq!(map.read_byte(0xC201), 0xBE);
    assert_eq!(map.read_word(0xC200), 0xBEEF);
}

#[test]
fn bios_hand_off_reads_rom_forever() {
    let mut rom = vec![0u8; 0x8000];
    rom[0x50] = 0x77;
    let mut bios = vec![0u8; 0x100];
    bios[0x50] = 0x33;
    let mut map = make_map(rom, bios);
    assert!(map.in_bios());
    assert_eq!(map.read_byte(0x50), 0x33);
    map.leave_bios();
    assert!(!map.in_bios());
    assert_eq!(map.read_byte(0x50), 0x77);
    // Writes to the ROM window are bank commands, never data; the low
    // bytes keep coming from the cartridge.
    map.write_byte(0x50, 0x99);
    assert_eq!(map.read_byte(0x50), 0x77);
}

#[test]
fn oam_dma_copies_one_hundred_sixty_bytes() {
    let mut map = plain_map();
    let mut i: u16 = 0;
    while i < 0xA0 {
        map.write_byte(0xC000 + i, (i as u8).wrapping_mul(3).wrapping_add(1));
        i += 1;
    }
    map.write_byte(0xFF46, 0xC0);
    let mut i: u16 = 0;
    while i < 0xA0 {
        assert_eq!(
            map.read_byte(0xFE00 + i),
            (i as u8).wrapping_mul(3).wrapping_add(1)
        );
        i += 1;
    }
}

#[test]
fn unmapped_gap_reads_all_ones() {
    let mut map = plain_map();
    map.write_byte(0xFEA5, 0x12);
    assert_eq!(map.read_byte(0xFEA5), 0xFF);
}

#[test]
fn unsupported_cartridge_type_is_reported() {
    let mut rom = vec![0u8; 0x8000];
    rom[0x147] = 0x05;
    let err = match create_mbc(BlockMemory::from_bytes(rom, true), None) {
        Ok(_) => panic!("an unsupported controller type must be refused"),
        Err(e) => e,
    };
    assert_eq!(err, 0x05);
}

#[test]
fn mbc1_switches_rom_banks() {
    let mut rom = vec![0u8; 0x20000];
    rom[0x147] = 0x01;
    rom[0x4000] = 11;  // bank 1
    rom[0x8000] = 22;  // bank 2
    let mut mbc = create_mbc(BlockMemory::from_bytes(rom, true), None).unwrap();
    assert_eq!(mbc.read_byte(0x4000), 11);
    mbc.write_byte(0x2000, 0x02);
    assert_eq!(mbc.read_byte(0x4000), 22);
    // The zero value for the low bank bits selects bank 1, not bank 0.
    mbc.write_byte(0x2000, 0x00);
    assert_eq!(mbc.read_byte(0x4000), 11);
}

#[test]
fn tile_row_decodes_interleaved_bits() {
    // Byte 0 carries the low bits, byte 1 the high bits.
    let row = TileRow { low_bits: 0xF0, high_bits: 0x3C };
    let expected = [1, 1, 3, 3, 2, 2, 0, 0];
    for x in 0..8u8 {
        assert_eq!(row.get_pixel(x), expected[x as usize]);
    }
}

#[test]
fn minimal_rasterization_fills_a_line_with_shade_one() {
    struct CaptureDisplay {
        line: Vec<u8>,
    }

    impl Display for CaptureDisplay {
        fn redraw(&mut self) {}

        fn clear(&mut self) {}

        fn set_line(&mut self, _line: u8, pixels: &[u8]) {
            self.line = pixels.to_vec();
        }
    }

    let mut gpu = Gpu::new(CaptureDisplay { line: Vec::new() });
    gpu.state.set_display_on(true);
    gpu.state.bg_on = true;
    gpu.state.bg_window_tile_set = TileSet::Set1;
    gpu.state.palettes.bg = 0xE4;
    {
        let vram = gpu.get_vram_mut();
        let mut offset: u16 = 0;
        while offset < 16 {
            vram.write_byte(offset, 0xFF);
            vram.write_byte(offset + 1, 0x00);
            offset += 2;
        }
    }
    gpu.render_scanline();
    assert_eq!(gpu.display.line.len(), 160);
    for px in &gpu.display.line {
        assert_eq!(*px, 1);
    }
}

#[test]
fn palette_translates_each_entry() {
    // 0x1B holds the entries 3, 2, 1, 0 for raw values 0..3.
    let palettes = Palettes { bg: 0x1B, obj0: 0, obj1: 0 };
    assert_eq!(apply_palette(0, Palette::BackgroundPalette, &palettes), 3);
    assert_eq!(apply_palette(1, Palette::BackgroundPalette, &palettes), 2);
    assert_eq!(apply_palette(2, Palette::BackgroundPalette, &palettes), 1);
    assert_eq!(apply_palette(3, Palette::BackgroundPalette, &palettes), 0);
}
