//! Whole-machine scenarios through the orchestrator, and the audio
//! pacer's observable behaviour.

use rustgb::apu::Apu;
use rustgb::audio::AudioDevice;
use rustgb::cpu::Cpu;
use rustgb::display::Display;
use rustgb::emulator::Emulator;
use rustgb::gpu::Gpu;
use rustgb::io_registers::IoRegisters;
use rustgb::joypad::KeyState;
use rustgb::mbc::create_mbc;
use rustgb::memory::BlockMemory;
use rustgb::memory_map::MemoryMap;
use rustgb::timer::Timer;

struct NullDisplay;

impl Display for NullDisplay {
    fn redraw(&mut self) {}

    fn clear(&mut self) {}

    fn set_line(&mut self, _line: u8, _pixels: &[u8]) {}
}

struct FixedDepthAudio {
    depth: usize,
}

impl AudioDevice for FixedDepthAudio {
    fn queue(&self, _samples: &[i16]) {}

    fn queue_size(&self) -> usize {
        self.depth
    }
}

fn nop_emulator() -> Emulator<FixedDepthAudio, NullDisplay> {
    // An all-zero image is a ROM of NOPs with a plain (bankless) header.
    let rom = BlockMemory::from_bytes(vec![0u8; 0x8000], true);
    let bios = BlockMemory::from_bytes(vec![0u8; 0x100], true);
    let mbc = create_mbc(rom, None).unwrap();
    let io = IoRegisters::new(
        Apu::new(FixedDepthAudio { depth: 3000 }),
        Gpu::new(NullDisplay),
        Timer::new(),
    );
    Emulator::new(Cpu::new(MemoryMap::new(bios, mbc, io)))
}

#[test]
fn one_vblank_per_frame_of_nops() {
    let mut emulator = nop_emulator();
    // Switch the display on; with it off no frame is presented.
    emulator.cpu.memory.io.write_byte(0x40, 0x80);
    let keys = KeyState::none();
    while emulator.cpu.get_clock() < 70224 {
        emulator.step(&keys, false).unwrap();
    }
    assert_eq!(emulator.cpu.memory.io.gpu.frame_count, 1);
    while emulator.cpu.get_clock() < 2 * 70224 {
        emulator.step(&keys, false).unwrap();
    }
    assert_eq!(emulator.cpu.memory.io.gpu.frame_count, 2);
}

#[test]
fn display_off_counts_no_frames() {
    let mut emulator = nop_emulator();
    let keys = KeyState::none();
    while emulator.cpu.get_clock() < 70224 {
        emulator.step(&keys, false).unwrap();
    }
    assert_eq!(emulator.cpu.memory.io.gpu.frame_count, 0);
}

#[test]
fn held_keys_pull_joypad_bits_low() {
    let mut emulator = nop_emulator();
    // Select the direction row.
    emulator.cpu.memory.io.write_byte(0x00, 0x20);
    let mut keys = KeyState::none();
    keys.left = true;
    emulator.step(&keys, false).unwrap();
    let register = emulator.cpu.memory.io.read_byte(0x00);
    // Left pulls bit 1 low; the other direction bits read released.
    assert_eq!(register & 0x0F, 0x0D);
}

#[test]
fn deep_sink_queue_pulls_pitch_down() {
    let mut apu = Apu::new(FixedDepthAudio { depth: 9000 });
    for _ in 0..500 {
        apu.step(200);
    }
    assert!(apu.pitch < 0);
}

#[test]
fn starved_sink_queue_pushes_pitch_up() {
    let mut apu = Apu::new(FixedDepthAudio { depth: 0 });
    for _ in 0..500 {
        apu.step(200);
    }
    assert!(apu.pitch > 0);
}

#[test]
fn length_counter_silences_after_the_loaded_count() {
    let mut channel = rustgb::square_channel::SquareChannel::new();
    channel.restart_sound();
    channel.set_counter(2);
    channel.set_counter_on(true);
    channel.length_counter_tick();
    assert!(channel.get_on());
    channel.length_counter_tick();
    assert!(!channel.get_on());
}

#[test]
fn square_trigger_and_length_enable_are_separate_bits() {
    let mut emulator = nop_emulator();
    // Bit 6 alone enables the length counter without retriggering.
    emulator.cpu.memory.io.write_byte(0x14, 0x40);
    assert!(emulator.cpu.memory.io.apu.channel1.get_counter_on());
    assert!(!emulator.cpu.memory.io.apu.channel1.get_on());
    // Bit 7 alone triggers without touching the length enable.
    emulator.cpu.memory.io.write_byte(0x14, 0x80);
    assert!(!emulator.cpu.memory.io.apu.channel1.get_counter_on());
    assert!(emulator.cpu.memory.io.apu.channel1.get_on());
    // The read-back exposes the length enable at bit 6.
    emulator.cpu.memory.io.write_byte(0x14, 0x40);
    assert_eq!(emulator.cpu.memory.io.read_byte(0x14) & 0x40, 0x40);
}

#[test]
fn resample_produces_the_pitch_adjusted_block_length() {
    let apu = Apu::new(FixedDepthAudio { depth: 3000 });
    let block = apu.resample();
    assert_eq!(block.len(), 1000);
}
