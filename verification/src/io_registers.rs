//! The I/O register file at 0xFF00..0xFF7F: a bit-exact projection of
//! timer, PPU and APU state onto memory-mapped addresses.  Unused bits
//! read 1; registers no peripheral owns live in a plain backing block.
//!
//! `spec_io_read` and `spec_io_write` give the exact register map;
//! the executable methods are bound to them.

use vstd::prelude::*;

use crate::apu::Apu;
use crate::apu::ApuView;
use crate::audio::AudioDevice;
use crate::display::Display;
use crate::gpu::Gpu;
use crate::gpu::GpuState;
use crate::gpu::GpuView;
use crate::gpu::TileMap;
use crate::gpu::TileSet;
use crate::memory::BlockMemory;
use crate::memory::BlockMemoryView;
use crate::timer::Timer;
use crate::timer::TimerSpeed;
use crate::wave_channel::WaveChannelView;

verus! {

pub fn bool_to_tile_set(b: bool) -> (r: TileSet)
    ensures
        r == (if b {
            TileSet::Set1
        } else {
            TileSet::Set0
        }),
{
    if b {
        TileSet::Set1
    } else {
        TileSet::Set0
    }
}

pub fn tile_set_to_bool(tile_set: TileSet) -> (r: bool)
    ensures
        r == (tile_set is Set1),
{
    match tile_set {
        TileSet::Set0 => false,
        TileSet::Set1 => true,
    }
}

pub fn bool_to_tile_map(b: bool) -> (r: TileMap)
    ensures
        r == (if b {
            TileMap::Map1
        } else {
            TileMap::Map0
        }),
{
    if b {
        TileMap::Map1
    } else {
        TileMap::Map0
    }
}

pub fn tile_map_to_bool(tile_map: TileMap) -> (r: bool)
    ensures
        r == (tile_map is Map1),
{
    match tile_map {
        TileMap::Map0 => false,
        TileMap::Map1 => true,
    }
}

pub open spec fn spec_bit(b: bool) -> u8 {
    if b {
        1u8
    } else {
        0u8
    }
}

/// Bounds of the masked fields a register write extracts.
proof fn lemma_masked_bounds(value: u8)
    by (bit_vector)
    ensures
        value & 0x3 < 4,
        value & 0x3F < 64,
        (value & 0xC0) >> 6 < 4,
        (value & 0xF0) >> 4 < 16,
        value & 0x7 < 8,
        value & 0xF < 16,
        (value & 0x60) >> 5 < 4,
{
}

fn bit(b: bool) -> (r: u8)
    ensures
        r == spec_bit(b),
{
    if b {
        1
    } else {
        0
    }
}

/// Mathematical content of the register file and the peripherals behind
/// it.
pub struct IoView {
    pub old_io: BlockMemoryView,
    pub apu: ApuView,
    pub gpu: GpuView,
    pub timer: Timer,
}

impl IoView {
    /// The APU behind the register file keeps its registers in range and
    /// its sample and sequencer clocks inside one period.
    pub open spec fn wf(self) -> bool {
        self.apu.wf()
    }
}

/// The register file, owning the peripherals it projects.
pub struct IoRegisters<A, D> {
    pub old_io: BlockMemory,
    pub apu: Apu<A>,
    pub gpu: Gpu<D>,
    pub timer: Timer,
}

impl<A, D> View for IoRegisters<A, D> {
    type V = IoView;

    open spec fn view(&self) -> IoView {
        IoView { old_io: self.old_io@, apu: self.apu@, gpu: self.gpu@, timer: self.timer }
    }
}

/// An envelope register byte: starting volume in the high nibble,
/// direction on bit 3, period in the low three bits.
pub open spec fn spec_envelope_byte(starting_volume: u8, direction: bool, period: u8) -> u8 {
    ((starting_volume & 0xF) << 4) | (spec_bit(direction) << 3) | (period & 0x7)
}

/// The byte a read of register `address` (offset into 0xFF00..) returns.
#[verifier::opaque]
pub open spec fn spec_io_read(v: IoView, address: u16) -> u8 {
    let old_io = v.old_io.read(address as int);
    if address == 0x00 {
        old_io | 0xC0
    } else if address == 0x02 {
        old_io | 0x7E
    } else if address == 0x04 {
        (v.timer.internal_counter / 0x100) as u8
    } else if address == 0x05 {
        v.timer.timer_counter
    } else if address == 0x06 {
        v.timer.timer_modulo
    } else if address == 0x07 {
        v.timer.timer_speed.spec_to_u8() | (spec_bit(v.timer.timer_enabled) << 2) | 0xF8
    } else if address == 0x0F {
        (old_io & 0x18) | spec_bit(v.gpu.state.vblank_interrupt_status) | (spec_bit(
            v.gpu.state.state_interrupt_status,
        ) << 1) | (spec_bit(v.timer.timer_interrupt) << 2) | 0xE0
    } else if address == 0x10 {
        old_io | 0x80
    } else if address == 0x11 {
        (v.apu.channel1.duty << 6) | 0x3F
    } else if address == 0x12 {
        spec_envelope_byte(
            v.apu.channel1.envelope_starting_volume,
            v.apu.channel1.volume_envelope_direction,
            v.apu.channel1.volume_envelope_period,
        )
    } else if address == 0x13 {
        v.apu.channel1.frequency_lo
    } else if address == 0x14 {
        (v.apu.channel1.frequency_hi & 0x7) | (spec_bit(v.apu.channel1.counter_on) << 6) | 0xB8
    } else if address == 0x16 {
        (v.apu.channel2.duty << 6) | 0x3F
    } else if address == 0x17 {
        spec_envelope_byte(
            v.apu.channel2.envelope_starting_volume,
            v.apu.channel2.volume_envelope_direction,
            v.apu.channel2.volume_envelope_period,
        )
    } else if address == 0x18 {
        v.apu.channel2.frequency_lo
    } else if address == 0x19 {
        (v.apu.channel2.frequency_hi & 0x7) | (spec_bit(v.apu.channel2.counter_on) << 6) | 0xB8
    } else if address == 0x1A {
        (spec_bit(v.apu.channel3.on) << 7) | 0x7F
    } else if address == 0x1B {
        old_io
    } else if address == 0x1C {
        old_io | 0x9F
    } else if address == 0x1D {
        v.apu.channel3.frequency_lo
    } else if address == 0x1E {
        (v.apu.channel3.frequency_hi & 0x7) | (spec_bit(v.apu.channel3.counter_on) << 6) | 0xB8
    } else if address == 0x20 {
        old_io | 0xC0
    } else if address == 0x21 {
        spec_envelope_byte(
            v.apu.channel4.envelope_starting_volume,
            v.apu.channel4.volume_envelope_direction,
            v.apu.channel4.volume_envelope_period,
        )
    } else if address == 0x22 {
        ((v.apu.channel4.prescaler_divider & 0xF) << 4) | (spec_bit(
            v.apu.channel4.shift_register_width is SevenBit,
        ) << 3) | (v.apu.channel4.clock_divider & 0x7)
    } else if address == 0x23 {
        (spec_bit(v.apu.channel4.counter_on) << 6) | 0xBF
    } else if address == 0x26 {
        (spec_bit(v.apu.sound_on) << 7) | spec_bit(v.apu.channel1.on) | (spec_bit(
            v.apu.channel2.on,
        ) << 1) | 0x70
    } else if 0x30 <= address <= 0x3F {
        let offset = (address - 0x30) * 2;
        ((v.apu.channel3.wave_pattern[offset as int] & 0xF) << 4) | (
        v.apu.channel3.wave_pattern[offset + 1] & 0xF)
    } else if address == 0x40 {
        spec_bit(v.gpu.state.bg_on) | (spec_bit(v.gpu.state.sprites_on) << 1) | (spec_bit(
            v.gpu.state.large_sprites,
        ) << 2) | (spec_bit(v.gpu.state.bg_tile_map is Map1) << 3) | (spec_bit(
            v.gpu.state.bg_window_tile_set is Set1,
        ) << 4) | (spec_bit(v.gpu.state.window_on) << 5) | (spec_bit(
            v.gpu.state.window_tile_map is Map1,
        ) << 6) | (spec_bit(v.gpu.state.display_on) << 7)
    } else if address == 0x41 {
        (old_io & 0x04) | v.gpu.state.spec_mode_bits() | (spec_bit(
            v.gpu.state.state_interrupt_hblank,
        ) << 3) | (spec_bit(v.gpu.state.state_interrupt_vblank) << 4) | (spec_bit(
            v.gpu.state.state_interrupt_oam,
        ) << 5) | (spec_bit(v.gpu.state.state_interrupt_lycly_coincidence) << 6) | 0x80
    } else if address == 0x42 {
        v.gpu.state.scy
    } else if address == 0x43 {
        v.gpu.state.scx
    } else if address == 0x44 {
        v.gpu.state.current_line
    } else if address == 0x45 {
        v.gpu.state.lyc
    } else if address == 0x47 {
        v.gpu.state.palettes.bg
    } else if address == 0x48 {
        v.gpu.state.palettes.obj0
    } else if address == 0x49 {
        v.gpu.state.palettes.obj1
    } else if address == 0x4A {
        v.gpu.state.window_y
    } else if address == 0x4B {
        v.gpu.state.window_x
    } else if address == 0x03 || (0x08 <= address <= 0x0E) || address == 0x15 || address == 0x1F
        || address == 0x27 || address == 0x28 || address == 0x29 || (0x4C <= address <= 0x7F) {
        0xFF
    } else {
        old_io
    }
}

/// The register file after a write of `value` to register `address`.
#[verifier::opaque]
pub open spec fn spec_io_write(v: IoView, address: u16, value: u8) -> IoView {
    if address == 0x04 {
        IoView { timer: v.timer.spec_change_counter_to(0), ..v }
    } else if address == 0x05 {
        IoView { timer: Timer { timer_counter: value, ..v.timer }, ..v }
    } else if address == 0x06 {
        IoView { timer: Timer { timer_modulo: value, ..v.timer }, ..v }
    } else if address == 0x07 {
        IoView {
            timer: Timer {
                timer_speed: TimerSpeed::spec_from_u8(value & 0x3),
                timer_enabled: value & 0x4 != 0,
                ..v.timer
            },
            ..v
        }
    } else if address == 0x0F {
        IoView {
            gpu: GpuView {
                state: GpuState {
                    vblank_interrupt_status: value & 1 != 0,
                    state_interrupt_status: value & 2 != 0,
                    ..v.gpu.state
                },
                ..v.gpu
            },
            timer: Timer { timer_interrupt: value & 4 != 0, ..v.timer },
            old_io: v.old_io.write(address as int, value),
            ..v
        }
    } else if address == 0x11 {
        IoView {
            apu: ApuView {
                channel1: crate::square_channel::SquareChannel {
                    counter: (64 - ((value & 0x3F) as int)) as u8,
                    duty: (value & 0xC0) >> 6,
                    ..v.apu.channel1
                },
                ..v.apu
            },
            ..v
        }
    } else if address == 0x12 {
        IoView {
            apu: ApuView {
                channel1: crate::square_channel::SquareChannel {
                    envelope_starting_volume: (value & 0xF0) >> 4,
                    volume: (value & 0xF0) >> 4,
                    volume_envelope_direction: value & 0x8 != 0,
                    volume_envelope_period: value & 0x7,
                    volume_envelope_tick_counts: value & 0x7,
                    ..v.apu.channel1
                },
                ..v.apu
            },
            ..v
        }
    } else if address == 0x13 {
        IoView {
            apu: ApuView {
                channel1: v.apu.channel1.spec_with_frequency(v.apu.channel1.frequency_hi, value),
                ..v.apu
            },
            ..v
        }
    } else if address == 0x14 {
        let restarted = if value & 0x80 != 0 {
            crate::square_channel::SquareChannel { on: true, ..v.apu.channel1 }
        } else {
            v.apu.channel1
        };
        let gated = crate::square_channel::SquareChannel {
            counter_on: value & 0x40 != 0,
            ..restarted
        };
        IoView {
            apu: ApuView {
                channel1: gated.spec_with_frequency(value & 0x7, gated.frequency_lo),
                ..v.apu
            },
            ..v
        }
    } else if address == 0x16 {
        IoView {
            apu: ApuView {
                channel2: crate::square_channel::SquareChannel {
                    counter: (64 - ((value & 0x3F) as int)) as u8,
                    duty: (value & 0xC0) >> 6,
                    ..v.apu.channel2
                },
                ..v.apu
            },
            ..v
        }
    } else if address == 0x17 {
        IoView {
            apu: ApuView {
                channel2: crate::square_channel::SquareChannel {
                    envelope_starting_volume: (value & 0xF0) >> 4,
                    volume: (value & 0xF0) >> 4,
                    volume_envelope_direction: value & 0x8 != 0,
                    volume_envelope_period: value & 0x7,
                    volume_envelope_tick_counts: value & 0x7,
                    ..v.apu.channel2
                },
                ..v.apu
            },
            ..v
        }
    } else if address == 0x18 {
        IoView {
            apu: ApuView {
                channel2: v.apu.channel2.spec_with_frequency(v.apu.channel2.frequency_hi, value),
                ..v.apu
            },
            ..v
        }
    } else if address == 0x19 {
        let restarted = if value & 0x80 != 0 {
            crate::square_channel::SquareChannel { on: true, ..v.apu.channel2 }
        } else {
            v.apu.channel2
        };
        let gated = crate::square_channel::SquareChannel {
            counter_on: value & 0x40 != 0,
            ..restarted
        };
        IoView {
            apu: ApuView {
                channel2: gated.spec_with_frequency(value & 0x7, gated.frequency_lo),
                ..v.apu
            },
            ..v
        }
    } else if address == 0x1A {
        IoView {
            apu: ApuView {
                channel3: WaveChannelView { on: value & 0x80 != 0, ..v.apu.channel3 },
                ..v.apu
            },
            ..v
        }
    } else if address == 0x1B {
        IoView {
            apu: ApuView {
                channel3: WaveChannelView {
                    counter: (256 - value as int) as u16,
                    ..v.apu.channel3
                },
                ..v.apu
            },
            old_io: v.old_io.write(address as int, value),
            ..v
        }
    } else if address == 0x1C {
        let volume: u8 = match (value & 0x60) >> 5 {
            0u8 => 0,
            1u8 => 3,
            2u8 => 2,
            _ => 1,
        };
        IoView {
            apu: ApuView {
                channel3: WaveChannelView { volume, ..v.apu.channel3 },
                ..v.apu
            },
            old_io: v.old_io.write(address as int, value),
            ..v
        }
    } else if address == 0x1D {
        IoView {
            apu: ApuView {
                channel3: v.apu.channel3.spec_with_frequency(v.apu.channel3.frequency_hi, value),
                ..v.apu
            },
            ..v
        }
    } else if address == 0x1E {
        let restarted = if value & 0x80 != 0 {
            WaveChannelView { wave_pattern_step: 0, ..v.apu.channel3 }
        } else {
            v.apu.channel3
        };
        let gated = WaveChannelView { counter_on: value & 0x40 != 0, ..restarted };
        IoView {
            apu: ApuView {
                channel3: gated.spec_with_frequency(value & 0x7, gated.frequency_lo),
                ..v.apu
            },
            ..v
        }
    } else if address == 0x20 {
        IoView {
            apu: ApuView {
                channel4: crate::noise_channel::NoiseChannel {
                    counter: (64 - ((value & 0x3F) as int)) as u8,
                    ..v.apu.channel4
                },
                ..v.apu
            },
            old_io: v.old_io.write(address as int, value),
            ..v
        }
    } else if address == 0x21 {
        IoView {
            apu: ApuView {
                channel4: crate::noise_channel::NoiseChannel {
                    envelope_starting_volume: (value & 0xF0) >> 4,
                    volume: (value & 0xF0) >> 4,
                    volume_envelope_direction: value & 0x8 != 0,
                    volume_envelope_period: value & 0x7,
                    volume_envelope_tick_counts: value & 0x7,
                    ..v.apu.channel4
                },
                ..v.apu
            },
            ..v
        }
    } else if address == 0x22 {
        let with_prescaler = v.apu.channel4.spec_with_dividers(
            v.apu.channel4.clock_divider,
            (value & 0xF0) >> 4,
        );
        let with_width = crate::noise_channel::NoiseChannel {
            shift_register_width: if value & 0x8 != 0 {
                crate::noise_channel::ShiftRegisterWidth::SevenBit
            } else {
                crate::noise_channel::ShiftRegisterWidth::FifteenBit
            },
            shift_register: 0x7FFF,
            ..with_prescaler
        };
        IoView {
            apu: ApuView {
                channel4: with_width.spec_with_dividers(value & 0x7, with_width.prescaler_divider),
                ..v.apu
            },
            ..v
        }
    } else if address == 0x23 {
        let restarted = if value & 0x80 != 0 {
            crate::noise_channel::NoiseChannel { on: true, ..v.apu.channel4 }
        } else {
            v.apu.channel4
        };
        IoView {
            apu: ApuView {
                channel4: crate::noise_channel::NoiseChannel {
                    counter_on: value & 0x40 != 0,
                    ..restarted
                },
                ..v.apu
            },
            ..v
        }
    } else if address == 0x26 {
        IoView { apu: ApuView { sound_on: value & 0x80 != 0, ..v.apu }, ..v }
    } else if 0x30 <= address <= 0x3F {
        let offset = (address - 0x30) * 2;
        IoView {
            apu: ApuView {
                channel3: WaveChannelView {
                    wave_pattern: v.apu.channel3.wave_pattern.update(
                        offset as int,
                        (value & 0xF0) >> 4,
                    ).update(offset + 1, value & 0xF),
                    ..v.apu.channel3
                },
                ..v.apu
            },
            ..v
        }
    } else if address == 0x41 {
        IoView {
            gpu: GpuView {
                state: GpuState {
                    state_interrupt_hblank: value & 0x08 != 0,
                    state_interrupt_vblank: value & 0x10 != 0,
                    state_interrupt_oam: value & 0x20 != 0,
                    state_interrupt_lycly_coincidence: value & 0x40 != 0,
                    ..v.gpu.state
                },
                ..v.gpu
            },
            ..v
        }
    } else if address == 0x40 {
        IoView {
            gpu: GpuView {
                state: GpuState {
                    bg_on: value & 0x01 != 0,
                    sprites_on: value & 0x02 != 0,
                    large_sprites: value & 0x04 != 0,
                    bg_tile_map: if value & 0x08 != 0 {
                        TileMap::Map1
                    } else {
                        TileMap::Map0
                    },
                    bg_window_tile_set: if value & 0x10 != 0 {
                        TileSet::Set1
                    } else {
                        TileSet::Set0
                    },
                    window_on: value & 0x20 != 0,
                    window_tile_map: if value & 0x40 != 0 {
                        TileMap::Map1
                    } else {
                        TileMap::Map0
                    },
                    display_on: value & 0x80 != 0,
                    ..v.gpu.state
                },
                ..v.gpu
            },
            ..v
        }
    } else if address == 0x42 {
        IoView { gpu: GpuView { state: GpuState { scy: value, ..v.gpu.state }, ..v.gpu }, ..v }
    } else if address == 0x43 {
        IoView { gpu: GpuView { state: GpuState { scx: value, ..v.gpu.state }, ..v.gpu }, ..v }
    } else if address == 0x44 {
        v
    } else if address == 0x45 {
        IoView { gpu: GpuView { state: GpuState { lyc: value, ..v.gpu.state }, ..v.gpu }, ..v }
    } else if address == 0x4A {
        IoView {
            gpu: GpuView { state: GpuState { window_y: value, ..v.gpu.state }, ..v.gpu },
            ..v
        }
    } else if address == 0x4B {
        IoView {
            gpu: GpuView { state: GpuState { window_x: value, ..v.gpu.state }, ..v.gpu },
            ..v
        }
    } else if address == 0x47 {
        IoView {
            gpu: GpuView {
                state: GpuState {
                    palettes: crate::palette::Palettes { bg: value, ..v.gpu.state.palettes },
                    ..v.gpu.state
                },
                ..v.gpu
            },
            ..v
        }
    } else if address == 0x48 {
        IoView {
            gpu: GpuView {
                state: GpuState {
                    palettes: crate::palette::Palettes { obj0: value, ..v.gpu.state.palettes },
                    ..v.gpu.state
                },
                ..v.gpu
            },
            ..v
        }
    } else if address == 0x49 {
        IoView {
            gpu: GpuView {
                state: GpuState {
                    palettes: crate::palette::Palettes { obj1: value, ..v.gpu.state.palettes },
                    ..v.gpu.state
                },
                ..v.gpu
            },
            ..v
        }
    } else {
        IoView { old_io: v.old_io.write(address as int, value), ..v }
    }
}

/// A register write leaves the APU's registers in range and never
/// touches VRAM or OAM.
#[verifier::rlimit(100)]
pub proof fn lemma_io_write_wf(v: IoView, address: u16, value: u8)
    requires
        v.wf(),
    ensures
        spec_io_write(v, address, value).wf(),
        spec_io_write(v, address, value).gpu.vram == v.gpu.vram,
        spec_io_write(v, address, value).gpu.oam == v.gpu.oam,
{
    reveal(spec_io_write);
    lemma_masked_bounds(value);
}

impl<A: AudioDevice, D: Display> IoRegisters<A, D> {
    /// A register file around freshly powered peripherals.
    pub fn new(apu: Apu<A>, gpu: Gpu<D>, timer: Timer) -> (r: IoRegisters<A, D>)
        ensures
            r@.old_io == crate::memory::spec_zero_block(0x80),
            r@.apu == apu@,
            r@.gpu == gpu@,
            r@.timer == timer,
    {
        let old_io = BlockMemory::new(0x80);
        proof {
            assert(old_io@.bytes =~= crate::memory::spec_zero_block(0x80).bytes);
        }
        IoRegisters { old_io, apu, gpu, timer }
    }

    /// Read register `address` (an offset into 0xFF00..0xFF7F).
    pub fn read_byte(&self, address: u16) -> (r: u8)
        requires
            self@.wf(),
        ensures
            r == spec_io_read(self@, address),
    {
        proof {
            reveal(spec_io_read);
        }
        let old_io = self.old_io.read_byte_usize(address as usize);
        if address == 0x00 {
            old_io | 0xC0
        } else if address == 0x02 {
            old_io | 0x7E
        } else if address == 0x04 {
            self.timer.get_divider()
        } else if address == 0x05 {
            self.timer.timer_counter
        } else if address == 0x06 {
            self.timer.timer_modulo
        } else if address == 0x07 {
            self.timer.timer_speed.to_u8() | (bit(self.timer.timer_enabled) << 2) | 0xF8
        } else if address == 0x0F {
            (old_io & 0x18) | bit(self.gpu.state.vblank_interrupt_status) | (bit(
                self.gpu.state.state_interrupt_status,
            ) << 1) | (bit(self.timer.timer_interrupt) << 2) | 0xE0
        } else if address == 0x10 {
            old_io | 0x80
        } else if address == 0x11 {
            (self.apu.channel1.get_duty() << 6) | 0x3F
        } else if address == 0x12 {
            ((self.apu.channel1.get_envelope_starting_volume() & 0xF) << 4) | (bit(
                self.apu.channel1.get_volume_envelope_direction(),
            ) << 3) | (self.apu.channel1.get_volume_envelope_period() & 0x7)
        } else if address == 0x13 {
            self.apu.channel1.get_frequency_lo()
        } else if address == 0x14 {
            (self.apu.channel1.get_frequency_hi() & 0x7) | (bit(
                self.apu.channel1.get_counter_on(),
            ) << 6) | 0xB8
        } else if address == 0x16 {
            (self.apu.channel2.get_duty() << 6) | 0x3F
        } else if address == 0x17 {
            ((self.apu.channel2.get_envelope_starting_volume() & 0xF) << 4) | (bit(
                self.apu.channel2.get_volume_envelope_direction(),
            ) << 3) | (self.apu.channel2.get_volume_envelope_period() & 0x7)
        } else if address == 0x18 {
            self.apu.channel2.get_frequency_lo()
        } else if address == 0x19 {
            (self.apu.channel2.get_frequency_hi() & 0x7) | (bit(
                self.apu.channel2.get_counter_on(),
            ) << 6) | 0xB8
        } else if address == 0x1A {
            (bit(self.apu.channel3.get_on()) << 7) | 0x7F
        } else if address == 0x1B {
            old_io
        } else if address == 0x1C {
            old_io | 0x9F
        } else if address == 0x1D {
            self.apu.channel3.get_frequency_lo()
        } else if address == 0x1E {
            (self.apu.channel3.get_frequency_hi() & 0x7) | (bit(
                self.apu.channel3.get_counter_on(),
            ) << 6) | 0xB8
        } else if address == 0x20 {
            old_io | 0xC0
        } else if address == 0x21 {
            ((self.apu.channel4.get_envelope_starting_volume() & 0xF) << 4) | (bit(
                self.apu.channel4.get_volume_envelope_direction(),
            ) << 3) | (self.apu.channel4.get_volume_envelope_period() & 0x7)
        } else if address == 0x22 {
            ((self.apu.channel4.get_prescaler_divider() & 0xF) << 4) | (bit(
                self.apu.channel4.get_shift_register_width(),
            ) << 3) | (self.apu.channel4.get_clock_divider() & 0x7)
        } else if address == 0x23 {
            (bit(self.apu.channel4.get_counter_on()) << 6) | 0xBF
        } else if address == 0x26 {
            (bit(self.apu.get_sound_on()) << 7) | bit(self.apu.channel1.get_on()) | (bit(
                self.apu.channel2.get_on(),
            ) << 1) | 0x70
        } else if 0x30 <= address && address <= 0x3F {
            let offset = ((address - 0x30) * 2) as usize;
            let first = self.apu.channel3.wave_pattern[offset];
            let second = self.apu.channel3.wave_pattern[offset + 1];
            ((first & 0xF) << 4) | (second & 0xF)
        } else if address == 0x40 {
            bit(self.gpu.state.bg_on) | (bit(self.gpu.state.sprites_on) << 1) | (bit(
                self.gpu.state.large_sprites,
            ) << 2) | (bit(tile_map_to_bool(self.gpu.state.bg_tile_map)) << 3) | (bit(
                tile_set_to_bool(self.gpu.state.bg_window_tile_set),
            ) << 4) | (bit(self.gpu.state.window_on) << 5) | (bit(
                tile_map_to_bool(self.gpu.state.window_tile_map),
            ) << 6) | (bit(self.gpu.state.get_display_on()) << 7)
        } else if address == 0x41 {
            (old_io & 0x04) | self.gpu.state.get_mode() | (bit(
                self.gpu.state.state_interrupt_hblank,
            ) << 3) | (bit(self.gpu.state.state_interrupt_vblank) << 4) | (bit(
                self.gpu.state.state_interrupt_oam,
            ) << 5) | (bit(self.gpu.state.state_interrupt_lycly_coincidence) << 6) | 0x80
        } else if address == 0x42 {
            self.gpu.state.scy
        } else if address == 0x43 {
            self.gpu.state.scx
        } else if address == 0x44 {
            self.gpu.state.get_current_line()
        } else if address == 0x45 {
            self.gpu.state.lyc
        } else if address == 0x47 {
            self.gpu.state.palettes.bg
        } else if address == 0x48 {
            self.gpu.state.palettes.obj0
        } else if address == 0x49 {
            self.gpu.state.palettes.obj1
        } else if address == 0x4A {
            self.gpu.state.window_y
        } else if address == 0x4B {
            self.gpu.state.window_x
        } else if address == 0x03 || (0x08 <= address && address <= 0x0E) || address == 0x15
            || address == 0x1F || address == 0x27 || address == 0x28 || address == 0x29 || (0x4C
            <= address && address <= 0x7F) {
            0xFF
        } else {
            old_io
        }
    }

    /// The square-channel block of the register map (0xFF10..0xFF19).
    #[verifier::rlimit(100)]
    fn write_square_byte(&mut self, address: u16, value: u8)
        requires
            old(self)@.wf(),
            0x10 <= address <= 0x19,
        ensures
            final(self)@ == spec_io_write(old(self)@, address, value),
            final(self).apu.audio_device == old(self).apu.audio_device,
    {
        proof {
            reveal(spec_io_write);
            lemma_masked_bounds(value);
        }
        if address == 0x11 {
            let length = value & 0x3F;
            let duty = (value & 0xC0) >> 6;
            self.apu.channel1.set_counter(64 - length);
            self.apu.channel1.set_duty(duty);
        } else if address == 0x12 {
            self.apu.channel1.set_envelope_starting_volume((value & 0xF0) >> 4);
            self.apu.channel1.set_volume_envelope_direction(value & 0x8 != 0);
            self.apu.channel1.set_volume_envelope_period(value & 0x7);
        } else if address == 0x13 {
            self.apu.channel1.set_frequency_lo(value);
        } else if address == 0x14 {
            if value & 0x80 != 0 {
                self.apu.channel1.restart_sound();
            }
            self.apu.channel1.set_counter_on(value & 0x40 != 0);
            self.apu.channel1.set_frequency_hi(value & 0x7);
        } else if address == 0x16 {
            let length = value & 0x3F;
            let duty = (value & 0xC0) >> 6;
            self.apu.channel2.set_counter(64 - length);
            self.apu.channel2.set_duty(duty);
        } else if address == 0x17 {
            self.apu.channel2.set_envelope_starting_volume((value & 0xF0) >> 4);
            self.apu.channel2.set_volume_envelope_direction(value & 0x8 != 0);
            self.apu.channel2.set_volume_envelope_period(value & 0x7);
        } else if address == 0x18 {
            self.apu.channel2.set_frequency_lo(value);
        } else if address == 0x19 {
            if value & 0x80 != 0 {
                self.apu.channel2.restart_sound();
            }
            self.apu.channel2.set_counter_on(value & 0x40 != 0);
            self.apu.channel2.set_frequency_hi(value & 0x7);
        } else {
            self.old_io.write_byte_usize(address as usize, value);
        }
    }

    /// The wave- and noise-channel block of the register map
    /// (0xFF1A..0xFF3F).
    #[verifier::rlimit(100)]
    fn write_wave_noise_byte(&mut self, address: u16, value: u8)
        requires
            old(self)@.wf(),
            0x1A <= address <= 0x3F,
        ensures
            final(self)@ == spec_io_write(old(self)@, address, value),
            final(self).apu.audio_device == old(self).apu.audio_device,
    {
        proof {
            reveal(spec_io_write);
            lemma_masked_bounds(value);
        }
        if address == 0x1A {
            self.apu.channel3.set_on(value & 0x80 != 0);
        } else if address == 0x1B {
            self.apu.channel3.set_counter(256 - value as u16);
            self.old_io.write_byte_usize(address as usize, value);
        } else if address == 0x1C {
            let volume: u8 = match (value & 0x60) >> 5 {
                0 => 0,
                1 => 3,
                2 => 2,
                _ => 1,
            };
            self.apu.channel3.set_volume(volume);
            self.old_io.write_byte_usize(address as usize, value);
        } else if address == 0x1D {
            self.apu.channel3.set_frequency_lo(value);
        } else if address == 0x1E {
            if value & 0x80 != 0 {
                self.apu.channel3.restart_sound();
            }
            self.apu.channel3.set_counter_on(value & 0x40 != 0);
            self.apu.channel3.set_frequency_hi(value & 0x7);
        } else if address == 0x20 {
            self.apu.channel4.set_counter(64 - (value & 0x3F));
            self.old_io.write_byte_usize(address as usize, value);
        } else if address == 0x21 {
            self.apu.channel4.set_envelope_starting_volume((value & 0xF0) >> 4);
            self.apu.channel4.set_volume_envelope_direction(value & 0x8 != 0);
            self.apu.channel4.set_volume_envelope_period(value & 0x7);
        } else if address == 0x22 {
            self.apu.channel4.set_prescaler_divider((value & 0xF0) >> 4);
            self.apu.channel4.set_shift_register_width(value & 0x8 != 0);
            self.apu.channel4.set_clock_divider(value & 0x7);
        } else if address == 0x23 {
            if value & 0x80 != 0 {
                self.apu.channel4.restart_sound();
            }
            self.apu.channel4.set_counter_on(value & 0x40 != 0);
        } else if address == 0x26 {
            self.apu.set_sound_on(value & 0x80 != 0);
        } else if 0x30 <= address && address <= 0x3F {
            let offset = ((address - 0x30) * 2) as usize;
            let first = (value & 0xF0) >> 4;
            let second = value & 0xF;
            self.apu.channel3.wave_pattern[offset] = first;
            self.apu.channel3.wave_pattern[offset + 1] = second;
        } else {
            self.old_io.write_byte_usize(address as usize, value);
        }
    }

    /// Write `value` to register `address` (an offset into
    /// 0xFF00..0xFF7F).
    #[verifier::rlimit(100)]
    pub fn write_byte(&mut self, address: u16, value: u8)
        requires
            old(self)@.wf(),
        ensures
            final(self)@ == spec_io_write(old(self)@, address, value),
            final(self)@.wf(),
            final(self).apu.audio_device == old(self).apu.audio_device,
    {
        proof {
            lemma_io_write_wf(old(self)@, address, value);
        }
        if 0x10 <= address && address <= 0x19 {
            self.write_square_byte(address, value);
            return ;
        }
        if 0x1A <= address && address <= 0x3F {
            self.write_wave_noise_byte(address, value);
            return ;
        }
        if 0x40 <= address && address <= 0x4B {
            self.write_lcd_byte(address, value);
            return ;
        }
        proof {
            reveal(spec_io_write);
        }
        if address == 0x04 {
            self.timer.reset_divider();
        } else if address == 0x05 {
            self.timer = Timer { timer_counter: value, ..self.timer };
        } else if address == 0x06 {
            self.timer = Timer { timer_modulo: value, ..self.timer };
        } else if address == 0x07 {
            proof {
                lemma_masked_bounds(value);
            }
            self.timer = Timer {
                timer_speed: TimerSpeed::from_u8(value & 0x3),
                timer_enabled: value & 0x4 != 0,
                ..self.timer
            };
        } else if address == 0x0F {
            self.gpu.state = GpuState {
                vblank_interrupt_status: value & 1 != 0,
                state_interrupt_status: value & 2 != 0,
                ..self.gpu.state
            };
            self.timer = Timer { timer_interrupt: value & 4 != 0, ..self.timer };
            self.old_io.write_byte_usize(address as usize, value);
        } else {
            self.old_io.write_byte_usize(address as usize, value);
        }
    }

    /// The LCD block of the register map (0xFF40..0xFF4B).
    #[verifier::rlimit(100)]
    fn write_lcd_byte(&mut self, address: u16, value: u8)
        requires
            old(self)@.wf(),
            0x40 <= address <= 0x4B,
        ensures
            final(self)@ == spec_io_write(old(self)@, address, value),
            final(self).apu.audio_device == old(self).apu.audio_device,
    {
        proof {
            reveal(spec_io_write);
        }
        if address == 0x41 {
            self.gpu.state = GpuState {
                state_interrupt_hblank: value & 0x08 != 0,
                state_interrupt_vblank: value & 0x10 != 0,
                state_interrupt_oam: value & 0x20 != 0,
                state_interrupt_lycly_coincidence: value & 0x40 != 0,
                ..self.gpu.state
            };
        } else if address == 0x40 {
            self.gpu.state = GpuState {
                bg_on: value & 0x01 != 0,
                sprites_on: value & 0x02 != 0,
                large_sprites: value & 0x04 != 0,
                bg_tile_map: bool_to_tile_map(value & 0x08 != 0),
                bg_window_tile_set: bool_to_tile_set(value & 0x10 != 0),
                window_on: value & 0x20 != 0,
                window_tile_map: bool_to_tile_map(value & 0x40 != 0),
                display_on: value & 0x80 != 0,
                ..self.gpu.state
            };
        } else if address == 0x42 {
            self.gpu.state = GpuState { scy: value, ..self.gpu.state };
        } else if address == 0x43 {
            self.gpu.state = GpuState { scx: value, ..self.gpu.state };
        } else if address == 0x44 {
        } else if address == 0x45 {
            self.gpu.state = GpuState { lyc: value, ..self.gpu.state };
        } else if address == 0x4A {
            self.gpu.state = GpuState { window_y: value, ..self.gpu.state };
        } else if address == 0x4B {
            self.gpu.state = GpuState { window_x: value, ..self.gpu.state };
        } else if address == 0x47 {
            self.gpu.state = GpuState {
                palettes: crate::palette::Palettes { bg: value, ..self.gpu.state.palettes },
                ..self.gpu.state
            };
        } else if address == 0x48 {
            self.gpu.state = GpuState {
                palettes: crate::palette::Palettes { obj0: value, ..self.gpu.state.palettes },
                ..self.gpu.state
            };
        } else if address == 0x49 {
            self.gpu.state = GpuState {
                palettes: crate::palette::Palettes { obj1: value, ..self.gpu.state.palettes },
                ..self.gpu.state
            };
        } else {
            self.old_io.write_byte_usize(address as usize, value);
        }
    }
}

} // verus!
