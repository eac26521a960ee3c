//! Core of a cycle-driven emulator for a handheld 8-bit console: a small CPU
//! of the 8080/Z80 family, a scanline-based picture processing unit, a
//! four-channel audio unit, a banked cartridge controller, a programmable
//! interval timer and a memory bus that ties them together.
//!
//! Everything the host has to supply (window, audio output, key events,
//! persistent storage) enters through the narrow traits and plain-value
//! parameters of this crate; the logic itself is verified.

pub mod apu;
pub mod audio;
pub mod cpu;
pub mod cpu_ops;
pub mod noise_channel;
pub mod square_channel;
pub mod volume_envelope;
pub mod wave_channel;
pub mod display;
pub mod emulator;
pub mod gpu;
pub mod mbc;
pub mod io_registers;
pub mod joypad;
pub mod memory;
pub mod memory_map;
pub mod palette;
pub mod registers;
pub mod sprite;
pub mod tile;
pub mod timer;
pub mod vram;
