//! The orchestrator: one logical step runs the CPU for one instruction,
//! then fans the reported cycle cost out to the PPU, the timer and the
//! APU, projects the held keys onto the joypad register, and raises the
//! joypad interrupt on a key-press edge at a frame boundary.  The host
//! loop around it does the wall-clock pacing and event polling.

use vstd::prelude::*;

use crate::audio::AudioDevice;
use crate::cpu::Cpu;
use crate::cpu::DecodeError;
use crate::cpu::spec_cycle;
use crate::cpu::spec_exec_00_3f;
use crate::cpu::spec_exec_40_7f;
use crate::cpu::spec_exec_80_bf;
use crate::cpu::spec_exec_c0_ff;
use crate::cpu::spec_exec_cb;
use crate::cpu::spec_exec_op;
use crate::cpu::spec_handle_interrupts;
use crate::registers::Registers;
use crate::display::Display;
use crate::gpu::CLOCK_TICKS_PER_FRAME;
use crate::gpu::spec_gpu_step;
use crate::io_registers::IoView;
use crate::io_registers::spec_io_read;
use crate::io_registers::spec_io_write;
use crate::joypad::KeyState;
use crate::joypad::spec_update_key_register;
use crate::joypad::update_key_register;
use crate::memory::Memory;
use crate::memory_map::MemoryMap;
use crate::memory_map::MemoryMapView;
use crate::memory_map::spec_map_read;

verus! {

/// The emulator core: the CPU wired to the full bus, and the next frame
/// boundary in cycles.
pub struct Emulator<A, D> {
    pub cpu: Cpu<MemoryMap<A, D>>,
    pub next_frame: u64,
}

/// The bus after the PPU and the timer each received `cycles` cycles.
pub open spec fn spec_fan_out(v: MemoryMapView, cycles: u8) -> MemoryMapView {
    MemoryMapView {
        io: IoView {
            gpu: spec_gpu_step(v.io.gpu, cycles),
            timer: v.io.timer.spec_ticks(cycles as nat),
            ..v.io
        },
        ..v
    }
}

/// The bus after the joypad row-select projection: register 0x00 is read,
/// the held keys pull their row's bits low, and the byte is written back.
pub open spec fn spec_joypad_refresh(v: MemoryMapView, keys: KeyState) -> MemoryMapView {
    let register = spec_io_read(v.io, 0x00);
    MemoryMapView { io: spec_io_write(v.io, 0x00, spec_update_key_register(register, keys)), ..v }
}

/// The bus after the APU received `cycles` cycles, having observed sink
/// depth `queue_size`.
pub open spec fn spec_apu_fan_out(v: MemoryMapView, cycles: u8, queue_size: usize) -> MemoryMapView {
    MemoryMapView {
        io: IoView { apu: v.io.apu.spec_step(cycles, queue_size), ..v.io },
        ..v
    }
}

/// The bus after a key-press edge at a frame boundary: the joypad bit is
/// ORed into the interrupt-pending register.
pub open spec fn spec_fire_joypad_interrupt(v: MemoryMapView) -> MemoryMapView {
    let fired = spec_io_read(v.io, 0x0F);
    MemoryMapView { io: spec_io_write(v.io, 0x0F, fired | 0x10), ..v }
}

/// The bus effect of one orchestrator step after the CPU ran, before any
/// frame-boundary interrupt: the PPU and timer fan-out, the joypad
/// projection, and the APU fan-out for the observed sink depth.
pub open spec fn spec_step_bus(
    m1: MemoryMapView,
    cycles: u8,
    keys: KeyState,
    queue_size: usize,
) -> MemoryMapView {
    spec_apu_fan_out(spec_joypad_refresh(spec_fan_out(m1, cycles), keys), cycles, queue_size)
}

impl<A: AudioDevice, D: Display> Emulator<A, D> {
    /// An emulator at power-on around the given bus.
    pub fn new(cpu: Cpu<MemoryMap<A, D>>) -> (r: Emulator<A, D>)
        ensures
            r.cpu == cpu,
            r.next_frame == CLOCK_TICKS_PER_FRAME as u64,
    {
        Emulator { cpu, next_frame: CLOCK_TICKS_PER_FRAME as u64 }
    }

    /// One orchestrator step.  The CPU executes one instruction and
    /// reports its cost; the PPU, the timer and the APU each receive
    /// exactly that many cycles — the fan-out below delivers the one
    /// reported cost to all three, so no peripheral runs ahead of or
    /// behind another.  The held keys are projected onto the joypad
    /// register; at a frame boundary a key-press edge raises the joypad
    /// interrupt.  An undefined opcode stops the step and surfaces the
    /// decode diagnostic with the bus untouched beyond the BIOS check.
    #[verifier::rlimit(100)]
    pub fn step(&mut self, keys: &KeyState, pressed: bool) -> (res: Result<u8, DecodeError>)
        requires
            old(self).cpu.memory@.wf(),
        ensures
            final(self).cpu.memory@.wf(),
            ({
                let (r1, m1, clock1, res1) = spec_cycle::<MemoryMap<A, D>>(
                    old(self).cpu.registers,
                    old(self).cpu.memory@,
                    old(self).cpu.clock,
                );
                match res {
                    Ok(cycles) => {
                        &&& res1 == Ok::<u8, DecodeError>(cycles)
                        &&& final(self).cpu.registers == r1
                        &&& final(self).cpu.clock == clock1
                        &&& (exists|queue_size: usize|
                            final(self).cpu.memory@ == (if clock1 > old(self).next_frame
                                && pressed {
                                spec_fire_joypad_interrupt(
                                    #[trigger] spec_step_bus(m1, cycles, *keys, queue_size),
                                )
                            } else {
                                spec_step_bus(m1, cycles, *keys, queue_size)
                            }))
                        &&& final(self).next_frame == (if clock1 > old(self).next_frame {
                            old(self).next_frame.wrapping_add(CLOCK_TICKS_PER_FRAME as u64)
                        } else {
                            old(self).next_frame
                        })
                    }
                    Err(e) => {
                        &&& res1 == Err::<u8, DecodeError>(e)
                        &&& final(self).cpu.registers == r1
                        &&& final(self).cpu.memory@ == m1
                        &&& final(self).cpu.clock == clock1
                        &&& final(self).next_frame == old(self).next_frame
                    }
                }
            }),
    {
        let cycles_of_last_command = match self.cpu.cycle() {
            Ok(c) => c,
            Err(e) => {
                return Err(e);
            }
        };
        let ghost m1 = self.cpu.memory@;
        self.cpu.memory.io.gpu.step(cycles_of_last_command);
        self.cpu.memory.io.timer.increase(cycles_of_last_command);
        proof {
            assert(self.cpu.memory@ == spec_fan_out(m1, cycles_of_last_command));
        }

        let mut key_register = self.cpu.memory.io.read_byte(0x00);
        update_key_register(&mut key_register, keys);
        let ghost io_pre_joypad = self.cpu.memory.io@;
        self.cpu.memory.io.write_byte(0x00, key_register);
        proof {
            crate::io_registers::lemma_io_write_wf(io_pre_joypad, 0x00, key_register);
            assert(self.cpu.memory@ == spec_joypad_refresh(
                spec_fan_out(m1, cycles_of_last_command),
                *keys,
            ));
        }

        let ghost apu_pre = self.cpu.memory.io.apu@;
        self.cpu.memory.io.apu.step(cycles_of_last_command);
        let ghost m_apu = self.cpu.memory@;
        proof {
            let qs = choose|q: usize|
                m_apu.io.apu == apu_pre.spec_step(cycles_of_last_command, q);
            assert(m_apu == spec_step_bus(m1, cycles_of_last_command, *keys, qs));
        }

        let clock = self.cpu.get_clock();
        if clock > self.next_frame {
            if pressed {
                let interrupts_fired = self.cpu.memory.io.read_byte(0x0F);
                let ghost io_pre_fire = self.cpu.memory.io@;
                self.cpu.memory.io.write_byte(0x0F, interrupts_fired | 0x10);
                proof {
                    crate::io_registers::lemma_io_write_wf(
                        io_pre_fire,
                        0x0F,
                        interrupts_fired | 0x10,
                    );
                    assert(self.cpu.memory@ == spec_fire_joypad_interrupt(m_apu));
                }
            }
            self.next_frame = self.next_frame.wrapping_add(CLOCK_TICKS_PER_FRAME as u64);
        }
        Ok(cycles_of_last_command)
    }
}


/// No instruction of the 0x00..0x3F block re-maps the BIOS overlay.
#[verifier::rlimit(100)]
proof fn lemma_exec_00_3f_overlay<A: AudioDevice, D: Display>(
    b1: u8,
    b2: u8,
    b3: u8,
    r: Registers,
    m: MemoryMapView,
)
    ensures
        spec_exec_00_3f::<MemoryMap<A, D>>(b1, b2, b3, r, m).1.bios_active == m.bios_active,
{
    broadcast use crate::memory_map::lemma_map_write_preserves_overlay;

}

/// No instruction of the 0x40..0x7F block re-maps the BIOS overlay.
proof fn lemma_exec_40_7f_overlay<A: AudioDevice, D: Display>(
    b1: u8,
    r: Registers,
    m: MemoryMapView,
)
    ensures
        spec_exec_40_7f::<MemoryMap<A, D>>(b1, r, m).1.bios_active == m.bios_active,
{
    broadcast use crate::memory_map::lemma_map_write_preserves_overlay;

}

/// No instruction of the 0x80..0xBF block re-maps the BIOS overlay.
proof fn lemma_exec_80_bf_overlay<A: AudioDevice, D: Display>(
    b1: u8,
    r: Registers,
    m: MemoryMapView,
)
    ensures
        spec_exec_80_bf::<MemoryMap<A, D>>(b1, r, m).1.bios_active == m.bios_active,
{
    broadcast use crate::memory_map::lemma_map_write_preserves_overlay;

}

/// No extended-table instruction re-maps the BIOS overlay.
proof fn lemma_exec_cb_overlay<A: AudioDevice, D: Display>(b2: u8, r: Registers, m: MemoryMapView)
    ensures
        spec_exec_cb::<MemoryMap<A, D>>(b2, r, m).1.bios_active == m.bios_active,
{
    broadcast use crate::memory_map::lemma_map_write_preserves_overlay;

}

/// The 0xC0..0xDF quarter of the block below.
#[verifier::rlimit(100)]
proof fn lemma_exec_c0_df_overlay<A: AudioDevice, D: Display>(
    b1: u8,
    b2: u8,
    b3: u8,
    r: Registers,
    m: MemoryMapView,
)
    requires
        b1 < 0xE0,
    ensures
        spec_exec_c0_ff::<MemoryMap<A, D>>(b1, b2, b3, r, m).1.bios_active == m.bios_active,
{
    broadcast use crate::memory_map::lemma_map_write_preserves_overlay;

    lemma_exec_cb_overlay::<A, D>(b2, r, m);
}

/// The 0xE0..0xFF quarter of the block below.
#[verifier::rlimit(100)]
proof fn lemma_exec_e0_ff_overlay<A: AudioDevice, D: Display>(
    b1: u8,
    b2: u8,
    b3: u8,
    r: Registers,
    m: MemoryMapView,
)
    requires
        b1 >= 0xE0,
    ensures
        spec_exec_c0_ff::<MemoryMap<A, D>>(b1, b2, b3, r, m).1.bios_active == m.bios_active,
{
    broadcast use crate::memory_map::lemma_map_write_preserves_overlay;

}

/// No instruction of the 0xC0..0xFF block re-maps the BIOS overlay.
proof fn lemma_exec_c0_ff_overlay<A: AudioDevice, D: Display>(
    b1: u8,
    b2: u8,
    b3: u8,
    r: Registers,
    m: MemoryMapView,
)
    ensures
        spec_exec_c0_ff::<MemoryMap<A, D>>(b1, b2, b3, r, m).1.bios_active == m.bios_active,
{
    if b1 < 0xE0 {
        lemma_exec_c0_df_overlay::<A, D>(b1, b2, b3, r, m);
    } else {
        lemma_exec_e0_ff_overlay::<A, D>(b1, b2, b3, r, m);
    }
}

/// No instruction at all re-maps the BIOS overlay.
proof fn lemma_exec_op_overlay<A: AudioDevice, D: Display>(
    b1: u8,
    b2: u8,
    b3: u8,
    r: Registers,
    m: MemoryMapView,
)
    ensures
        spec_exec_op::<MemoryMap<A, D>>(b1, b2, b3, r, m).1.bios_active == m.bios_active,
{
    if b1 < 0x40 {
        lemma_exec_00_3f_overlay::<A, D>(b1, b2, b3, r, m);
    } else if b1 < 0x80 {
        lemma_exec_40_7f_overlay::<A, D>(b1, r, m);
    } else if b1 < 0xC0 {
        lemma_exec_80_bf_overlay::<A, D>(b1, r, m);
    } else {
        lemma_exec_c0_ff_overlay::<A, D>(b1, b2, b3, r, m);
    }
}

/// Interrupt dispatch never re-maps the BIOS overlay.
#[verifier::rlimit(100)]
proof fn lemma_interrupts_overlay<A: AudioDevice, D: Display>(r: Registers, m: MemoryMapView)
    ensures
        spec_handle_interrupts::<MemoryMap<A, D>>(r, m).1.bios_active == m.bios_active,
{
    broadcast use crate::memory_map::lemma_map_write_preserves_overlay;

}

/// One CPU step tears the BIOS overlay down at the 0x0100 fetch and
/// never maps it back.
pub proof fn lemma_cycle_overlay<A: AudioDevice, D: Display>(
    r: Registers,
    m: MemoryMapView,
    clock: u64,
)
    ensures
        ({
            let stepped = spec_cycle::<MemoryMap<A, D>>(r, m, clock).1;
            &&& (!m.bios_active ==> !stepped.bios_active)
            &&& (m.bios_active && r.pc == 0x100 ==> !stepped.bios_active)
        }),
{
    reveal(spec_cycle);
    let m1 = if m.bios_active && r.pc == 0x100 {
        MemoryMapView { bios_active: false, ..m }
    } else {
        m
    };
    if r.halt {
        lemma_interrupts_overlay::<A, D>(
            Registers { cycles_of_last_command: 4, ..r },
            m1,
        );
    } else {
        let b1 = spec_map_read(m1, r.pc);
        let b2 = spec_map_read(m1, r.pc.wrapping_add(1));
        let b3 = spec_map_read(m1, r.pc.wrapping_add(2));
        if !crate::cpu::spec_is_undefined(b1) {
            lemma_exec_op_overlay::<A, D>(b1, b2, b3, r, m1);
            let (r1, m2) = spec_exec_op::<MemoryMap<A, D>>(b1, b2, b3, r, m1);
            lemma_interrupts_overlay::<A, D>(r1, m2);
        }
    }
}

/// The machine after `n` whole CPU steps (a step that stops on an
/// undefined opcode leaves the state as it was).
pub open spec fn spec_cpu_run<A: AudioDevice, D: Display>(
    r: Registers,
    m: MemoryMapView,
    clock: u64,
    n: nat,
) -> (Registers, MemoryMapView, u64)
    decreases n,
{
    if n == 0 {
        (r, m, clock)
    } else {
        let stepped = spec_cycle::<MemoryMap<A, D>>(r, m, clock);
        spec_cpu_run::<A, D>(stepped.0, stepped.1, stepped.2, (n - 1) as nat)
    }
}

/// BIOS hand-off, over a whole run: once the overlay is down, it stays
/// down through any number of CPU steps, and every read of the low 256
/// bytes is served by the cartridge, never the BIOS.
pub proof fn lemma_bios_hand_off_forever<A: AudioDevice, D: Display>(
    r: Registers,
    m: MemoryMapView,
    clock: u64,
    n: nat,
    address: u16,
)
    requires
        !m.bios_active,
        address <= 0xFF,
    ensures
        ({
            let after = spec_cpu_run::<A, D>(r, m, clock, n).1;
            &&& !after.bios_active
            &&& spec_map_read(after, address) == crate::mbc::Mbc::spec_read_v(
                after.mbc,
                address,
            )
        }),
    decreases n,
{
    if n > 0 {
        lemma_cycle_overlay::<A, D>(r, m, clock);
        let stepped = spec_cycle::<MemoryMap<A, D>>(r, m, clock);
        lemma_bios_hand_off_forever::<A, D>(
            stepped.0,
            stepped.1,
            stepped.2,
            (n - 1) as nat,
            address,
        );
    }
}

} // verus!
