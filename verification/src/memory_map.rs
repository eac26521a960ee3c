//! The memory bus: address decoding across BIOS overlay, cartridge,
//! VRAM, work RAM (with its echo), OAM, the I/O register file and high
//! RAM, plus the OAM DMA side effect of a write to 0xFF46.

use vstd::prelude::*;

use crate::audio::AudioDevice;
use crate::display::Display;
use crate::gpu::GpuView;
use crate::io_registers::IoRegisters;
use crate::io_registers::IoView;
use crate::io_registers::spec_io_read;
use crate::io_registers::spec_io_write;
use crate::mbc::Mbc;
use crate::mbc::MbcView;
use crate::memory::BlockMemory;
use crate::memory::BlockMemoryView;
use crate::memory::Memory;
use crate::memory::spec_zero_block;

verus! {

/// Mathematical content of the bus.
pub struct MemoryMapView {
    pub bios_active: bool,
    pub bios: BlockMemoryView,
    pub mbc: MbcView,
    pub working_ram: BlockMemoryView,
    pub zero_page: BlockMemoryView,
    pub io: IoView,
}

impl MemoryMapView {
    /// Region sizes are fixed at construction and the register file's
    /// peripherals stay well-formed.
    pub open spec fn wf(self) -> bool {
        &&& self.io.wf()
        &&& self.working_ram.bytes.len() == 0x2000
        &&& !self.working_ram.read_only
        &&& self.zero_page.bytes.len() == 0x80
        &&& !self.zero_page.read_only
        &&& self.io.gpu.vram.bytes.len() == 0x2000
        &&& !self.io.gpu.vram.read_only
        &&& self.io.gpu.oam.bytes.len() == 0x100
        &&& !self.io.gpu.oam.read_only
    }
}

/// The byte a bus read at `address` returns, by the routing rules: BIOS
/// overlay first (while active), then cartridge, VRAM, cartridge RAM,
/// work RAM with its echo, OAM (the gap above it reads 0xFF), the I/O
/// registers, and high RAM with the interrupt-enable byte at the top.
pub open spec fn spec_map_read(v: MemoryMapView, address: u16) -> u8 {
    if v.bios_active && address <= 0xFF {
        v.bios.read(address as int)
    } else if address < 0x8000 {
        Mbc::spec_read_v(v.mbc, address)
    } else if address < 0xA000 {
        v.io.gpu.vram.read((address & 0x1FFF) as int)
    } else if address < 0xC000 {
        Mbc::spec_read_v(v.mbc, address)
    } else if address < 0xFE00 {
        v.working_ram.read((address & 0x1FFF) as int)
    } else if address < 0xFEA0 {
        v.io.gpu.oam.read((address & 0xFF) as int)
    } else if address < 0xFF00 {
        0xFF
    } else if address < 0xFF80 {
        spec_io_read(v.io, address & 0x7F)
    } else {
        v.zero_page.read((address & 0x7F) as int)
    }
}

/// The bus after a routed write (the DMA trigger aside): the same
/// decoding, with writes into the 0xFEA0..0xFEFF gap ignored.
pub open spec fn spec_map_write_routed(v: MemoryMapView, address: u16, value: u8) -> MemoryMapView {
    if v.bios_active && address <= 0xFF {
        MemoryMapView { bios: v.bios.write(address as int, value), ..v }
    } else if address < 0x8000 {
        MemoryMapView { mbc: Mbc::spec_write_v(v.mbc, address, value), ..v }
    } else if address < 0xA000 {
        MemoryMapView {
            io: IoView {
                gpu: GpuView {
                    vram: v.io.gpu.vram.write((address & 0x1FFF) as int, value),
                    ..v.io.gpu
                },
                ..v.io
            },
            ..v
        }
    } else if address < 0xC000 {
        MemoryMapView { mbc: Mbc::spec_write_v(v.mbc, address, value), ..v }
    } else if address < 0xFE00 {
        MemoryMapView {
            working_ram: v.working_ram.write((address & 0x1FFF) as int, value),
            ..v
        }
    } else if address < 0xFEA0 {
        MemoryMapView {
            io: IoView {
                gpu: GpuView {
                    oam: v.io.gpu.oam.write((address & 0xFF) as int, value),
                    ..v.io.gpu
                },
                ..v.io
            },
            ..v
        }
    } else if address < 0xFF00 {
        v
    } else if address < 0xFF80 {
        MemoryMapView { io: spec_io_write(v.io, address & 0x7F, value), ..v }
    } else {
        MemoryMapView { zero_page: v.zero_page.write((address & 0x7F) as int, value), ..v }
    }
}

/// The bus after the first `n` bytes of an OAM DMA from page `source`:
/// byte k is read at (source<<8)+k from the state the earlier copies
/// left, and lands at 0xFE00+k.
pub open spec fn spec_dma_step(v: MemoryMapView, source: u8, n: nat) -> MemoryMapView
    decreases n,
{
    if n == 0 {
        v
    } else {
        let prev = spec_dma_step(v, source, (n - 1) as nat);
        let byte = spec_map_read(prev, ((source as int) * 0x100 + (n - 1)) as u16);
        spec_map_write_routed(prev, (0xFE00 + (n - 1)) as u16, byte)
    }
}

/// The bus after a full 160-byte OAM DMA from page `source`.
#[verifier::opaque]
pub open spec fn spec_dma(v: MemoryMapView, source: u8) -> MemoryMapView {
    spec_dma_step(v, source, 0xA0)
}

/// The bus after a write: a write to 0xFF46 first performs the DMA, then
/// the byte is routed like any other.
pub open spec fn spec_map_write(v: MemoryMapView, address: u16, value: u8) -> MemoryMapView {
    if address == 0xFF46 {
        spec_map_write_routed(spec_dma(v, value), address, value)
    } else {
        spec_map_write_routed(v, address, value)
    }
}

/// A routed write preserves the bus invariant.
pub proof fn lemma_map_write_routed_wf(v: MemoryMapView, address: u16, value: u8)
    requires
        v.wf(),
    ensures
        spec_map_write_routed(v, address, value).wf(),
{
    let w = spec_map_write_routed(v, address, value);
    if v.bios_active && address <= 0xFF {
        assert(w.wf());
    } else if address < 0x8000 {
        assert(w.wf());
    } else if address < 0xA000 {
        assert(w.wf());
    } else if address < 0xC000 {
        assert(w.wf());
    } else if address < 0xFE00 {
        assert(w.wf());
    } else if address < 0xFEA0 {
        assert(w.wf());
    } else if address < 0xFF00 {
        assert(w.wf());
    } else if address < 0xFF80 {
        crate::io_registers::lemma_io_write_wf(v.io, address & 0x7F, value);
        assert(w.wf());
    } else {
        assert(w.wf());
    }
}

/// The memory bus, sole owner of everything it arbitrates.
pub struct MemoryMap<A, D> {
    pub bios_active: bool,
    pub bios: BlockMemory,
    pub mbc: Mbc,
    pub working_ram: BlockMemory,
    pub zero_page: BlockMemory,
    pub io: IoRegisters<A, D>,
}

impl<A, D> View for MemoryMap<A, D> {
    type V = MemoryMapView;

    open spec fn view(&self) -> MemoryMapView {
        MemoryMapView {
            bios_active: self.bios_active,
            bios: self.bios@,
            mbc: self.mbc@,
            working_ram: self.working_ram@,
            zero_page: self.zero_page@,
            io: self.io@,
        }
    }
}

impl<A: AudioDevice, D: Display> MemoryMap<A, D> {
    /// A bus over the given BIOS image, cartridge and register file, with
    /// fresh work and high RAM; the BIOS overlay starts mapped.
    pub fn new(bios: BlockMemory, mbc: Mbc, io: IoRegisters<A, D>) -> (r: MemoryMap<A, D>)
        requires
            io@.wf(),
            io@.gpu.vram.bytes.len() == 0x2000,
            !io@.gpu.vram.read_only,
            io@.gpu.oam.bytes.len() == 0x100,
            !io@.gpu.oam.read_only,
        ensures
            r@ == (MemoryMapView {
                bios_active: true,
                bios: bios@,
                mbc: mbc@,
                working_ram: spec_zero_block(0x2000),
                zero_page: spec_zero_block(0x80),
                io: io@,
            }),
            r@.wf(),
    {
        let working_ram = BlockMemory::new(0x2000);
        let zero_page = BlockMemory::new(0x80);
        proof {
            assert(working_ram@.bytes =~= spec_zero_block(0x2000).bytes);
            assert(zero_page@.bytes =~= spec_zero_block(0x80).bytes);
        }
        MemoryMap { bios_active: true, bios, mbc, working_ram, zero_page, io }
    }

    /// One routed write, without the DMA trigger.
    #[verifier::rlimit(100)]
    fn write_byte_routed(&mut self, address: u16, value: u8)
        requires
            old(self)@.wf(),
        ensures
            final(self)@ == spec_map_write_routed(old(self)@, address, value),
            final(self)@.wf(),
    {
        proof {
            lemma_map_write_routed_wf(old(self)@, address, value);
        }
        if self.bios_active && address <= 0xFF {
            self.bios.write_byte_usize(address as usize, value);
        } else if address < 0x8000 {
            self.mbc.write_byte(address, value);
        } else if address < 0xA000 {
            self.io.gpu.vram.memory.write_byte_usize((address & 0x1FFF) as usize, value);
        } else if address < 0xC000 {
            self.mbc.write_byte(address, value);
        } else if address < 0xFE00 {
            self.working_ram.write_byte_usize((address & 0x1FFF) as usize, value);
        } else if address < 0xFEA0 {
            self.io.gpu.oam.write_byte_usize((address & 0xFF) as usize, value);
        } else if address < 0xFF00 {
        } else if address < 0xFF80 {
            self.io.write_byte(address & 0x7F, value);
        } else {
            self.zero_page.write_byte_usize((address & 0x7F) as usize, value);
        }
    }

    /// Copy 160 bytes from page `source` into OAM, as one bus action.
    fn do_dma_transfer(&mut self, source: u8)
        requires
            old(self)@.wf(),
        ensures
            final(self)@ == spec_dma(old(self)@, source),
            final(self)@.wf(),
    {
        proof {
            reveal(spec_dma);
        }
        let start = (source as u16) * 0x100;
        let ghost v0 = self@;
        let mut i: u16 = 0;
        while i < 0xA0
            invariant
                i <= 0xA0,
                start == (source as int) * 0x100,
                self@ == spec_dma_step(v0, source, i as nat),
                self@.wf(),
            decreases 0xA0 - i,
        {
            let byte = self.read_byte(start + i);
            self.write_byte_routed(0xFE00 + i, byte);
            i = i + 1;
        }
    }
}

impl<A: AudioDevice, D: Display> Memory for MemoryMap<A, D> {
    open spec fn spec_read_v(v: MemoryMapView, address: u16) -> u8 {
        spec_map_read(v, address)
    }

    open spec fn spec_write_v(v: MemoryMapView, address: u16, value: u8) -> MemoryMapView {
        spec_map_write(v, address, value)
    }

    open spec fn spec_in_bios_v(v: MemoryMapView) -> bool {
        v.bios_active
    }

    open spec fn spec_leave_bios_v(v: MemoryMapView) -> MemoryMapView {
        MemoryMapView { bios_active: false, ..v }
    }

    open spec fn spec_inv(v: MemoryMapView) -> bool {
        v.wf()
    }

    fn read_byte(&self, address: u16) -> (r: u8)
        ensures
            r == Self::spec_read_v(self@, address),
    {
        if self.bios_active && address <= 0xFF {
            self.bios.read_byte_usize(address as usize)
        } else if address < 0x8000 {
            self.mbc.read_byte(address)
        } else if address < 0xA000 {
            self.io.gpu.vram.memory.read_byte_usize((address & 0x1FFF) as usize)
        } else if address < 0xC000 {
            self.mbc.read_byte(address)
        } else if address < 0xFE00 {
            self.working_ram.read_byte_usize((address & 0x1FFF) as usize)
        } else if address < 0xFEA0 {
            self.io.gpu.oam.read_byte_usize((address & 0xFF) as usize)
        } else if address < 0xFF00 {
            0xFF
        } else if address < 0xFF80 {
            self.io.read_byte(address & 0x7F)
        } else {
            self.zero_page.read_byte_usize((address & 0x7F) as usize)
        }
    }

    fn write_byte(&mut self, address: u16, value: u8)
        ensures
            final(self)@ == Self::spec_write_v(old(self)@, address, value),
            Self::spec_inv(final(self)@),
    {
        if address == 0xFF46 {
            self.do_dma_transfer(value);
        }
        self.write_byte_routed(address, value);
    }

    fn in_bios(&self) -> (r: bool)
        ensures
            r == Self::spec_in_bios_v(self@),
    {
        self.bios_active
    }

    fn leave_bios(&mut self)
        ensures
            final(self)@ == Self::spec_leave_bios_v(old(self)@),
            Self::spec_inv(final(self)@),
    {
        self.bios_active = false;
    }
}


/// Byte round-trip: writing a byte to a work-RAM or high-RAM address and
/// reading the same address back yields that byte.
pub proof fn lemma_byte_round_trip(v: MemoryMapView, address: u16, value: u8)
    requires
        v.wf(),
        (0xC000 <= address <= 0xFDFF) || (0xFF80 <= address <= 0xFFFE),
    ensures
        spec_map_read(spec_map_write(v, address, value), address) == value,
{
    assert(address & 0x1FFF < 0x2000 && address & 0x7F < 0x80) by (bit_vector);
}

/// Word endianness: writing a 16-bit value at `address` (as the bus's
/// word write does, low byte first) stores its low byte at `address` and
/// its high byte at `address + 1`, for word-aligned-free RAM addresses.
pub proof fn lemma_word_endianness(v: MemoryMapView, address: u16, value: u16)
    requires
        v.wf(),
        (0xC000 <= address && address + 1 <= 0xFDFF) || (0xFF80 <= address && address + 1
            <= 0xFFFE),
    ensures
        ({
            let after = spec_map_write(
                spec_map_write(v, address, (value % 0x100) as u8),
                (address + 1) as u16,
                (value / 0x100) as u8,
            );
            &&& spec_map_read(after, address) == value & 0xFF
            &&& spec_map_read(after, (address + 1) as u16) == value >> 8
        }),
{
    let low = (value % 0x100) as u8;
    let high = (value / 0x100) as u8;
    let address1 = (address + 1) as u16;
    assert(address & 0x1FFF < 0x2000 && address & 0x7F < 0x80 && address1 & 0x1FFF < 0x2000
        && address1 & 0x7F < 0x80) by (bit_vector)
        requires
            address1 == address + 1,
    ;
    assert(address1 & 0x1FFF != address & 0x1FFF && address1 & 0x7F != address & 0x7F)
        by (bit_vector)
        requires
            address1 == address + 1,
            (0xC000 <= address && address1 <= 0xFDFF) || (0xFF80 <= address && address1
                <= 0xFFFE),
    ;
    assert((value % 0x100) as u8 == value & 0xFF && (value / 0x100) as u8 == value >> 8)
        by (bit_vector);
}

/// The OAM DMA has copied its first `n` bytes: everything but OAM is as
/// it was, and OAM's first `n` bytes hold the source page's bytes.
proof fn lemma_dma_step_effect(v: MemoryMapView, source: u8, n: nat)
    requires
        v.wf(),
        source <= 0xFD,
        n <= 0xA0,
    ensures
        ({
            let w = spec_dma_step(v, source, n);
            &&& w == (MemoryMapView {
                io: IoView {
                    gpu: GpuView { oam: w.io.gpu.oam, ..v.io.gpu },
                    ..v.io
                },
                ..v
            })
            &&& w.io.gpu.oam.bytes.len() == 0x100
            &&& !w.io.gpu.oam.read_only
            &&& (forall|i: int|
                0 <= i < n ==> w.io.gpu.oam.bytes[i] == spec_map_read(
                    v,
                    ((source as int) * 0x100 + i) as u16,
                ))
            &&& (forall|i: int|
                n <= i < 0x100 ==> w.io.gpu.oam.bytes[i] == v.io.gpu.oam.bytes[i])
        }),
    decreases n,
{
    if n > 0 {
        lemma_dma_step_effect(v, source, (n - 1) as nat);
        let prev = spec_dma_step(v, source, (n - 1) as nat);
        let src_addr = ((source as int) * 0x100 + (n - 1)) as u16;
        let dst_addr = (0xFE00 + (n - 1)) as u16;
        assert(src_addr < 0xFE00);
        assert(spec_map_read(prev, src_addr) == spec_map_read(v, src_addr));
        let k = (n - 1) as u16;
        assert(dst_addr & 0xFF == k) by (bit_vector)
            requires
                dst_addr == 0xFE00 + k,
                k < 0xA0,
        ;
    }
}

/// OAM DMA: a write of page `s` to 0xFF46 leaves OAM[0..0xA0] equal,
/// byte for byte, to the 160 bytes the bus held at s<<8 ... s<<8+0x9F,
/// for every source page below the OAM region itself (echo pages
/// included; page 0xFE would copy OAM onto itself).
pub proof fn lemma_oam_dma(v: MemoryMapView, source: u8)
    requires
        v.wf(),
        source <= 0xFD,
    ensures
        forall|i: int|
            0 <= i < 0xA0 ==> spec_map_write(v, 0xFF46, source).io.gpu.oam.bytes[i]
                == spec_map_read(v, ((source as int) * 0x100 + i) as u16),
{
    reveal(spec_dma);
    lemma_dma_step_effect(v, source, 0xA0);
    let w = spec_dma(v, source);
    crate::io_registers::lemma_io_write_wf(w.io, (0xFF46 & 0x7F) as u16, source);
    assert(spec_map_write(v, 0xFF46, source).io.gpu.oam == w.io.gpu.oam);
}

/// BIOS hand-off: once the overlay is torn down, reads of the low 256
/// bytes come from the cartridge, and no bus write ever re-maps the
/// overlay, so they do so forever.
pub proof fn lemma_bios_handoff(v: MemoryMapView, address: u16, w_addr: u16, w_val: u8)
    requires
        v.wf(),
    ensures
        !v.bios_active && address <= 0xFF ==> spec_map_read(v, address) == Mbc::spec_read_v(
            v.mbc,
            address,
        ),
        spec_map_write(v, w_addr, w_val).bios_active == v.bios_active,
{
    reveal(spec_dma);
    lemma_dma_preserves_bios(v, w_val, 0xA0);
}

/// The DMA copy never touches the BIOS overlay flag.
proof fn lemma_dma_preserves_bios(v: MemoryMapView, source: u8, n: nat)
    ensures
        spec_dma_step(v, source, n).bios_active == v.bios_active,
    decreases n,
{
    if n > 0 {
        lemma_dma_preserves_bios(v, source, (n - 1) as nat);
    }
}

/// No bus write, wherever it routes (the DMA copy included), touches the
/// BIOS overlay flag.
pub broadcast proof fn lemma_map_write_preserves_overlay(v: MemoryMapView, address: u16, value: u8)
    ensures
        (#[trigger] spec_map_write(v, address, value)).bios_active == v.bios_active,
{
    reveal(spec_dma);
    lemma_dma_preserves_bios(v, value, 0xA0);
}

} // verus!
