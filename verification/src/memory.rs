//! Byte-addressed storage: the `Memory` trait every bus participant
//! implements, and `BlockMemory`, a fixed-size buffer of bytes that is
//! optionally read-only.
//!
//! Reads and writes are total: a read outside the mapped range returns 0xFF
//! and a write outside the range (or into a read-only block) is ignored,
//! which is the defined behaviour for unmapped guest accesses.

use vstd::prelude::*;

verus! {

/// Byte and word access by absolute 16-bit address.
///
/// Every implementor carries a mathematical view (`View::V`); the spec
/// functions below describe reads and writes on that view, and the exec
/// methods are bound to them.
pub trait Memory: View + Sized {
    /// The byte a read at `address` returns.
    spec fn spec_read_v(v: Self::V, address: u16) -> u8;

    /// The view after a write of `value` at `address`.
    spec fn spec_write_v(v: Self::V, address: u16, value: u8) -> Self::V;

    /// Whether the BIOS overlay is still mapped over the low 256 bytes.
    spec fn spec_in_bios_v(v: Self::V) -> bool;

    /// The view after the BIOS overlay is torn down.
    spec fn spec_leave_bios_v(v: Self::V) -> Self::V;

    /// The implementor's internal invariant; constructors establish it
    /// and every access preserves it.
    spec fn spec_inv(v: Self::V) -> bool;

    fn read_byte(&self, address: u16) -> (r: u8)
        requires
            Self::spec_inv(self@),
        ensures
            r == Self::spec_read_v(self@, address),
    ;

    fn write_byte(&mut self, address: u16, value: u8)
        requires
            Self::spec_inv(old(self)@),
        ensures
            final(self)@ == Self::spec_write_v(old(self)@, address, value),
            Self::spec_inv(final(self)@),
    ;

    fn in_bios(&self) -> (r: bool)
        ensures
            r == Self::spec_in_bios_v(self@),
    ;

    fn leave_bios(&mut self)
        requires
            Self::spec_inv(old(self)@),
        ensures
            final(self)@ == Self::spec_leave_bios_v(old(self)@),
            Self::spec_inv(final(self)@),
    ;

    fn read_word(&self, address: u16) -> (r: u16)
        requires
            Self::spec_inv(self@),
        ensures
            r == ((Self::spec_read_v(self@, address.wrapping_add(1)) as int) * 0x100
                + Self::spec_read_v(self@, address) as int) as u16,
    {
        let low_byte = self.read_byte(address);
        let high_byte = self.read_byte(address.wrapping_add(1));
        (high_byte as u16) * 0x100 + low_byte as u16
    }

    fn write_word(&mut self, address: u16, value: u16)
        requires
            Self::spec_inv(old(self)@),
        ensures
            final(self)@ == Self::spec_write_v(
                Self::spec_write_v(old(self)@, address, (value % 0x100) as u8),
                address.wrapping_add(1),
                (value / 0x100) as u8,
            ),
            Self::spec_inv(final(self)@),
    {
        let low_byte = (value % 0x100) as u8;
        let high_byte = (value / 0x100) as u8;
        self.write_byte(address, low_byte);
        self.write_byte(address.wrapping_add(1), high_byte);
    }

    fn read_4_bytes(&self, address: u16) -> (r: [u8; 4])
        requires
            Self::spec_inv(self@),
        ensures
            r@ == seq![
                Self::spec_read_v(self@, address),
                Self::spec_read_v(self@, address.wrapping_add(1)),
                Self::spec_read_v(self@, address.wrapping_add(2)),
                Self::spec_read_v(self@, address.wrapping_add(3)),
            ],
    {
        let r = [
            self.read_byte(address),
            self.read_byte(address.wrapping_add(1)),
            self.read_byte(address.wrapping_add(2)),
            self.read_byte(address.wrapping_add(3)),
        ];
        proof {
            assert(r@ =~= seq![
                Self::spec_read_v(self@, address),
                Self::spec_read_v(self@, address.wrapping_add(1)),
                Self::spec_read_v(self@, address.wrapping_add(2)),
                Self::spec_read_v(self@, address.wrapping_add(3)),
            ]);
        }
        r
    }
}

/// Mathematical content of a `BlockMemory`.
pub struct BlockMemoryView {
    pub bytes: Seq<u8>,
    pub read_only: bool,
}

impl BlockMemoryView {
    /// The byte a read at `address` returns: the stored byte in range,
    /// 0xFF outside.
    pub open spec fn read(self, address: int) -> u8 {
        if 0 <= address < self.bytes.len() {
            self.bytes[address]
        } else {
            0xFF
        }
    }

    /// The view after a write: stores in range unless read-only, else the
    /// write is ignored.
    pub open spec fn write(self, address: int, value: u8) -> BlockMemoryView {
        if !self.read_only && 0 <= address < self.bytes.len() {
            BlockMemoryView { bytes: self.bytes.update(address, value), ..self }
        } else {
            self
        }
    }
}

/// An all-zero writable block of `size` bytes, as a view.
pub open spec fn spec_zero_block(size: nat) -> BlockMemoryView {
    BlockMemoryView { bytes: Seq::new(size, |i: int| 0u8), read_only: false }
}

/// A byte-addressable fixed-size buffer, optionally read-only.
pub struct BlockMemory {
    pub memory: Vec<u8>,
    pub read_only: bool,
}

impl View for BlockMemory {
    type V = BlockMemoryView;

    open spec fn view(&self) -> BlockMemoryView {
        BlockMemoryView { bytes: self.memory@, read_only: self.read_only }
    }
}

impl BlockMemory {
    /// A writable block of `size` zero bytes.
    pub fn new(size: usize) -> (r: BlockMemory)
        ensures
            r@.bytes.len() == size,
            forall|i: int| 0 <= i < size ==> r@.bytes[i] == 0u8,
            !r@.read_only,
    {
        let mut memory: Vec<u8> = Vec::new();
        while memory.len() < size
            invariant
                memory@.len() <= size,
                forall|i: int| 0 <= i < memory@.len() ==> memory@[i] == 0u8,
            decreases size - memory@.len(),
        {
            memory.push(0);
        }
        BlockMemory { memory, read_only: false }
    }

    /// A block holding the given bytes, read-only on request (a ROM image
    /// stays immutable from the guest).
    pub fn from_bytes(memory: Vec<u8>, read_only: bool) -> (r: BlockMemory)
        ensures
            r@.bytes == memory@,
            r@.read_only == read_only,
    {
        BlockMemory { memory, read_only }
    }

    /// Read with a full-width address, for banked accesses beyond 64 KiB.
    pub fn read_byte_usize(&self, address: usize) -> (r: u8)
        ensures
            r == self@.read(address as int),
    {
        if address < self.memory.len() {
            self.memory[address]
        } else {
            0xFF
        }
    }

    /// Write with a full-width address, for banked accesses beyond 64 KiB.
    pub fn write_byte_usize(&mut self, address: usize, value: u8)
        ensures
            final(self)@ == old(self)@.write(address as int, value),
    {
        if !self.read_only && address < self.memory.len() {
            self.memory.set(address, value);
        }
    }

    /// The full contents of the block.
    pub fn get_memory(&self) -> (r: &Vec<u8>)
        ensures
            r@ == self@.bytes,
    {
        &self.memory
    }

    /// The number of bytes in the block.
    pub fn len(&self) -> (r: usize)
        ensures
            r == self@.bytes.len(),
    {
        self.memory.len()
    }
}

impl Memory for BlockMemory {
    open spec fn spec_read_v(v: BlockMemoryView, address: u16) -> u8 {
        v.read(address as int)
    }

    open spec fn spec_write_v(v: BlockMemoryView, address: u16, value: u8) -> BlockMemoryView {
        v.write(address as int, value)
    }

    open spec fn spec_in_bios_v(v: BlockMemoryView) -> bool {
        false
    }

    open spec fn spec_leave_bios_v(v: BlockMemoryView) -> BlockMemoryView {
        v
    }

    open spec fn spec_inv(v: BlockMemoryView) -> bool {
        true
    }

    fn read_byte(&self, address: u16) -> (r: u8)
        ensures
            r == Self::spec_read_v(self@, address),
    {
        self.read_byte_usize(address as usize)
    }

    fn write_byte(&mut self, address: u16, value: u8)
        ensures
            final(self)@ == Self::spec_write_v(old(self)@, address, value),
    {
        self.write_byte_usize(address as usize, value);
    }

    fn in_bios(&self) -> (r: bool)
        ensures
            r == Self::spec_in_bios_v(self@),
    {
        false
    }

    fn leave_bios(&mut self)
        ensures
            final(self)@ == Self::spec_leave_bios_v(old(self)@),
    {
    }
}

} // verus!
