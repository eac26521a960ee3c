//! The cartridge memory-bank controllers behind the 0x0000..0x7FFF and
//! 0xA000..0xBFFF windows: plain ROM, MBC1 (5+2 bank bits with a mode
//! switch) and MBC5 (9 ROM-bank bits, 4 RAM-bank bits), with RAM gated by
//! the 0x0A enable nibble.  Battery-backed variants take their initial RAM
//! image from the host and hand it back for flushing; the host does the
//! actual file work.

use vstd::prelude::*;

use crate::memory::BlockMemory;
use crate::memory::BlockMemoryView;
use crate::memory::Memory;
use crate::memory::spec_zero_block;

verus! {

/// MBC1's two interpretations of the shared upper bank bits.
#[derive(Clone, Copy, PartialEq, Eq, Structural, Debug)]
pub enum RomRamMode {
    RomBankingMode,
    RamBankingMode,
}

pub struct Mbc1View {
    pub rom: BlockMemoryView,
    pub ram: BlockMemoryView,
    pub has_ram: bool,
    pub current_rom_bank: u8,
    pub current_ram_bank: u8,
    pub ram_enabled: bool,
    pub mode: RomRamMode,
    pub lower_bits: u8,
    pub upper_bits: u8,
}

pub struct Mbc1 {
    pub rom: BlockMemory,
    pub ram: BlockMemory,
    pub has_ram: bool,
    pub current_rom_bank: u8,
    pub current_ram_bank: u8,
    pub ram_enabled: bool,
    pub mode: RomRamMode,
    pub lower_bits: u8,
    pub upper_bits: u8,
}

impl View for Mbc1 {
    type V = Mbc1View;

    open spec fn view(&self) -> Mbc1View {
        Mbc1View {
            rom: self.rom@,
            ram: self.ram@,
            has_ram: self.has_ram,
            current_rom_bank: self.current_rom_bank,
            current_ram_bank: self.current_ram_bank,
            ram_enabled: self.ram_enabled,
            mode: self.mode,
            lower_bits: self.lower_bits,
            upper_bits: self.upper_bits,
        }
    }
}

impl Mbc1View {
    /// A freshly constructed MBC1 around a ROM image: bank 1 selected,
    /// 32 KiB of zeroed RAM, RAM disabled, ROM-banking mode.
    pub open spec fn spec_new(rom: BlockMemoryView) -> Mbc1View {
        let mbc_type = rom.read(0x147);
        Mbc1View {
            rom,
            ram: spec_zero_block(0x8000),
            has_ram: mbc_type == 0x2 || mbc_type == 0x3,
            current_rom_bank: 1,
            current_ram_bank: 0,
            ram_enabled: false,
            mode: RomRamMode::RomBankingMode,
            lower_bits: 1,
            upper_bits: 0,
        }
    }

    /// Recompute the effective banks from the two bank registers and the
    /// mode bit.
    pub open spec fn spec_update_banks(self) -> Mbc1View {
        match self.mode {
            RomRamMode::RomBankingMode => Mbc1View {
                current_rom_bank: ((self.lower_bits % 0x20) + (self.upper_bits % 4) * 0x20) as u8,
                current_ram_bank: 0,
                ..self
            },
            RomRamMode::RamBankingMode => Mbc1View {
                current_rom_bank: self.lower_bits,
                current_ram_bank: self.upper_bits,
                ..self
            },
        }
    }

    pub open spec fn spec_read(self, address: u16) -> u8 {
        if address < 0x4000 {
            self.rom.read(address as int)
        } else if address < 0x8000 {
            self.rom.read(
                (address as int) % 0x4000 + (self.current_rom_bank as int) * 0x4000,
            )
        } else if 0xA000 <= address < 0xC000 {
            if self.ram_enabled {
                self.ram.read(
                    (address as int) % 0x2000 + (self.current_ram_bank as int) * 0x2000,
                )
            } else {
                0xFF
            }
        } else {
            0xFF
        }
    }

    pub open spec fn spec_write(self, address: u16, value: u8) -> Mbc1View {
        if address < 0x2000 {
            Mbc1View { ram_enabled: self.has_ram && value % 16 == 0xA, ..self }
        } else if address < 0x4000 {
            let masked = value % 0x20;
            let lower_bits = if masked == 0 {
                1u8
            } else {
                masked
            };
            Mbc1View { lower_bits, ..self }.spec_update_banks()
        } else if address < 0x6000 {
            Mbc1View { upper_bits: value % 4, ..self }.spec_update_banks()
        } else if address < 0x8000 {
            if self.has_ram {
                Mbc1View {
                    mode: if value % 2 == 1 {
                        RomRamMode::RamBankingMode
                    } else {
                        RomRamMode::RomBankingMode
                    },
                    ..self
                }.spec_update_banks()
            } else {
                self
            }
        } else if 0xA000 <= address < 0xC000 {
            if self.ram_enabled {
                Mbc1View {
                    ram: self.ram.write(
                        (address as int) % 0x2000 + (self.current_ram_bank as int) * 0x2000,
                        value,
                    ),
                    ..self
                }
            } else {
                self
            }
        } else {
            self
        }
    }
}

impl Mbc1 {
    pub fn new(rom: BlockMemory) -> (r: Mbc1)
        ensures
            r@ == Mbc1View::spec_new(rom@),
    {
        let mbc_type = rom.read_byte_usize(0x147);
        let has_ram = mbc_type == 0x2 || mbc_type == 0x3;
        let ram = BlockMemory::new(0x8000);
        proof {
            assert(ram@.bytes =~= spec_zero_block(0x8000).bytes);
        }
        Mbc1 {
            rom,
            ram,
            has_ram,
            current_rom_bank: 1,
            current_ram_bank: 0,
            ram_enabled: false,
            mode: RomRamMode::RomBankingMode,
            lower_bits: 1,
            upper_bits: 0,
        }
    }

    fn update_bank_numbers(&mut self)
        ensures
            final(self)@ == old(self)@.spec_update_banks(),
    {
        match self.mode {
            RomRamMode::RomBankingMode => {
                self.current_rom_bank = (self.lower_bits % 0x20) + (self.upper_bits % 4) * 0x20;
                self.current_ram_bank = 0;
            }
            RomRamMode::RamBankingMode => {
                self.current_rom_bank = self.lower_bits;
                self.current_ram_bank = self.upper_bits;
            }
        }
    }

    pub fn read_byte(&self, address: u16) -> (r: u8)
        ensures
            r == self@.spec_read(address),
    {
        if address < 0x4000 {
            self.rom.read_byte_usize(address as usize)
        } else if address < 0x8000 {
            let banked = (address as usize % 0x4000) + self.current_rom_bank as usize * 0x4000;
            self.rom.read_byte_usize(banked)
        } else if 0xA000 <= address && address < 0xC000 {
            if self.ram_enabled {
                let banked = (address as usize % 0x2000) + self.current_ram_bank as usize * 0x2000;
                self.ram.read_byte_usize(banked)
            } else {
                0xFF
            }
        } else {
            0xFF
        }
    }

    pub fn write_byte(&mut self, address: u16, value: u8)
        ensures
            final(self)@ == old(self)@.spec_write(address, value),
    {
        if address < 0x2000 {
            self.ram_enabled = self.has_ram && value % 16 == 0xA;
        } else if address < 0x4000 {
            let masked = value % 0x20;
            self.lower_bits = if masked == 0 {
                1
            } else {
                masked
            };
            self.update_bank_numbers();
        } else if address < 0x6000 {
            self.upper_bits = value % 4;
            self.update_bank_numbers();
        } else if address < 0x8000 {
            if self.has_ram {
                self.mode = if value % 2 == 1 {
                    RomRamMode::RamBankingMode
                } else {
                    RomRamMode::RomBankingMode
                };
                self.update_bank_numbers();
            }
        } else if 0xA000 <= address && address < 0xC000 {
            if self.ram_enabled {
                let banked = (address as usize % 0x2000) + self.current_ram_bank as usize * 0x2000;
                self.ram.write_byte_usize(banked, value);
            }
        }
    }
}

pub struct Mbc5View {
    pub rom: BlockMemoryView,
    pub ram: BlockMemoryView,
    pub has_ram: bool,
    pub has_battery: bool,
    pub current_rom_bank: u16,
    pub current_ram_bank: u8,
    pub ram_enabled: bool,
    pub lower_bits: u8,
    pub upper_bits: u8,
}

pub struct Mbc5 {
    pub rom: BlockMemory,
    pub ram: BlockMemory,
    pub has_ram: bool,
    pub has_battery: bool,
    pub current_rom_bank: u16,
    pub current_ram_bank: u8,
    pub ram_enabled: bool,
    pub lower_bits: u8,
    pub upper_bits: u8,
}

impl View for Mbc5 {
    type V = Mbc5View;

    open spec fn view(&self) -> Mbc5View {
        Mbc5View {
            rom: self.rom@,
            ram: self.ram@,
            has_ram: self.has_ram,
            has_battery: self.has_battery,
            current_rom_bank: self.current_rom_bank,
            current_ram_bank: self.current_ram_bank,
            ram_enabled: self.ram_enabled,
            lower_bits: self.lower_bits,
            upper_bits: self.upper_bits,
        }
    }
}

impl Mbc5View {
    /// A freshly constructed MBC5 around a ROM image; a battery-backed
    /// variant starts from the persisted RAM image, the rest from zeroes.
    pub open spec fn spec_new(rom: BlockMemoryView, initial_ram: BlockMemoryView) -> Mbc5View {
        let mbc_type = rom.read(0x147);
        Mbc5View {
            rom,
            ram: initial_ram,
            has_ram: mbc_type == 0x1A || mbc_type == 0x1B || mbc_type == 0x1D || mbc_type == 0x1E,
            has_battery: mbc_type == 0x1B || mbc_type == 0x1E,
            current_rom_bank: 1,
            current_ram_bank: 0,
            ram_enabled: false,
            lower_bits: 1,
            upper_bits: 0,
        }
    }

    pub open spec fn spec_update_rom_bank(self) -> Mbc5View {
        Mbc5View {
            current_rom_bank: ((self.upper_bits as int % 2) * 0x100 + self.lower_bits as int) as u16,
            ..self
        }
    }

    pub open spec fn spec_read(self, address: u16) -> u8 {
        if address < 0x4000 {
            self.rom.read(address as int)
        } else if address < 0x8000 {
            self.rom.read(
                (address as int) % 0x4000 + (self.current_rom_bank as int) * 0x4000,
            )
        } else if 0xA000 <= address < 0xC000 {
            if self.ram_enabled {
                self.ram.read(
                    (address as int) % 0x2000 + (self.current_ram_bank as int) * 0x2000,
                )
            } else {
                0xFF
            }
        } else {
            0xFF
        }
    }

    pub open spec fn spec_write(self, address: u16, value: u8) -> Mbc5View {
        if address < 0x2000 {
            Mbc5View { ram_enabled: self.has_ram && value % 16 == 0xA, ..self }
        } else if address < 0x3000 {
            Mbc5View { lower_bits: value, ..self }.spec_update_rom_bank()
        } else if address < 0x4000 {
            Mbc5View { upper_bits: value % 2, ..self }.spec_update_rom_bank()
        } else if address < 0x6000 {
            if self.has_ram {
                Mbc5View { current_ram_bank: value % 16, ..self }
            } else {
                self
            }
        } else if 0xA000 <= address < 0xC000 {
            if self.ram_enabled {
                Mbc5View {
                    ram: self.ram.write(
                        (address as int) % 0x2000 + (self.current_ram_bank as int) * 0x2000,
                        value,
                    ),
                    ..self
                }
            } else {
                self
            }
        } else {
            self
        }
    }
}

impl Mbc5 {
    pub fn new(rom: BlockMemory, battery_ram: Option<Vec<u8>>) -> (r: Mbc5)
        ensures
            r@ == Mbc5View::spec_new(
                rom@,
                match battery_ram {
                    Some(bytes) => BlockMemoryView { bytes: bytes@, read_only: false },
                    None => spec_zero_block(0x20000),
                },
            ),
    {
        let mbc_type = rom.read_byte_usize(0x147);
        let has_ram = mbc_type == 0x1A || mbc_type == 0x1B || mbc_type == 0x1D || mbc_type
            == 0x1E;
        let has_battery = mbc_type == 0x1B || mbc_type == 0x1E;
        let ram = match battery_ram {
            Some(bytes) => BlockMemory::from_bytes(bytes, false),
            None => BlockMemory::new(0x20000),
        };
        proof {
            assert(ram@.bytes =~= match battery_ram {
                Some(bytes) => bytes@,
                None => spec_zero_block(0x20000).bytes,
            });
        }
        Mbc5 {
            rom,
            ram,
            has_ram,
            has_battery,
            current_rom_bank: 1,
            current_ram_bank: 0,
            ram_enabled: false,
            lower_bits: 1,
            upper_bits: 0,
        }
    }

    fn update_rom_bank(&mut self)
        ensures
            final(self)@ == old(self)@.spec_update_rom_bank(),
    {
        self.current_rom_bank = (self.upper_bits as u16 % 2) * 0x100 + self.lower_bits as u16;
    }

    pub fn read_byte(&self, address: u16) -> (r: u8)
        ensures
            r == self@.spec_read(address),
    {
        if address < 0x4000 {
            self.rom.read_byte_usize(address as usize)
        } else if address < 0x8000 {
            let banked = (address as usize % 0x4000) + self.current_rom_bank as usize * 0x4000;
            self.rom.read_byte_usize(banked)
        } else if 0xA000 <= address && address < 0xC000 {
            if self.ram_enabled {
                let banked = (address as usize % 0x2000) + self.current_ram_bank as usize * 0x2000;
                self.ram.read_byte_usize(banked)
            } else {
                0xFF
            }
        } else {
            0xFF
        }
    }

    pub fn write_byte(&mut self, address: u16, value: u8)
        ensures
            final(self)@ == old(self)@.spec_write(address, value),
    {
        if address < 0x2000 {
            self.ram_enabled = self.has_ram && value % 16 == 0xA;
        } else if address < 0x3000 {
            self.lower_bits = value;
            self.update_rom_bank();
        } else if address < 0x4000 {
            self.upper_bits = value % 2;
            self.update_rom_bank();
        } else if address < 0x6000 {
            if self.has_ram {
                self.current_ram_bank = value % 16;
            }
        } else if 0xA000 <= address && address < 0xC000 {
            if self.ram_enabled {
                let banked = (address as usize % 0x2000) + self.current_ram_bank as usize * 0x2000;
                self.ram.write_byte_usize(banked, value);
            }
        }
    }
}

/// The controller variants this core supports, as selected by ROM byte
/// 0x147.
pub enum Mbc {
    RomOnly(BlockMemory),
    Mbc1(Mbc1),
    Mbc5(Mbc5),
}

pub enum MbcView {
    RomOnly(BlockMemoryView),
    Mbc1(Mbc1View),
    Mbc5(Mbc5View),
}

impl View for Mbc {
    type V = MbcView;

    open spec fn view(&self) -> MbcView {
        match self {
            Mbc::RomOnly(rom) => MbcView::RomOnly(rom@),
            Mbc::Mbc1(mbc) => MbcView::Mbc1(mbc@),
            Mbc::Mbc5(mbc) => MbcView::Mbc5(mbc@),
        }
    }
}

impl Memory for Mbc {
    open spec fn spec_read_v(v: MbcView, address: u16) -> u8 {
        match v {
            MbcView::RomOnly(rom) => rom.read(address as int),
            MbcView::Mbc1(mbc) => mbc.spec_read(address),
            MbcView::Mbc5(mbc) => mbc.spec_read(address),
        }
    }

    open spec fn spec_write_v(v: MbcView, address: u16, value: u8) -> MbcView {
        match v {
            MbcView::RomOnly(rom) => MbcView::RomOnly(rom.write(address as int, value)),
            MbcView::Mbc1(mbc) => MbcView::Mbc1(mbc.spec_write(address, value)),
            MbcView::Mbc5(mbc) => MbcView::Mbc5(mbc.spec_write(address, value)),
        }
    }

    open spec fn spec_in_bios_v(v: MbcView) -> bool {
        false
    }

    open spec fn spec_leave_bios_v(v: MbcView) -> MbcView {
        v
    }

    open spec fn spec_inv(v: MbcView) -> bool {
        true
    }

    fn read_byte(&self, address: u16) -> (r: u8)
        ensures
            r == Self::spec_read_v(self@, address),
    {
        match self {
            Mbc::RomOnly(rom) => rom.read_byte_usize(address as usize),
            Mbc::Mbc1(mbc) => mbc.read_byte(address),
            Mbc::Mbc5(mbc) => mbc.read_byte(address),
        }
    }

    fn write_byte(&mut self, address: u16, value: u8)
        ensures
            final(self)@ == Self::spec_write_v(old(self)@, address, value),
    {
        match self {
            Mbc::RomOnly(rom) => rom.write_byte_usize(address as usize, value),
            Mbc::Mbc1(mbc) => mbc.write_byte(address, value),
            Mbc::Mbc5(mbc) => mbc.write_byte(address, value),
        }
    }

    fn in_bios(&self) -> (r: bool)
        ensures
            r == Self::spec_in_bios_v(self@),
    {
        false
    }

    fn leave_bios(&mut self)
        ensures
            final(self)@ == Self::spec_leave_bios_v(old(self)@),
    {
    }
}

impl Mbc {
    /// Whether this cartridge persists its RAM across runs.
    pub fn has_battery(&self) -> (r: bool)
        ensures
            r == (match self@ {
                MbcView::Mbc5(mbc) => mbc.has_battery,
                _ => false,
            }),
    {
        match self {
            Mbc::Mbc5(mbc) => mbc.has_battery,
            _ => false,
        }
    }

    /// The external RAM image, for the host to persist on shutdown.
    pub fn battery_ram(&self) -> (r: Option<&Vec<u8>>)
        ensures
            match self@ {
                MbcView::Mbc5(mbc) => r is Some && r->0@ == mbc.ram.bytes,
                _ => r is None,
            },
    {
        match self {
            Mbc::Mbc5(mbc) => Some(mbc.ram.get_memory()),
            _ => None,
        }
    }
}

/// Whether ROM header byte 0x147 names a controller this core supports.
pub open spec fn spec_supported_mbc_type(mbc_type: u8) -> bool {
    mbc_type == 0x0 || mbc_type == 0x1 || mbc_type == 0x2 || mbc_type == 0x3 || (0x19 <= mbc_type
        <= 0x1E)
}

/// Build the controller the ROM header asks for.  Returns the offending
/// header byte for an unsupported controller type; battery-backed
/// variants take the persisted RAM image (or `None` for a zeroed one).
pub fn create_mbc(rom: BlockMemory, battery_ram: Option<Vec<u8>>) -> (r: Result<Mbc, u8>)
    ensures
        ({
            let mbc_type = rom@.read(0x147);
            match r {
                Ok(mbc) => {
                    &&& spec_supported_mbc_type(mbc_type)
                    &&& (mbc_type == 0x0 ==> mbc@ == MbcView::RomOnly(rom@))
                    &&& (0x1 <= mbc_type <= 0x3 ==> mbc@ == MbcView::Mbc1(
                        Mbc1View::spec_new(rom@),
                    ))
                    &&& (0x19 <= mbc_type <= 0x1E ==> mbc@ == MbcView::Mbc5(
                        Mbc5View::spec_new(
                            rom@,
                            match battery_ram {
                                Some(bytes) => BlockMemoryView { bytes: bytes@, read_only: false },
                                None => spec_zero_block(0x20000),
                            },
                        ),
                    ))
                }
                Err(e) => !spec_supported_mbc_type(mbc_type) && e == mbc_type,
            }
        }),
{
    let mbc_type = rom.read_byte_usize(0x147);
    if mbc_type == 0x0 {
        Ok(Mbc::RomOnly(rom))
    } else if mbc_type == 0x1 || mbc_type == 0x2 || mbc_type == 0x3 {
        Ok(Mbc::Mbc1(Mbc1::new(rom)))
    } else if 0x19 <= mbc_type && mbc_type <= 0x1E {
        Ok(Mbc::Mbc5(Mbc5::new(rom, battery_ram)))
    } else {
        Err(mbc_type)
    }
}

} // verus!
