//! Cartridge images and their memory bank controllers.
//!
//! The header is decoded once at load time; afterwards the cartridge answers
//! banked ROM and external-RAM accesses and accepts the MBC register writes
//! that retarget the banks.

use vstd::prelude::*;
use crate::mem::zero_vec;

verus! {

/// Hardware model requested by the header's CGB flag.
#[derive(Clone, Copy, PartialEq, Eq, Structural)]
pub enum Model {
    Dmg,
    Cgb,
}

/// Why a cartridge image was rejected.
#[derive(Clone, Copy, Debug, PartialEq, Eq, Structural)]
pub enum CartridgeError {
    /// The image is shorter than the 0x150-byte header area.
    TooShort,
    /// The cartridge-type byte names a bank controller this core lacks.
    UnknownMbcType,
    /// The header checksum over 0x134..=0x14C does not match byte 0x14D.
    BadChecksum,
}

/// Ghost image of the bank-controller state.
pub enum MbcView {
    NoMbc { rom: Seq<u8> },
    Mbc1 {
        rom: Seq<u8>,
        ram: Seq<u8>,
        rom_bank: u8,
        ram_bank: u8,
        ram_enabled: bool,
        advanced: bool,
    },
    Mbc2 { rom: Seq<u8>, ram: Seq<u8>, rom_bank: u8, ram_enabled: bool },
    Mbc3 { rom: Seq<u8>, ram: Seq<u8>, rom_bank: u8, ram_bank: u8, ram_enabled: bool },
    Mbc5 { rom: Seq<u8>, ram: Seq<u8>, rom_bank: u16, ram_bank: u8, ram_enabled: bool },
}

/// Ghost image of a loaded cartridge.
pub struct CartridgeView {
    pub model: Model,
    pub mbc: MbcView,
}

/// Byte of `rom` at `idx`, wrapped to the image size as the address decoders
/// mask bank numbers; an empty image reads as open bus.
pub open spec fn rom_at(rom: Seq<u8>, idx: int) -> u8 {
    if rom.len() == 0 {
        0xFF
    } else {
        rom[idx % rom.len() as int]
    }
}

impl MbcView {
    /// Banked read of ROM (0x0000..=0x7FFF) or external RAM (0xA000..=0xBFFF).
    pub open spec fn read(self, address: u16) -> u8 {
        match self {
            MbcView::NoMbc { rom } => {
                if address < 0x8000 {
                    rom_at(rom, address as int)
                } else {
                    0xFF
                }
            },
            MbcView::Mbc1 { rom, ram, rom_bank, ram_bank, ram_enabled, advanced } => {
                if address < 0x4000 {
                    let base: int = if advanced { (ram_bank as int) * 0x20 * 0x4000 } else { 0 };
                    rom_at(rom, base + address)
                } else if address < 0x8000 {
                    let bank: int = (ram_bank as int) * 0x20 + rom_bank;
                    rom_at(rom, bank * 0x4000 + (address - 0x4000))
                } else if !ram_enabled || ram.len() == 0 {
                    0xFF
                } else {
                    let rb: int = if advanced { ram_bank as int } else { 0 };
                    ram[(rb * 0x2000 + (address - 0xA000)) % ram.len() as int]
                }
            },
            MbcView::Mbc2 { rom, ram, rom_bank, ram_enabled } => {
                if address < 0x4000 {
                    rom_at(rom, address as int)
                } else if address < 0x8000 {
                    rom_at(rom, (rom_bank as int) * 0x4000 + (address - 0x4000))
                } else if !ram_enabled || ram.len() == 0 {
                    0xFF
                } else {
                    (0xF0 | (ram[(address - 0xA000) % ram.len() as int] & 0x0F)) as u8
                }
            },
            MbcView::Mbc3 { rom, ram, rom_bank, ram_bank, ram_enabled } => {
                if address < 0x4000 {
                    rom_at(rom, address as int)
                } else if address < 0x8000 {
                    rom_at(rom, (rom_bank as int) * 0x4000 + (address - 0x4000))
                } else if !ram_enabled || ram_bank >= 4 || ram.len() == 0 {
                    0xFF
                } else {
                    ram[((ram_bank as int) * 0x2000 + (address - 0xA000)) % ram.len() as int]
                }
            },
            MbcView::Mbc5 { rom, ram, rom_bank, ram_bank, ram_enabled } => {
                if address < 0x4000 {
                    rom_at(rom, address as int)
                } else if address < 0x8000 {
                    rom_at(rom, (rom_bank as int) * 0x4000 + (address - 0x4000))
                } else if !ram_enabled || ram.len() == 0 {
                    0xFF
                } else {
                    ram[((ram_bank as int) * 0x2000 + (address - 0xA000)) % ram.len() as int]
                }
            },
        }
    }

    /// Effect of a bus write: MBC register retargeting below 0x8000, a RAM
    /// store in 0xA000..=0xBFFF, and nothing anywhere else.
    pub open spec fn write(self, address: u16, value: u8) -> MbcView {
        match self {
            MbcView::NoMbc { .. } => self,
            MbcView::Mbc1 { rom, ram, rom_bank, ram_bank, ram_enabled, advanced } => {
                if address < 0x2000 {
                    MbcView::Mbc1 {
                        rom, ram, rom_bank, ram_bank,
                        ram_enabled: value & 0x0F == 0x0A,
                        advanced,
                    }
                } else if address < 0x4000 {
                    MbcView::Mbc1 {
                        rom, ram,
                        rom_bank: if value & 0x1F == 0 { 1 } else { value & 0x1F },
                        ram_bank, ram_enabled, advanced,
                    }
                } else if address < 0x6000 {
                    MbcView::Mbc1 { rom, ram, rom_bank, ram_bank: value & 0x03, ram_enabled, advanced }
                } else if address < 0x8000 {
                    MbcView::Mbc1 { rom, ram, rom_bank, ram_bank, ram_enabled, advanced: value & 0x01 == 1 }
                } else if ram_enabled && ram.len() > 0 {
                    let rb: int = if advanced { ram_bank as int } else { 0 };
                    MbcView::Mbc1 {
                        rom,
                        ram: ram.update((rb * 0x2000 + (address - 0xA000)) % ram.len() as int, value),
                        rom_bank, ram_bank, ram_enabled, advanced,
                    }
                } else {
                    self
                }
            },
            MbcView::Mbc2 { rom, ram, rom_bank, ram_enabled } => {
                if address < 0x4000 {
                    if address & 0x0100 == 0 {
                        MbcView::Mbc2 { rom, ram, rom_bank, ram_enabled: value & 0x0F == 0x0A }
                    } else {
                        MbcView::Mbc2 {
                            rom, ram,
                            rom_bank: if value & 0x0F == 0 { 1 } else { value & 0x0F },
                            ram_enabled,
                        }
                    }
                } else if address < 0x8000 {
                    self
                } else if ram_enabled && ram.len() > 0 {
                    MbcView::Mbc2 {
                        rom,
                        ram: ram.update((address - 0xA000) % ram.len() as int, (value & 0x0F) as u8),
                        rom_bank, ram_enabled,
                    }
                } else {
                    self
                }
            },
            MbcView::Mbc3 { rom, ram, rom_bank, ram_bank, ram_enabled } => {
                if address < 0x2000 {
                    MbcView::Mbc3 { rom, ram, rom_bank, ram_bank, ram_enabled: value & 0x0F == 0x0A }
                } else if address < 0x4000 {
                    MbcView::Mbc3 {
                        rom, ram,
                        rom_bank: if value & 0x7F == 0 { 1 } else { value & 0x7F },
                        ram_bank, ram_enabled,
                    }
                } else if address < 0x6000 {
                    MbcView::Mbc3 { rom, ram, rom_bank, ram_bank: value & 0x0F, ram_enabled }
                } else if address < 0x8000 {
                    self
                } else if ram_enabled && ram_bank < 4 && ram.len() > 0 {
                    MbcView::Mbc3 {
                        rom,
                        ram: ram.update(
                            ((ram_bank as int) * 0x2000 + (address - 0xA000)) % ram.len() as int,
                            value,
                        ),
                        rom_bank, ram_bank, ram_enabled,
                    }
                } else {
                    self
                }
            },
            MbcView::Mbc5 { rom, ram, rom_bank, ram_bank, ram_enabled } => {
                if address < 0x2000 {
                    MbcView::Mbc5 { rom, ram, rom_bank, ram_bank, ram_enabled: value & 0x0F == 0x0A }
                } else if address < 0x3000 {
                    MbcView::Mbc5 {
                        rom, ram,
                        rom_bank: (rom_bank & 0x100) | value as u16,
                        ram_bank, ram_enabled,
                    }
                } else if address < 0x4000 {
                    MbcView::Mbc5 {
                        rom, ram,
                        rom_bank: (rom_bank & 0xFF) | (((value & 0x01) as u16) << 8),
                        ram_bank, ram_enabled,
                    }
                } else if address < 0x6000 {
                    MbcView::Mbc5 { rom, ram, rom_bank, ram_bank: value & 0x0F, ram_enabled }
                } else if address < 0x8000 {
                    self
                } else if ram_enabled && ram.len() > 0 {
                    MbcView::Mbc5 {
                        rom,
                        ram: ram.update(
                            ((ram_bank as int) * 0x2000 + (address - 0xA000)) % ram.len() as int,
                            value,
                        ),
                        rom_bank, ram_bank, ram_enabled,
                    }
                } else {
                    self
                }
            },
        }
    }
}

/// Running header checksum over bytes 0x134..idx.
pub open spec fn header_checksum(rom: Seq<u8>, idx: int) -> u8
    decreases idx - 0x134,
{
    if idx <= 0x134 {
        0
    } else {
        crate::cpu::byte_wrap(header_checksum(rom, idx - 1) - rom[idx - 1] - 1)
    }
}

/// External-RAM byte count for the header's RAM-size code.
pub open spec fn ram_size_of(code: u8) -> nat {
    if code == 1 {
        0x800
    } else if code == 2 {
        0x2000
    } else if code == 3 {
        0x8000
    } else if code == 4 {
        0x20000
    } else if code == 5 {
        0x10000
    } else {
        0
    }
}

/// Whether this core has a bank controller for the cartridge-type byte.
pub open spec fn known_mbc_type(t: u8) -> bool {
    t == 0x00 || t == 0x08 || t == 0x09  // no MBC
    || t == 0x01 || t == 0x02 || t == 0x03  // MBC1
    || t == 0x05 || t == 0x06  // MBC2
    || (0x0F <= t && t <= 0x13)  // MBC3
    || (0x19 <= t && t <= 0x1E)  // MBC5
}

/// The freshly loaded bank-controller state for a valid image.
pub open spec fn initial_mbc(rom: Seq<u8>) -> MbcView {
    let t = rom[0x147];
    let ram = Seq::new(ram_size_of(rom[0x149]), |i: int| 0u8);
    if t == 0x01 || t == 0x02 || t == 0x03 {
        MbcView::Mbc1 { rom, ram, rom_bank: 1, ram_bank: 0, ram_enabled: false, advanced: false }
    } else if t == 0x05 || t == 0x06 {
        MbcView::Mbc2 {
            rom,
            ram: Seq::new(512, |i: int| 0u8),
            rom_bank: 1,
            ram_enabled: false,
        }
    } else if 0x0F <= t && t <= 0x13 {
        MbcView::Mbc3 { rom, ram, rom_bank: 1, ram_bank: 0, ram_enabled: false }
    } else if 0x19 <= t && t <= 0x1E {
        MbcView::Mbc5 { rom, ram, rom_bank: 1, ram_bank: 0, ram_enabled: false }
    } else {
        MbcView::NoMbc { rom }
    }
}

/// The bank-controller state.
pub enum Mbc {
    NoMbc { rom: Vec<u8> },
    Mbc1 {
        rom: Vec<u8>,
        ram: Vec<u8>,
        rom_bank: u8,
        ram_bank: u8,
        ram_enabled: bool,
        advanced: bool,
    },
    Mbc2 { rom: Vec<u8>, ram: Vec<u8>, rom_bank: u8, ram_enabled: bool },
    Mbc3 { rom: Vec<u8>, ram: Vec<u8>, rom_bank: u8, ram_bank: u8, ram_enabled: bool },
    Mbc5 { rom: Vec<u8>, ram: Vec<u8>, rom_bank: u16, ram_bank: u8, ram_enabled: bool },
}

impl View for Mbc {
    type V = MbcView;

    open spec fn view(&self) -> MbcView {
        match self {
            Mbc::NoMbc { rom } => MbcView::NoMbc { rom: rom@ },
            Mbc::Mbc1 { rom, ram, rom_bank, ram_bank, ram_enabled, advanced } => MbcView::Mbc1 {
                rom: rom@,
                ram: ram@,
                rom_bank: *rom_bank,
                ram_bank: *ram_bank,
                ram_enabled: *ram_enabled,
                advanced: *advanced,
            },
            Mbc::Mbc2 { rom, ram, rom_bank, ram_enabled } => MbcView::Mbc2 {
                rom: rom@,
                ram: ram@,
                rom_bank: *rom_bank,
                ram_enabled: *ram_enabled,
            },
            Mbc::Mbc3 { rom, ram, rom_bank, ram_bank, ram_enabled } => MbcView::Mbc3 {
                rom: rom@,
                ram: ram@,
                rom_bank: *rom_bank,
                ram_bank: *ram_bank,
                ram_enabled: *ram_enabled,
            },
            Mbc::Mbc5 { rom, ram, rom_bank, ram_bank, ram_enabled } => MbcView::Mbc5 {
                rom: rom@,
                ram: ram@,
                rom_bank: *rom_bank,
                ram_bank: *ram_bank,
                ram_enabled: *ram_enabled,
            },
        }
    }
}

/// A loaded cartridge: the requested hardware model and the bank controller.
pub struct Cartridge {
    pub model: Model,
    pub mbc: Mbc,
}

impl View for Cartridge {
    type V = CartridgeView;

    open spec fn view(&self) -> CartridgeView {
        CartridgeView { model: self.model, mbc: self.mbc@ }
    }
}

/// Banked ROM read, shared by the controllers: wraps `idx` to the image.
fn read_rom(rom: &Vec<u8>, idx: usize) -> (r: u8)
    ensures
        r == rom_at(rom@, idx as int),
{
    if rom.len() == 0 {
        0xFF
    } else {
        rom[idx % rom.len()]
    }
}

impl Cartridge {
    /// Decode the header of `rom` and build the matching bank controller.
    /// Rejects, in this order of checks, an image shorter than the header
    /// area, an unknown cartridge-type byte, and a bad header checksum.
    pub fn from_bytes(rom: Vec<u8>) -> (r: Result<Cartridge, CartridgeError>)
        ensures
            r is Ok <==> (rom@.len() >= 0x150 && known_mbc_type(rom@[0x147])
                && header_checksum(rom@, 0x14D) == rom@[0x14D]),
            rom@.len() < 0x150 ==> r == Result::<Cartridge, CartridgeError>::Err(
                CartridgeError::TooShort,
            ),
            rom@.len() >= 0x150 && !known_mbc_type(rom@[0x147])
                ==> r == Result::<Cartridge, CartridgeError>::Err(CartridgeError::UnknownMbcType),
            rom@.len() >= 0x150 && known_mbc_type(rom@[0x147])
                && header_checksum(rom@, 0x14D) != rom@[0x14D]
                ==> r == Result::<Cartridge, CartridgeError>::Err(CartridgeError::BadChecksum),
            r matches Ok(c) ==> c@ == (CartridgeView {
                model: if rom@[0x143] & 0x80 != 0 { Model::Cgb } else { Model::Dmg },
                mbc: initial_mbc(rom@),
            }),
    {
        if rom.len() < 0x150 {
            return Err(CartridgeError::TooShort);
        }
        let kind = rom[0x147];
        let known = kind == 0x00 || kind == 0x08 || kind == 0x09 || kind == 0x01 || kind == 0x02
            || kind == 0x03 || kind == 0x05 || kind == 0x06 || (0x0F <= kind && kind <= 0x13)
            || (0x19 <= kind && kind <= 0x1E);
        if !known {
            return Err(CartridgeError::UnknownMbcType);
        }
        let mut sum: u8 = 0;
        let mut i: usize = 0x134;
        while i < 0x14D
            invariant
                0x134 <= i <= 0x14D,
                rom@.len() >= 0x150,
                sum == header_checksum(rom@, i as int),
            decreases 0x14D - i,
        {
            sum = sum.wrapping_sub(rom[i]).wrapping_sub(1);
            i = i + 1;
        }
        if sum != rom[0x14D] {
            return Err(CartridgeError::BadChecksum);
        }
        let model = if rom[0x143] & 0x80 != 0 { Model::Cgb } else { Model::Dmg };
        let ram_code = rom[0x149];
        let ram_len: usize = if ram_code == 1 {
            0x800
        } else if ram_code == 2 {
            0x2000
        } else if ram_code == 3 {
            0x8000
        } else if ram_code == 4 {
            0x20000
        } else if ram_code == 5 {
            0x10000
        } else {
            0
        };
        let mbc = if kind == 0x01 || kind == 0x02 || kind == 0x03 {
            Mbc::Mbc1 {
                rom,
                ram: zero_vec(ram_len),
                rom_bank: 1,
                ram_bank: 0,
                ram_enabled: false,
                advanced: false,
            }
        } else if kind == 0x05 || kind == 0x06 {
            Mbc::Mbc2 { rom, ram: zero_vec(512), rom_bank: 1, ram_enabled: false }
        } else if 0x0F <= kind && kind <= 0x13 {
            Mbc::Mbc3 { rom, ram: zero_vec(ram_len), rom_bank: 1, ram_bank: 0, ram_enabled: false }
        } else if 0x19 <= kind && kind <= 0x1E {
            Mbc::Mbc5 { rom, ram: zero_vec(ram_len), rom_bank: 1, ram_bank: 0, ram_enabled: false }
        } else {
            Mbc::NoMbc { rom }
        };
        Ok(Cartridge { model, mbc })
    }

    pub fn get_model(&self) -> (r: Model)
        ensures
            r == self.model,
    {
        self.model
    }

    /// Banked read of ROM or external RAM.
    pub fn read_byte(&self, address: u16) -> (r: u8)
        requires
            address < 0x8000 || (0xA000 <= address && address < 0xC000),
        ensures
            r == self@.mbc.read(address),
    {
        match &self.mbc {
            Mbc::NoMbc { rom } => {
                if address < 0x8000 {
                    read_rom(rom, address as usize)
                } else {
                    0xFF
                }
            },
            Mbc::Mbc1 { rom, ram, rom_bank, ram_bank, ram_enabled, advanced } => {
                if address < 0x4000 {
                    let base: usize = if *advanced { (*ram_bank as usize) * 0x20 * 0x4000 } else {
                        0 };
                    read_rom(rom, base + address as usize)
                } else if address < 0x8000 {
                    let bank: usize = (*ram_bank as usize) * 0x20 + *rom_bank as usize;
                    read_rom(rom, bank * 0x4000 + (address as usize - 0x4000))
                } else if !*ram_enabled || ram.len() == 0 {
                    0xFF
                } else {
                    let rb: usize = if *advanced { *ram_bank as usize } else { 0 };
                    ram[(rb * 0x2000 + (address as usize - 0xA000)) % ram.len()]
                }
            },
            Mbc::Mbc2 { rom, ram, rom_bank, ram_enabled } => {
                if address < 0x4000 {
                    read_rom(rom, address as usize)
                } else if address < 0x8000 {
                    read_rom(rom, (*rom_bank as usize) * 0x4000 + (address as usize - 0x4000))
                } else if !*ram_enabled || ram.len() == 0 {
                    0xFF
                } else {
                    0xF0 | (ram[(address as usize - 0xA000) % ram.len()] & 0x0F)
                }
            },
            Mbc::Mbc3 { rom, ram, rom_bank, ram_bank, ram_enabled } => {
                if address < 0x4000 {
                    read_rom(rom, address as usize)
                } else if address < 0x8000 {
                    read_rom(rom, (*rom_bank as usize) * 0x4000 + (address as usize - 0x4000))
                } else if !*ram_enabled || *ram_bank >= 4 || ram.len() == 0 {
                    0xFF
                } else {
                    ram[((*ram_bank as usize) * 0x2000 + (address as usize - 0xA000)) % ram.len()]
                }
            },
            Mbc::Mbc5 { rom, ram, rom_bank, ram_bank, ram_enabled } => {
                if address < 0x4000 {
                    read_rom(rom, address as usize)
                } else if address < 0x8000 {
                    read_rom(rom, (*rom_bank as usize) * 0x4000 + (address as usize - 0x4000))
                } else if !*ram_enabled || ram.len() == 0 {
                    0xFF
                } else {
                    ram[((*ram_bank as usize) * 0x2000 + (address as usize - 0xA000)) % ram.len()]
                }
            },
        }
    }

    /// Bus write: retargets the bank registers or stores into external RAM.
    pub fn write_byte(&mut self, address: u16, value: u8)
        requires
            address < 0x8000 || (0xA000 <= address && address < 0xC000),
        ensures
            final(self)@.mbc == old(self)@.mbc.write(address, value),
            final(self)@.model == old(self)@.model,
    {
        match &mut self.mbc {
            Mbc::NoMbc { .. } => {},
            Mbc::Mbc1 { rom: _, ram, rom_bank, ram_bank, ram_enabled, advanced } => {
                if address < 0x2000 {
                    *ram_enabled = value & 0x0F == 0x0A;
                } else if address < 0x4000 {
                    *rom_bank = if value & 0x1F == 0 { 1 } else { value & 0x1F };
                } else if address < 0x6000 {
                    *ram_bank = value & 0x03;
                } else if address < 0x8000 {
                    *advanced = value & 0x01 == 1;
                } else if *ram_enabled && ram.len() > 0 {
                    let rb: usize = if *advanced { *ram_bank as usize } else { 0 };
                    let idx: usize = (rb * 0x2000 + (address as usize - 0xA000)) % ram.len();
                    ram.set(idx, value);
                }
            },
            Mbc::Mbc2 { rom: _, ram, rom_bank, ram_enabled } => {
                if address < 0x4000 {
                    if address & 0x0100 == 0 {
                        *ram_enabled = value & 0x0F == 0x0A;
                    } else {
                        *rom_bank = if value & 0x0F == 0 { 1 } else { value & 0x0F };
                    }
                } else if address < 0x8000 {
                } else if *ram_enabled && ram.len() > 0 {
                    let idx: usize = (address as usize - 0xA000) % ram.len();
                    ram.set(idx, value & 0x0F);
                }
            },
            Mbc::Mbc3 { rom: _, ram, rom_bank, ram_bank, ram_enabled } => {
                if address < 0x2000 {
                    *ram_enabled = value & 0x0F == 0x0A;
                } else if address < 0x4000 {
                    *rom_bank = if value & 0x7F == 0 { 1 } else { value & 0x7F };
                } else if address < 0x6000 {
                    *ram_bank = value & 0x0F;
                } else if address < 0x8000 {
                } else if *ram_enabled && *ram_bank < 4 && ram.len() > 0 {
                    let idx: usize = ((*ram_bank as usize) * 0x2000 + (address as usize - 0xA000))
                        % ram.len();
                    ram.set(idx, value);
                }
            },
            Mbc::Mbc5 { rom: _, ram, rom_bank, ram_bank, ram_enabled } => {
                if address < 0x2000 {
                    *ram_enabled = value & 0x0F == 0x0A;
                } else if address < 0x3000 {
                    *rom_bank = (*rom_bank & 0x100) | value as u16;
                } else if address < 0x4000 {
                    *rom_bank = (*rom_bank & 0xFF) | (((value & 0x01) as u16) << 8);
                } else if address < 0x6000 {
                    *ram_bank = value & 0x0F;
                } else if address < 0x8000 {
                } else if *ram_enabled && ram.len() > 0 {
                    let idx: usize = ((*ram_bank as usize) * 0x2000 + (address as usize - 0xA000))
                        % ram.len();
                    ram.set(idx, value);
                }
            },
        }
    }
}

} // verus!
