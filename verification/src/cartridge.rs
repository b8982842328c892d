//! The cartridge: PRG ROM, CHR ROM or RAM, PRG RAM, nametable mirroring and
//! the NROM (mapper 0) address translation.

use vstd::prelude::*;

use crate::errors::EmuError;
use crate::memory::zero_bytes;

verus! {

/// How the two physical nametables are arranged over the four logical ones.
#[derive(Clone, Copy, Debug, PartialEq, Eq, Structural)]
pub enum ScreenMirroring {
    Single,
    Vertical,
    Horizontal,
    FourScreen,
}

/// The byte sequences of an NROM cartridge.
#[verifier::ext_equal]
pub struct Mapper0View {
    pub prg_rom: Seq<u8>,
    pub prg_ram: Seq<u8>,
    pub chr: Seq<u8>,
    pub chr_is_ram: bool,
}

/// The cartridge as the specifications see it.
#[verifier::ext_equal]
pub struct CartridgeView {
    pub mapper: Mapper0View,
    pub mirroring: ScreenMirroring,
}

/// The PRG ROM byte an NROM CPU read at or above 0x8000 maps to: a 16 KiB
/// image repeats over the 32 KiB window, a 32 KiB image fills it linearly.
pub open spec fn prg_rom_index(m: Mapper0View, address: u16) -> int {
    if m.prg_rom.len() == 0x4000 {
        (address - 0x8000) % 0x4000
    } else {
        address - 0x8000
    }
}

/// What an NROM CPU-side read returns: PRG RAM at 0x6000..0x7FFF, PRG ROM at
/// 0x8000..0xFFFF, and nothing anywhere else or past the stored bytes.
pub open spec fn spec_mapper_cpu_read(m: Mapper0View, address: u16) -> Option<u8> {
    if 0x6000 <= address && address < 0x8000 {
        if address - 0x6000 < m.prg_ram.len() {
            Some(m.prg_ram[address - 0x6000])
        } else {
            None
        }
    } else if 0x8000 <= address {
        if prg_rom_index(m, address) < m.prg_rom.len() {
            Some(m.prg_rom[prg_rom_index(m, address)])
        } else {
            None
        }
    } else {
        None
    }
}

/// The cartridge after an NROM CPU-side write: PRG RAM accepts the byte,
/// PRG ROM and unmapped windows ignore it.
pub open spec fn spec_mapper_cpu_write(m: Mapper0View, address: u16, value: u8) -> Mapper0View {
    if 0x6000 <= address && address < 0x8000 && address - 0x6000 < m.prg_ram.len() {
        Mapper0View { prg_ram: m.prg_ram.update(address - 0x6000, value), ..m }
    } else {
        m
    }
}

/// What an NROM PPU-side read of the pattern tables returns.
pub open spec fn spec_mapper_ppu_read(m: Mapper0View, address: u16) -> Option<u8> {
    if (address & 0x3FFF) < m.chr.len() {
        Some(m.chr[(address & 0x3FFF) as int])
    } else {
        None
    }
}

/// The cartridge after an NROM PPU-side write: CHR accepts the byte only
/// when it is RAM.
pub open spec fn spec_mapper_ppu_write(m: Mapper0View, address: u16, value: u8) -> Mapper0View {
    if m.chr_is_ram && address < m.chr.len() {
        Mapper0View { chr: m.chr.update(address as int, value), ..m }
    } else {
        m
    }
}

/// The NROM (mapper 0) cartridge circuit: no bank switching, optional
/// 8 KiB PRG RAM, CHR that is RAM exactly when the header says so.
#[derive(Clone, Debug)]
#[verifier::ext_equal]
pub struct Mapper0 {
    pub prg_rom: Vec<u8>,
    pub prg_ram: Vec<u8>,
    pub chr: Vec<u8>,
    pub chr_is_ram: bool,
}

impl View for Mapper0 {
    type V = Mapper0View;

    open spec fn view(&self) -> Mapper0View {
        Mapper0View {
            prg_rom: self.prg_rom@,
            prg_ram: self.prg_ram@,
            chr: self.chr@,
            chr_is_ram: self.chr_is_ram,
        }
    }
}

impl Mapper0 {
    /// PRG ROM comes in 16 KiB units and CHR in 8 KiB units; PRG RAM is
    /// always 8 KiB.
    pub open spec fn wf(&self) -> bool {
        &&& self.prg_rom@.len() % 0x4000 == 0
        &&& self.prg_ram@.len() == 0x2000
        &&& self.chr@.len() % 0x2000 == 0
    }

    /// Assemble a mapper around the given ROM images; PRG RAM starts zeroed.
    pub fn new(prg_rom: Vec<u8>, chr: Vec<u8>, chr_is_ram: bool) -> (r: Mapper0)
        ensures
            r@ == (Mapper0View {
                prg_rom: prg_rom@,
                prg_ram: Seq::<u8>::new(0x2000, |i: int| 0u8),
                chr: chr@,
                chr_is_ram: chr_is_ram,
            }),
    {
        let prg_ram = zero_bytes(0x2000);
        Mapper0 { prg_rom, prg_ram, chr, chr_is_ram }
    }

    /// CPU-side read through the mapper.
    pub fn cpu_read(&self, addr: u16) -> (r: Option<u8>)
        requires
            self.wf(),
        ensures
            r == spec_mapper_cpu_read(self@, addr),
    {
        if 0x6000 <= addr && addr < 0x8000 {
            let index = (addr - 0x6000) as usize;
            if index < self.prg_ram.len() {
                Some(self.prg_ram[index])
            } else {
                None
            }
        } else if 0x8000 <= addr {
            let mut mapped: usize = (addr - 0x8000) as usize;
            if self.prg_rom.len() == 0x4000 {
                mapped = mapped % 0x4000;
            }
            if mapped < self.prg_rom.len() {
                Some(self.prg_rom[mapped])
            } else {
                None
            }
        } else {
            None
        }
    }

    /// CPU-side write through the mapper; reports whether a byte was stored.
    pub fn cpu_write(&mut self, addr: u16, value: u8) -> (r: bool)
        requires
            old(self).wf(),
        ensures
            final(self).wf(),
            final(self)@ == spec_mapper_cpu_write(old(self)@, addr, value),
            r == (0x6000 <= addr && addr < 0x8000 && addr - 0x6000 < old(self).prg_ram@.len()),
    {
        if 0x6000 <= addr && addr < 0x8000 {
            let index = (addr - 0x6000) as usize;
            if index < self.prg_ram.len() {
                self.prg_ram[index] = value;
                true
            } else {
                false
            }
        } else {
            false
        }
    }

    /// PPU-side read of the pattern tables.
    pub fn ppu_read(&self, addr: u16) -> (r: Option<u8>)
        requires
            self.wf(),
        ensures
            r == spec_mapper_ppu_read(self@, addr),
    {
        let index = (addr & 0x3FFF) as usize;
        if index < self.chr.len() {
            Some(self.chr[index])
        } else {
            None
        }
    }

    /// PPU-side write of the pattern tables; succeeds only into CHR RAM.
    pub fn ppu_write(&mut self, addr: u16, value: u8) -> (r: bool)
        requires
            old(self).wf(),
        ensures
            final(self).wf(),
            final(self)@ == spec_mapper_ppu_write(old(self)@, addr, value),
            r == (old(self).chr_is_ram && addr < old(self).chr@.len()),
    {
        if self.chr_is_ram && (addr as usize) < self.chr.len() {
            self.chr[addr as usize] = value;
            true
        } else {
            false
        }
    }

    /// Zero the writable storage: PRG RAM always, CHR when it is RAM.
    pub fn reset(&mut self)
        requires
            old(self).wf(),
        ensures
            final(self).wf(),
            final(self)@ == (Mapper0View {
                prg_ram: Seq::<u8>::new(0x2000, |i: int| 0u8),
                chr: if old(self).chr_is_ram {
                    Seq::<u8>::new(old(self).chr@.len(), |i: int| 0u8)
                } else {
                    old(self).chr@
                },
                ..old(self)@
            }),
    {
        self.prg_ram = zero_bytes(0x2000);
        if self.chr_is_ram {
            let len = self.chr.len();
            self.chr = zero_bytes(len);
        }
    }
}

/// Whether an iNES header announces a 512-byte trainer block before the
/// PRG data.
pub open spec fn ines_has_trainer(flags6: u8) -> bool {
    flags6 & 0x04 != 0
}

/// The mirroring mode an iNES header selects: four-screen overrides the
/// vertical bit.
pub open spec fn ines_mirroring(flags6: u8) -> ScreenMirroring {
    if flags6 & 0x08 != 0 {
        ScreenMirroring::FourScreen
    } else if flags6 & 0x01 != 0 {
        ScreenMirroring::Vertical
    } else {
        ScreenMirroring::Horizontal
    }
}

/// What loading an iNES byte image produces: the parsed cartridge, or the
/// exact load error.  A CHR count of zero means 8 KiB of zeroed CHR RAM.
pub open spec fn spec_parse_ines(data: Seq<u8>) -> Result<CartridgeView, EmuError> {
    if data.len() < 16 {
        Err(EmuError::TruncatedFile)
    } else if !(data[0] == 0x4E && data[1] == 0x45 && data[2] == 0x53 && data[3] == 0x1A) {
        Err(EmuError::InvalidMagic)
    } else if (data[6] >> 4) | (data[7] & 0xF0) != 0 {
        Err(EmuError::UnsupportedMapper)
    } else {
        let offset: int = if ines_has_trainer(data[6]) {
            528int
        } else {
            16int
        };
        let prg_len: int = data[4] * 0x4000;
        let chr_len: int = data[5] * 0x2000;
        if data.len() < offset + prg_len + chr_len {
            Err(EmuError::TruncatedFile)
        } else {
            Ok(
                CartridgeView {
                    mapper: Mapper0View {
                        prg_rom: data.subrange(offset, offset + prg_len),
                        prg_ram: Seq::<u8>::new(0x2000, |i: int| 0u8),
                        chr: if data[5] == 0 {
                            Seq::<u8>::new(0x2000, |i: int| 0u8)
                        } else {
                            data.subrange(offset + prg_len, offset + prg_len + chr_len)
                        },
                        chr_is_ram: data[5] == 0,
                    },
                    mirroring: ines_mirroring(data[6]),
                },
            )
        }
    }
}

/// A fresh vector holding `data[start .. start + len]`.
pub fn copy_range(data: &Vec<u8>, start: usize, len: usize) -> (r: Vec<u8>)
    requires
        start + len <= data@.len(),
    ensures
        r@ == data@.subrange(start as int, start as int + len as int),
{
    let total: usize = data.len();
    let mut v: Vec<u8> = Vec::new();
    let mut i: usize = 0;
    while i < len
        invariant
            i <= len,
            start + len <= data@.len(),
            data@.len() == total,
            v@ =~= data@.subrange(start as int, start as int + i as int),
        decreases len - i,
    {
        v.push(data[start + i]);
        i = i + 1;
        proof {
            assert(v@ =~= data@.subrange(start as int, start as int + i as int));
        }
    }
    proof {
        assert(v@ =~= data@.subrange(start as int, start as int + len as int));
    }
    v
}

/// A cartridge: its mapper and its nametable mirroring mode.
#[derive(Clone, Debug)]
#[verifier::ext_equal]
pub struct Cartridge {
    pub mapper: Mapper0,
    pub mirroring: ScreenMirroring,
}

impl View for Cartridge {
    type V = CartridgeView;

    open spec fn view(&self) -> CartridgeView {
        CartridgeView { mapper: self.mapper@, mirroring: self.mirroring }
    }
}

impl Cartridge {
    pub open spec fn wf(&self) -> bool {
        self.mapper.wf()
    }

    /// An empty cartridge slot: no ROM bytes, single-screen mirroring.
    pub fn new() -> (r: Cartridge)
        ensures
            r.wf(),
            r@ == (CartridgeView {
                mapper: Mapper0View {
                    prg_rom: Seq::<u8>::empty(),
                    prg_ram: Seq::<u8>::new(0x2000, |i: int| 0u8),
                    chr: Seq::<u8>::empty(),
                    chr_is_ram: false,
                },
                mirroring: ScreenMirroring::Single,
            }),
    {
        let c = Cartridge {
            mapper: Mapper0::new(Vec::new(), Vec::new(), false),
            mirroring: ScreenMirroring::Single,
        };
        proof {
            assert(c@.mapper.prg_rom =~= Seq::<u8>::empty());
            assert(c@.mapper.chr =~= Seq::<u8>::empty());
        }
        c
    }

    /// Parse an iNES image and load it into this cartridge slot.  On any
    /// load error the slot is left exactly as it was.
    pub fn load_ines_rom(&mut self, data: &Vec<u8>) -> (r: Result<(), EmuError>)
        requires
            old(self).wf(),
        ensures
            final(self).wf(),
            match spec_parse_ines(data@) {
                Ok(c) => r is Ok && final(self)@ == c,
                Err(e) => r == Err::<(), EmuError>(e) && *final(self) == *old(self),
            },
    {
        if data.len() < 16 {
            return Err(EmuError::TruncatedFile);
        }
        if !(data[0] == 0x4E && data[1] == 0x45 && data[2] == 0x53 && data[3] == 0x1A) {
            return Err(EmuError::InvalidMagic);
        }
        let mapper_id: u8 = (data[6] >> 4) | (data[7] & 0xF0);
        if mapper_id != 0 {
            return Err(EmuError::UnsupportedMapper);
        }
        let offset: usize = if data[6] & 0x04 != 0 {
            16 + 512
        } else {
            16
        };
        let prg_len: usize = (data[4] as usize) * 0x4000;
        let chr_count = data[5];
        let chr_len: usize = (chr_count as usize) * 0x2000;
        if data.len() < offset + prg_len + chr_len {
            return Err(EmuError::TruncatedFile);
        }
        let prg_rom = copy_range(data, offset, prg_len);
        let chr: Vec<u8> = if chr_count == 0 {
            zero_bytes(0x2000)
        } else {
            copy_range(data, offset + prg_len, chr_len)
        };
        let mirroring = if data[6] & 0x08 != 0 {
            ScreenMirroring::FourScreen
        } else if data[6] & 0x01 != 0 {
            ScreenMirroring::Vertical
        } else {
            ScreenMirroring::Horizontal
        };
        self.mapper = Mapper0::new(prg_rom, chr, chr_count == 0);
        self.mirroring = mirroring;
        Ok(())
    }

    /// Zero the cartridge's writable storage.
    pub fn reset(&mut self)
        requires
            old(self).wf(),
        ensures
            final(self).wf(),
            final(self)@ == (CartridgeView {
                mapper: Mapper0View {
                    prg_ram: Seq::<u8>::new(0x2000, |i: int| 0u8),
                    chr: if old(self).mapper.chr_is_ram {
                        Seq::<u8>::new(old(self).mapper.chr@.len(), |i: int| 0u8)
                    } else {
                        old(self).mapper.chr@
                    },
                    ..old(self)@.mapper
                },
                ..old(self)@
            }),
    {
        self.mapper.reset();
    }
}

} // verus!
