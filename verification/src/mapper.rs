//! The cartridge mapper seen by the bus.
//!
//! The bus talks to the cartridge through four operations — CPU read/write
//! and PPU read/write — plus the nametable mirroring the board selects.  The
//! mapper is a tagged variant so the set stays open to further boards without
//! touching the bus; mapper 0 (NROM) is the one provided.

use vstd::prelude::*;

use crate::nes::{MirroringMode, NESFile, NesError};
use crate::nrom::NROMMapper;

verus! {

/// Every supported cartridge board.
pub enum Mapper {
    Nrom(NROMMapper),
}

impl Mapper {
    /// The board's banks are the size its variant prescribes.
    pub open spec fn wf(self) -> bool {
        match self {
            Mapper::Nrom(m) => m.wf(),
        }
    }

    /// The PRG-ROM bytes.
    pub open spec fn spec_prg(self) -> Seq<u8> {
        match self {
            Mapper::Nrom(m) => m.prg_rom@,
        }
    }

    /// The CHR-ROM bytes.
    pub open spec fn spec_chr(self) -> Seq<u8> {
        match self {
            Mapper::Nrom(m) => m.chr_rom@,
        }
    }

    /// The nametable mirroring the cartridge is wired for.
    pub open spec fn spec_mirroring(self) -> MirroringMode {
        match self {
            Mapper::Nrom(m) => m.mirroring,
        }
    }

    /// What a CPU read of `addr` returns: the PRG byte for the cartridge
    /// window, or nothing (open bus) below it.
    pub open spec fn spec_cpu_byte(self, addr: u16) -> Option<u8> {
        match self {
            Mapper::Nrom(m) => if addr >= 0x8000 {
                Some(m.prg_rom@[m.spec_translate_prg(addr)])
            } else {
                None
            },
        }
    }

    /// What a PPU read of `addr` returns: the CHR byte for the pattern
    /// tables, or nothing above them.
    pub open spec fn spec_ppu_byte(self, addr: u16) -> Option<u8> {
        match self {
            Mapper::Nrom(m) => if addr < 0x2000 {
                Some(m.chr_rom@[addr as int])
            } else {
                None
            },
        }
    }

    /// Read from PRG memory.
    pub fn read_cpu(&self, addr: u16) -> (r: Result<u8, ()>)
        requires
            self.wf(),
        ensures
            r is Ok <==> self.spec_cpu_byte(addr) is Some,
            r is Ok ==> r->Ok_0 == self.spec_cpu_byte(addr)->0,
    {
        match self {
            Mapper::Nrom(m) => m.read_cpu(addr),
        }
    }

    /// Write to PRG memory; rejected on every supported board.
    pub fn write_cpu(&mut self, addr: u16, val: u8) -> (r: Result<(), ()>)
        ensures
            *final(self) == *old(self),
            r is Err,
    {
        match self {
            Mapper::Nrom(m) => m.write_cpu(addr, val),
        }
    }

    /// Read from CHR memory.
    pub fn read_ppu(&self, addr: u16) -> (r: Result<u8, ()>)
        requires
            self.wf(),
        ensures
            r is Ok <==> self.spec_ppu_byte(addr) is Some,
            r is Ok ==> r->Ok_0 == self.spec_ppu_byte(addr)->0,
    {
        match self {
            Mapper::Nrom(m) => m.read_ppu(addr),
        }
    }

    /// Write to CHR memory; rejected on every supported board.
    pub fn write_ppu(&mut self, addr: u16, val: u8) -> (r: Result<(), ()>)
        ensures
            *final(self) == *old(self),
            r is Err,
    {
        match self {
            Mapper::Nrom(m) => m.write_ppu(addr, val),
        }
    }

    /// The nametable mirroring the cartridge selects.
    pub fn mirroring(&self) -> (r: MirroringMode)
        ensures
            r == self.spec_mirroring(),
    {
        match self {
            Mapper::Nrom(m) => m.mirroring,
        }
    }
}

/// Builds the mapper a parsed cartridge asks for: `UnsupportedMapper` for any
/// mapper number other than 0, otherwise NROM built from the file, with its
/// own `BadCartridge` check on the announced sizes.
pub fn get_mapper(file_buff: &[u8], nes_file: &NESFile) -> (r: Result<Mapper, NesError>)
    ensures
        nes_file.mapper_number != 0 ==> r == Result::<Mapper, NesError>::Err(
            NesError::UnsupportedMapper,
        ),
        nes_file.mapper_number == 0 ==> ({
            &&& (r is Ok <==> ({
                &&& (nes_file.prg_rom_size == 1 || nes_file.prg_rom_size == 2)
                &&& nes_file.chr_rom_size == 1
                &&& file_buff@.len() >= NROMMapper::spec_rom_start(*nes_file)
                    + nes_file.prg_rom_size as int * 0x4000 + 0x2000
            }))
            &&& (r is Err ==> r->Err_0 == NesError::BadCartridge)
            &&& (r is Ok ==> ({
                let start = NROMMapper::spec_rom_start(*nes_file);
                let prg_len = nes_file.prg_rom_size as int * 0x4000;
                &&& r->Ok_0.wf()
                &&& r->Ok_0.spec_mirroring() == nes_file.mirroring_mode
                &&& r->Ok_0.spec_prg() == file_buff@.subrange(start, start + prg_len)
                &&& r->Ok_0.spec_chr() == file_buff@.subrange(start + prg_len, start + prg_len
                    + 0x2000)
            }))
        }),
{
    if nes_file.mapper_number != 0 {
        return Err(NesError::UnsupportedMapper);
    }

    match NROMMapper::new(file_buff, nes_file) {
        Ok(m) => Ok(Mapper::Nrom(m)),
        Err(e) => Err(e),
    }
}

} // verus!
