//! Mapper 0 (NROM), the bank-fixed cartridge board.
//!
//! Two variants exist: NROM-128 carries 16 KiB of PRG-ROM mirrored twice into
//! the CPU window `0x8000-0xFFFF`, NROM-256 carries 32 KiB filling it once.
//! CHR-ROM is a fixed 8 KiB visible to the PPU at `0x0000-0x1FFF`.  Both ROMs
//! are read-only: writes are reported as bus errors.

use vstd::prelude::*;

use crate::nes::{MirroringMode, NESFile, NesError};

verus! {

/// The two NROM board sizes.
#[derive(Clone, Copy, Debug, PartialEq, Eq, Structural)]
pub enum NROMMapperType {
    NROM128,
    NROM256,
}

/// An NROM cartridge: fixed PRG and CHR banks plus the nametable mirroring
/// the board is wired for.
pub struct NROMMapper {
    pub typ: NROMMapperType,
    pub prg_rom: Vec<u8>,
    pub chr_rom: Vec<u8>,
    pub mirroring: MirroringMode,
}

/// Copies `src[start .. start + len]` into a fresh vector.
fn copy_range(src: &[u8], start: usize, len: usize) -> (r: Vec<u8>)
    requires
        start + len <= src.len(),
    ensures
        r@ == src@.subrange(start as int, start as int + len as int),
{
    let mut r: Vec<u8> = Vec::new();
    let mut i: usize = 0;
    while i < len
        invariant
            start + len <= src.len(),
            i <= len,
            r@ == src@.subrange(start as int, start as int + i as int),
        decreases len - i,
    {
        r.push(src[start + i]);
        i += 1;
        proof {
            assert(r@ =~= src@.subrange(start as int, start as int + i as int));
        }
    }
    r
}

impl NROMMapper {
    /// Size of the PRG window this variant repeats over `0x8000-0xFFFF`.
    pub open spec fn spec_prg_len(self) -> int {
        match self.typ {
            NROMMapperType::NROM128 => 0x4000,
            NROMMapperType::NROM256 => 0x8000,
        }
    }

    /// The banks hold exactly what the variant prescribes.
    pub open spec fn wf(self) -> bool {
        &&& self.prg_rom@.len() == self.spec_prg_len()
        &&& self.chr_rom@.len() == 0x2000
    }

    /// Where a CPU address in the cartridge window lands inside PRG-ROM.
    pub open spec fn spec_translate_prg(self, addr: u16) -> int {
        addr as int % self.spec_prg_len()
    }

    /// Builds the mapper from the raw file and its parsed header.  Succeeds
    /// exactly when the header describes an NROM-sized cartridge (1 or 2 PRG
    /// units, 1 CHR unit) and the file holds all the announced ROM bytes
    /// after the header and the optional 512-byte trainer.
    pub fn new(file_buff: &[u8], nes_file: &NESFile) -> (r: Result<NROMMapper, NesError>)
        ensures
            r is Ok <==> ({
                &&& (nes_file.prg_rom_size == 1 || nes_file.prg_rom_size == 2)
                &&& nes_file.chr_rom_size == 1
                &&& file_buff@.len() >= Self::spec_rom_start(*nes_file)
                    + nes_file.prg_rom_size as int * 0x4000 + 0x2000
            }),
            r is Err ==> r->Err_0 == NesError::BadCartridge,
            r is Ok ==> ({
                let m = r->Ok_0;
                let start = Self::spec_rom_start(*nes_file);
                let prg_len = nes_file.prg_rom_size as int * 0x4000;
                &&& m.wf()
                &&& m.typ == (if nes_file.prg_rom_size == 1 {
                    NROMMapperType::NROM128
                } else {
                    NROMMapperType::NROM256
                })
                &&& m.prg_rom@ == file_buff@.subrange(start, start + prg_len)
                &&& m.chr_rom@ == file_buff@.subrange(start + prg_len, start + prg_len + 0x2000)
                &&& m.mirroring == nes_file.mirroring_mode
            }),
    {
        if !(nes_file.prg_rom_size == 1 || nes_file.prg_rom_size == 2) {
            return Err(NesError::BadCartridge);
        }
        if nes_file.chr_rom_size != 1 {
            return Err(NesError::BadCartridge);
        }

        let rom_start: usize = if nes_file.has_trainer {
            16 + 512
        } else {
            16
        };
        let prg_len: usize = nes_file.prg_rom_size as usize * 0x4000;

        if file_buff.len() < rom_start + prg_len + 0x2000 {
            return Err(NesError::BadCartridge);
        }

        let prg_rom = copy_range(file_buff, rom_start, prg_len);
        let chr_rom = copy_range(file_buff, rom_start + prg_len, 0x2000);

        Ok(NROMMapper {
            typ: if nes_file.prg_rom_size == 1 {
                NROMMapperType::NROM128
            } else {
                NROMMapperType::NROM256
            },
            prg_rom,
            chr_rom,
            mirroring: nes_file.mirroring_mode,
        })
    }

    /// First byte of ROM data: right after the header, skipping the trainer
    /// when one is present.
    pub open spec fn spec_rom_start(nes_file: NESFile) -> int {
        16 + if nes_file.has_trainer {
            512int
        } else {
            0int
        }
    }

    /// Masks a CPU address down to its position inside the PRG bank.
    pub fn translate_prg_address(&self, addr: u16) -> (r: u16)
        ensures
            r as int == self.spec_translate_prg(addr),
    {
        match self.typ {
            NROMMapperType::NROM128 => addr % 0x4000,
            NROMMapperType::NROM256 => addr % 0x8000,
        }
    }

    /// CPU read of the cartridge window.  Everything below `0x8000` is open
    /// bus on this board; above it the PRG byte at the translated address.
    pub fn read_cpu(&self, addr: u16) -> (r: Result<u8, ()>)
        requires
            self.wf(),
        ensures
            r is Ok <==> addr >= 0x8000,
            r is Ok ==> r->Ok_0 == self.prg_rom@[self.spec_translate_prg(addr)],
    {
        if addr < 0x8000 {
            return Err(());
        }

        let off = self.translate_prg_address(addr);
        Ok(self.prg_rom[off as usize])
    }

    /// CPU writes never reach NROM ROM: always a bus error, nothing changes.
    pub fn write_cpu(&mut self, addr: u16, val: u8) -> (r: Result<(), ()>)
        ensures
            *final(self) == *old(self),
            r is Err,
    {
        let _ = addr;
        let _ = val;
        Err(())
    }

    /// PPU read of the pattern tables: the CHR byte for `0x0000-0x1FFF`,
    /// open bus above.
    pub fn read_ppu(&self, addr: u16) -> (r: Result<u8, ()>)
        requires
            self.wf(),
        ensures
            r is Ok <==> addr < 0x2000,
            r is Ok ==> r->Ok_0 == self.chr_rom@[addr as int],
    {
        if addr >= 0x2000 {
            return Err(());
        }

        Ok(self.chr_rom[addr as usize])
    }

    /// CHR-ROM is read-only: every write is rejected, nothing changes.
    pub fn write_ppu(&mut self, addr: u16, val: u8) -> (r: Result<(), ()>)
        ensures
            *final(self) == *old(self),
            r is Err,
    {
        let _ = addr;
        let _ = val;
        Err(())
    }

    /// Start of the PRG window as seen by the CPU before the RESET vector is
    /// consulted.
    pub fn entrypoint(&self) -> (r: u16)
        ensures
            r == 0xC000u16,
    {
        0xC000
    }
}

} // verus!
