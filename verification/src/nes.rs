//! Parsing of the iNES cartridge container.
//!
//! A cartridge image starts with a 16-byte header: the magic `4E 45 53 1A`,
//! the PRG-ROM size in 16 KiB units, the CHR-ROM size in 8 KiB units, and two
//! flag bytes carrying the mirroring mode, trainer/PRG-RAM markers and the
//! mapper number (low nibble in flags 6, high nibble in flags 7).

use vstd::prelude::*;

verus! {

/// How the two physical 1 KiB nametables appear under the four logical
/// nametable slots.
#[derive(Clone, Copy, Debug, PartialEq, Eq, Structural)]
pub enum MirroringMode {
    Horizontal,
    Vertical,
}

/// Errors surfaced while loading a cartridge.
#[derive(Clone, Copy, Debug, PartialEq, Eq, Structural)]
pub enum NesError {
    /// Magic mismatch or truncated data.
    BadCartridge,
    /// Any mapper number other than 0 (NROM).
    UnsupportedMapper,
}

/// The parsed iNES header.
#[derive(Clone, Copy, Debug, PartialEq, Eq, Structural)]
pub struct NESFile {
    /// PRG-ROM size in 16 KiB units.
    pub prg_rom_size: u8,
    /// CHR-ROM size in 8 KiB units.
    pub chr_rom_size: u8,
    /// Nametable mirroring requested by the cartridge.
    pub mirroring_mode: MirroringMode,
    /// Cartridge contains battery-backed PRG RAM or other persistent memory.
    pub has_prg_ram: bool,
    /// A 512-byte trainer sits between the header and the PRG data.
    pub has_trainer: bool,
    /// Mapper number assembled from both flag bytes.
    pub mapper_number: u8,
}

/// The file starts with the magic bytes `4E 45 53 1A` and is long enough to
/// hold the whole 16-byte header.
pub open spec fn spec_header_ok(file: Seq<u8>) -> bool {
    &&& file.len() >= 16
    &&& file[0] == 0x4E
    &&& file[1] == 0x45
    &&& file[2] == 0x53
    &&& file[3] == 0x1A
}

/// What a well-formed header parses to: sizes from bytes 4 and 5, mirroring
/// and markers from the bits of byte 6, mapper number from the high nibbles
/// of bytes 6 and 7.
pub open spec fn spec_parsed_header(file: Seq<u8>) -> NESFile {
    NESFile {
        prg_rom_size: file[4],
        chr_rom_size: file[5],
        mirroring_mode: if file[6] % 2 == 1 {
            MirroringMode::Vertical
        } else {
            MirroringMode::Horizontal
        },
        has_prg_ram: (file[6] / 2) % 2 == 1,
        has_trainer: (file[6] / 4) % 2 == 1,
        mapper_number: (file[6] / 16 + (file[7] / 16) * 16) as u8,
    }
}

/// Parses the iNES header.  Returns `BadCartridge` exactly when the file is
/// shorter than the header or the magic does not match; on success every
/// field of the result is the corresponding header field.
pub fn parse_nes_file(file: &[u8]) -> (r: Result<NESFile, NesError>)
    ensures
        r is Ok <==> spec_header_ok(file@),
        r is Ok ==> r->Ok_0 == spec_parsed_header(file@),
        r is Err ==> r->Err_0 == NesError::BadCartridge,
{
    if file.len() < 16 {
        return Err(NesError::BadCartridge);
    }
    if file[0] != 0x4E || file[1] != 0x45 || file[2] != 0x53 || file[3] != 0x1A {
        return Err(NesError::BadCartridge);
    }

    let flags_6 = file[6];
    let flags_7 = file[7];

    Ok(NESFile {
        prg_rom_size: file[4],
        chr_rom_size: file[5],
        mirroring_mode: if flags_6 % 2 == 1 {
            MirroringMode::Vertical
        } else {
            MirroringMode::Horizontal
        },
        has_prg_ram: (flags_6 / 2) % 2 == 1,
        has_trainer: (flags_6 / 4) % 2 == 1,
        mapper_number: flags_6 / 16 + (flags_7 / 16) * 16,
    })
}

} // verus!
