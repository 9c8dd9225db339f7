//! Cartridge parsing and mapper construction.

use baroness::mapper::{get_mapper, Mapper};
use baroness::nes::{parse_nes_file, MirroringMode, NesError};
use baroness::nrom::NROMMapper;

fn header_file(flags6: u8, flags7: u8, prg: u8, chr: u8) -> Vec<u8> {
    let mut file = vec![0u8; 16 + prg as usize * 0x4000 + chr as usize * 0x2000];
    file[0] = 0x4E;
    file[1] = 0x45;
    file[2] = 0x53;
    file[3] = 0x1A;
    file[4] = prg;
    file[5] = chr;
    file[6] = flags6;
    file[7] = flags7;
    file
}

#[test]
fn parse_reads_sizes_and_flags() {
    let file = header_file(0b0000_0011, 0x00, 2, 1);
    let h = parse_nes_file(&file).unwrap();
    assert_eq!(h.prg_rom_size, 2);
    assert_eq!(h.chr_rom_size, 1);
    assert_eq!(h.mirroring_mode, MirroringMode::Vertical);
    assert!(h.has_prg_ram);
    assert!(!h.has_trainer);
    assert_eq!(h.mapper_number, 0);
}

#[test]
fn parse_assembles_mapper_number_from_both_nibbles() {
    let file = header_file(0x10, 0x20, 1, 1);
    let h = parse_nes_file(&file).unwrap();
    assert_eq!(h.mapper_number, 0x21);
}

#[test]
fn parse_rejects_bad_magic() {
    let mut file = header_file(0, 0, 1, 1);
    file[1] = 0x45 + 1;
    assert_eq!(parse_nes_file(&file), Err(NesError::BadCartridge));
}

#[test]
fn parse_rejects_truncated_header() {
    let file = vec![0x4E, 0x45, 0x53, 0x1A, 1, 1];
    assert_eq!(parse_nes_file(&file), Err(NesError::BadCartridge));
}

#[test]
fn get_mapper_rejects_unsupported_mapper() {
    let file = header_file(0x10, 0, 1, 1);
    let h = parse_nes_file(&file).unwrap();
    assert!(matches!(get_mapper(&file, &h), Err(NesError::UnsupportedMapper)));
}

#[test]
fn get_mapper_rejects_truncated_rom() {
    let mut file = header_file(0, 0, 1, 1);
    file.truncate(file.len() - 1);
    let h = parse_nes_file(&file).unwrap();
    assert!(matches!(get_mapper(&file, &h), Err(NesError::BadCartridge)));
}

#[test]
fn nrom_translates_and_reads_both_variants() {
    // NROM-128: the 16 KiB bank repeats across the window.
    let mut file = header_file(0, 0, 1, 1);
    file[16] = 0x77;
    let h = parse_nes_file(&file).unwrap();
    let m = NROMMapper::new(&file, &h).unwrap();
    assert_eq!(m.translate_prg_address(0x8000), 0x0000);
    assert_eq!(m.translate_prg_address(0xC000), 0x0000);
    assert_eq!(m.read_cpu(0x8000), Ok(0x77));
    assert_eq!(m.read_cpu(0xC000), Ok(0x77));
    assert_eq!(m.read_cpu(0x4020), Err(()));

    // NROM-256: the 32 KiB bank fills it once.
    let mut file = header_file(0, 0, 2, 1);
    file[16] = 0x11;
    file[16 + 0x4000] = 0x22;
    let h = parse_nes_file(&file).unwrap();
    let m = NROMMapper::new(&file, &h).unwrap();
    assert_eq!(m.translate_prg_address(0xC001), 0x4001);
    assert_eq!(m.read_cpu(0x8000), Ok(0x11));
    assert_eq!(m.read_cpu(0xC000), Ok(0x22));
}

#[test]
fn nrom_trainer_offsets_rom_data() {
    let mut file = header_file(0b0000_0100, 0, 1, 1);
    file.resize(16 + 512 + 0x4000 + 0x2000, 0);
    file[16 + 512] = 0x66;
    let h = parse_nes_file(&file).unwrap();
    assert!(h.has_trainer);
    let m = NROMMapper::new(&file, &h).unwrap();
    assert_eq!(m.read_cpu(0x8000), Ok(0x66));
}

#[test]
fn nrom_rejects_writes() {
    let file = header_file(0, 0, 1, 1);
    let h = parse_nes_file(&file).unwrap();
    let mut m = NROMMapper::new(&file, &h).unwrap();
    assert_eq!(m.write_cpu(0x8000, 1), Err(()));
    assert_eq!(m.write_ppu(0x0000, 1), Err(()));
    assert_eq!(m.read_cpu(0x8000), Ok(0x00));
}

#[test]
fn mapper_enum_forwards_chr_reads() {
    let mut file = header_file(1, 0, 1, 1);
    file[16 + 0x4000 + 5] = 0x9D;
    let h = parse_nes_file(&file).unwrap();
    let m = get_mapper(&file, &h).unwrap();
    assert_eq!(m.read_ppu(0x0005), Ok(0x9D));
    assert_eq!(m.read_ppu(0x2000), Err(()));
    assert_eq!(m.mirroring(), MirroringMode::Vertical);
    let Mapper::Nrom(n) = m;
    assert_eq!(n.entrypoint(), 0xC000);
}
