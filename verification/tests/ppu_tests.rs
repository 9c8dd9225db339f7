//! PPU behavior through the CPU-visible registers and the master clock.

use baroness::emu::Emulator;
use baroness::nes::parse_nes_file;

fn boot() -> Emulator {
    let mut file = vec![0u8; 16 + 0x4000 + 0x2000];
    file[0] = 0x4E;
    file[1] = 0x45;
    file[2] = 0x53;
    file[3] = 0x1A;
    file[4] = 1;
    file[5] = 1;
    // The program is a single NOP loop: 4C 00 80 (JMP 0x8000).
    file[16] = 0x4C;
    file[17] = 0x00;
    file[18] = 0x80;
    file[16 + 0x3FFD] = 0x80;
    // A recognizable CHR byte for pattern-table reads.
    file[16 + 0x4000 + 0x0123] = 0xAB;
    let header = parse_nes_file(&file).unwrap();
    let mut emu = Emulator::new(&file, &header).unwrap();
    emu.reset();
    emu
}

#[test]
fn vblank_fires_nmi_once_per_frame() {
    let mut emu = boot();
    // PPUCTRL = 0x80: NMI on VBlank.
    emu.write(0x2000, 0x80);
    emu.run_frame().unwrap();
    assert_eq!(emu.nmi_count, 1);
    // Bit 7 of PPUSTATUS reads 1 the first time, 0 the second.
    let first = emu.read(0x2002);
    let second = emu.read(0x2002);
    assert_eq!(first & 0x80, 0x80);
    assert_eq!(second & 0x80, 0x00);
    // The next frame raises exactly one more.
    emu.run_frame().unwrap();
    assert_eq!(emu.nmi_count, 2);
}

#[test]
fn vblank_without_nmi_enable_raises_nothing() {
    let mut emu = boot();
    emu.run_frame().unwrap();
    assert_eq!(emu.nmi_count, 0);
    assert_eq!(emu.read(0x2002) & 0x80, 0x80);
}

#[test]
fn ppudata_writes_and_buffered_reads() {
    let mut emu = boot();
    // Point PPUADDR at a nametable cell: 0x2005.
    emu.write(0x2006, 0x20);
    emu.write(0x2006, 0x05);
    emu.write(0x2007, 0x42);
    // Re-point and read: the first PPUDATA read returns the stale buffer.
    emu.write(0x2006, 0x20);
    emu.write(0x2006, 0x05);
    let stale = emu.read(0x2007);
    let value = emu.read(0x2007);
    let _ = stale;
    assert_eq!(value, 0x42);
}

#[test]
fn ppudata_increments_by_32_when_selected() {
    let mut emu = boot();
    // PPUCTRL bit 2: VRAM increment of 32.
    emu.write(0x2000, 0x04);
    emu.write(0x2006, 0x20);
    emu.write(0x2006, 0x00);
    emu.write(0x2007, 0x11);
    emu.write(0x2007, 0x22);
    // The bytes landed one row (32 cells) apart.
    emu.write(0x2000, 0x00);
    emu.write(0x2006, 0x20);
    emu.write(0x2006, 0x00);
    let _ = emu.read(0x2007);
    let first = emu.read(0x2007);
    assert_eq!(first, 0x11);
    emu.write(0x2006, 0x20);
    emu.write(0x2006, 0x20);
    let _ = emu.read(0x2007);
    let second = emu.read(0x2007);
    assert_eq!(second, 0x22);
}

#[test]
fn pattern_table_reads_are_buffered_chr() {
    let mut emu = boot();
    emu.write(0x2006, 0x01);
    emu.write(0x2006, 0x23);
    let _ = emu.read(0x2007);
    assert_eq!(emu.read(0x2007), 0xAB);
}

#[test]
fn chr_rom_rejects_ppudata_writes() {
    let mut emu = boot();
    emu.write(0x2006, 0x01);
    emu.write(0x2006, 0x23);
    emu.write(0x2007, 0x00);
    emu.write(0x2006, 0x01);
    emu.write(0x2006, 0x23);
    let _ = emu.read(0x2007);
    assert_eq!(emu.read(0x2007), 0xAB);
}

#[test]
fn palette_aliasing_folds_mirror_entries() {
    let mut emu = boot();
    // Write 0x3F10; it aliases to 0x3F00.
    emu.write(0x2006, 0x3F);
    emu.write(0x2006, 0x10);
    emu.write(0x2007, 0x2A);
    emu.write(0x2006, 0x3F);
    emu.write(0x2006, 0x00);
    // Palette reads bypass the buffer.
    assert_eq!(emu.read(0x2007), 0x2A);
}

#[test]
fn status_read_clears_write_toggle() {
    let mut emu = boot();
    // First PPUADDR write, then a status read resets the toggle, so the
    // next write is a high byte again.
    emu.write(0x2006, 0x3F);
    let _ = emu.read(0x2002);
    emu.write(0x2006, 0x3F);
    emu.write(0x2006, 0x01);
    emu.write(0x2007, 0x17);
    emu.write(0x2002, 0xFF);  // PPUSTATUS is read-only: no effect.
    emu.write(0x2006, 0x3F);
    emu.write(0x2006, 0x01);
    assert_eq!(emu.read(0x2007), 0x17);
}

#[test]
fn scroll_write_pair_sets_t_and_fine_x() {
    let mut emu = boot();
    // First write: coarse X = 0x7D / 8, fine X = 0x7D % 8.
    emu.write(0x2005, 0x7D);
    assert_eq!(emu.ppu.temp_vram_address.coarse_x, 0x0F);
    assert_eq!(emu.ppu.fine_x, 5);
    // Second write: coarse Y and fine Y.
    emu.write(0x2005, 0x5E);
    assert_eq!(emu.ppu.temp_vram_address.coarse_y, 0x0B);
    assert_eq!(emu.ppu.temp_vram_address.fine_y, 6);
    assert!(!emu.ppu.second_byte);
}

#[test]
fn ctrl_write_loads_nametable_bits_of_t() {
    let mut emu = boot();
    emu.write(0x2000, 0x03);
    assert_eq!(emu.ppu.temp_vram_address.nametable_x, 1);
    assert_eq!(emu.ppu.temp_vram_address.nametable_y, 1);
}

#[test]
fn nametable_mirroring_folds_logical_tables() {
    // Horizontal mirroring: logical tables 0 and 1 share storage.
    let mut emu = boot();
    emu.write(0x2006, 0x20);
    emu.write(0x2006, 0x33);
    emu.write(0x2007, 0x5C);
    emu.write(0x2006, 0x24);
    emu.write(0x2006, 0x33);
    let _ = emu.read(0x2007);
    assert_eq!(emu.read(0x2007), 0x5C);
}

#[test]
fn frame_advances_dot_and_scanline() {
    let mut emu = boot();
    assert_eq!(emu.ppu.cycle, 0);
    assert_eq!(emu.ppu.scanline, 0);
    emu.clock().unwrap();
    assert_eq!(emu.ppu.cycle, 1);
    assert_eq!(emu.ppu.scanline, 0);
    for _ in 0..340 {
        emu.clock().unwrap();
    }
    assert_eq!(emu.ppu.cycle, 0);
    assert_eq!(emu.ppu.scanline, 1);
}

#[test]
fn run_frame_returns_to_origin() {
    let mut emu = boot();
    emu.run_frame().unwrap();
    assert_eq!(emu.ppu.cycle, 0);
    assert_eq!(emu.ppu.scanline, 0);
    assert!(!emu.frame_complete);
    assert_eq!(emu.framebuffer.len(), 256 * 240 * 3);
}
