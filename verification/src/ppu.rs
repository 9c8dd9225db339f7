//! PPU state and the CPU-visible PPU registers.
//!
//! The PPU keeps a `(scanline, dot)` position on a 262 x 341 grid, the two
//! 15-bit scroll registers `v` and `t` with the shared write toggle `w`, the
//! background shift registers, the two physical nametables and the palette
//! table.  The CPU reaches it through eight registers mirrored across
//! `0x2000-0x3FFF`; every transition they cause is written out as a spec
//! function on the machine view, and the executable register handlers are
//! proved equal to those transitions.

use vstd::prelude::*;

use crate::emu::{EmuView, Emulator};
use crate::nes::MirroringMode;
use crate::vram::VRAMAddress;

verus! {

/// PPUCTRL (`0x2000`), one field per bit.
#[derive(Clone, Copy, Debug, PartialEq, Eq, Structural)]
pub struct ControlReg {
    pub nametable_x: bool,
    pub nametable_y: bool,
    /// Clear: PPUDATA accesses step `v` by 1; set: by 32.
    pub vram_increment: bool,
    pub sprite_pattern_table_address: bool,
    /// Clear: background tiles come from `0x0000`; set: from `0x1000`.
    pub background_pattern_table_address: bool,
    pub sprite_size: bool,
    pub master_slave_select: bool,
    /// Generate an NMI at the start of vertical blanking.
    pub generate_nmi: bool,
}

impl ControlReg {
    /// The decomposition of the written byte, bit 0 first.
    pub open spec fn spec_from_byte(v: u8) -> ControlReg {
        ControlReg {
            nametable_x: v % 2 == 1,
            nametable_y: (v / 2) % 2 == 1,
            vram_increment: (v / 4) % 2 == 1,
            sprite_pattern_table_address: (v / 8) % 2 == 1,
            background_pattern_table_address: (v / 16) % 2 == 1,
            sprite_size: (v / 32) % 2 == 1,
            master_slave_select: (v / 64) % 2 == 1,
            generate_nmi: v / 128 == 1,
        }
    }

    /// All bits clear, the power-up value.
    pub fn new() -> (r: ControlReg)
        ensures
            r == Self::spec_from_byte(0),
    {
        ControlReg {
            nametable_x: false,
            nametable_y: false,
            vram_increment: false,
            sprite_pattern_table_address: false,
            background_pattern_table_address: false,
            sprite_size: false,
            master_slave_select: false,
            generate_nmi: false,
        }
    }

    /// Splits a written byte into its bits.
    pub fn from_byte(v: u8) -> (r: ControlReg)
        ensures
            r == Self::spec_from_byte(v),
    {
        ControlReg {
            nametable_x: v % 2 == 1,
            nametable_y: (v / 2) % 2 == 1,
            vram_increment: (v / 4) % 2 == 1,
            sprite_pattern_table_address: (v / 8) % 2 == 1,
            background_pattern_table_address: (v / 16) % 2 == 1,
            sprite_size: (v / 32) % 2 == 1,
            master_slave_select: (v / 64) % 2 == 1,
            generate_nmi: v / 128 == 1,
        }
    }
}

/// PPUMASK (`0x2001`), one field per bit.
#[derive(Clone, Copy, Debug, PartialEq, Eq, Structural)]
pub struct MaskReg {
    pub greyscale: bool,
    pub show_background_leftmost: bool,
    pub show_sprites_leftmost: bool,
    pub show_background: bool,
    pub show_sprites: bool,
    pub emphasize_red: bool,
    pub emphasize_green: bool,
    pub emphasize_blue: bool,
}

impl MaskReg {
    /// The decomposition of the written byte, bit 0 first.
    pub open spec fn spec_from_byte(v: u8) -> MaskReg {
        MaskReg {
            greyscale: v % 2 == 1,
            show_background_leftmost: (v / 2) % 2 == 1,
            show_sprites_leftmost: (v / 4) % 2 == 1,
            show_background: (v / 8) % 2 == 1,
            show_sprites: (v / 16) % 2 == 1,
            emphasize_red: (v / 32) % 2 == 1,
            emphasize_green: (v / 64) % 2 == 1,
            emphasize_blue: v / 128 == 1,
        }
    }

    /// Rendering is enabled when either backgrounds or sprites are shown;
    /// the scroll arithmetic of `v` runs only then.
    pub open spec fn spec_rendering(self) -> bool {
        self.show_background || self.show_sprites
    }

    /// All bits clear, the power-up value.
    pub fn new() -> (r: MaskReg)
        ensures
            r == Self::spec_from_byte(0),
    {
        MaskReg {
            greyscale: false,
            show_background_leftmost: false,
            show_sprites_leftmost: false,
            show_background: false,
            show_sprites: false,
            emphasize_red: false,
            emphasize_green: false,
            emphasize_blue: false,
        }
    }

    /// Splits a written byte into its bits.
    pub fn from_byte(v: u8) -> (r: MaskReg)
        ensures
            r == Self::spec_from_byte(v),
    {
        MaskReg {
            greyscale: v % 2 == 1,
            show_background_leftmost: (v / 2) % 2 == 1,
            show_sprites_leftmost: (v / 4) % 2 == 1,
            show_background: (v / 8) % 2 == 1,
            show_sprites: (v / 16) % 2 == 1,
            emphasize_red: (v / 32) % 2 == 1,
            emphasize_green: (v / 64) % 2 == 1,
            emphasize_blue: v / 128 == 1,
        }
    }
}

/// The PPU's internal state.
pub struct PPUData {
    /// Current dot within the scanline, `0..=340`.
    pub cycle: u16,
    /// Current scanline, `0..=261`.
    pub scanline: u16,
    /// The VBlank flag, bit 7 of PPUSTATUS.
    pub vertical_blanking: bool,
    /// The two physical 1 KiB nametables, back to back.
    pub nametables: Vec<u8>,
    pub control_reg: ControlReg,
    pub mask_reg: MaskReg,
    /// The shared write toggle `w` of PPUSCROLL and PPUADDR.
    pub second_byte: bool,
    /// The current VRAM address `v`.
    pub vram_address: VRAMAddress,
    /// The temporary VRAM address `t`.
    pub temp_vram_address: VRAMAddress,
    /// Fine X scroll, 3 bits.
    pub fine_x: u8,
    /// The PPUDATA read buffer.
    pub data_buffer: u8,
    /// Background pattern shift register, low bit plane.
    pub lsb_shift_reg: u8,
    /// Background pattern shift register, high bit plane.
    pub msb_shift_reg: u8,
    /// The 32-byte palette table.
    pub palette_table: Vec<u8>,
    /// 2-bit palette selector latched from the attribute byte.
    pub current_palette: u8,
    /// Tile index latched from the nametable fetch.
    pub current_tile_index: u8,
}

/// The mathematical view of [`PPUData`]: the byte arrays become sequences.
#[verifier::ext_equal]
pub struct PpuView {
    pub cycle: u16,
    pub scanline: u16,
    pub vertical_blanking: bool,
    pub nametables: Seq<u8>,
    pub control_reg: ControlReg,
    pub mask_reg: MaskReg,
    pub second_byte: bool,
    pub vram_address: VRAMAddress,
    pub temp_vram_address: VRAMAddress,
    pub fine_x: u8,
    pub data_buffer: u8,
    pub lsb_shift_reg: u8,
    pub msb_shift_reg: u8,
    pub palette_table: Seq<u8>,
    pub current_palette: u8,
    pub current_tile_index: u8,
}

impl View for PPUData {
    type V = PpuView;

    open spec fn view(&self) -> PpuView {
        PpuView {
            cycle: self.cycle,
            scanline: self.scanline,
            vertical_blanking: self.vertical_blanking,
            nametables: self.nametables@,
            control_reg: self.control_reg,
            mask_reg: self.mask_reg,
            second_byte: self.second_byte,
            vram_address: self.vram_address,
            temp_vram_address: self.temp_vram_address,
            fine_x: self.fine_x,
            data_buffer: self.data_buffer,
            lsb_shift_reg: self.lsb_shift_reg,
            msb_shift_reg: self.msb_shift_reg,
            palette_table: self.palette_table@,
            current_palette: self.current_palette,
            current_tile_index: self.current_tile_index,
        }
    }
}

impl PpuView {
    /// Every counter inside its range, both scroll registers well formed,
    /// the byte arrays at their hardware sizes.
    pub open spec fn wf(self) -> bool {
        &&& self.cycle <= 340
        &&& self.scanline <= 261
        &&& self.nametables.len() == 2048
        &&& self.palette_table.len() == 32
        &&& self.vram_address.wf()
        &&& self.temp_vram_address.wf()
        &&& self.fine_x < 8
        &&& self.current_palette < 4
    }
}

impl PPUData {
    /// Power-up state: position `(0, 0)`, all registers and memories zero.
    pub fn new() -> (r: PPUData)
        ensures
            r@ == PPUData::spec_new(),
            r@.wf(),
    {
        let mut nametables: Vec<u8> = Vec::new();
        let mut i: usize = 0;
        while i < 2048
            invariant
                i <= 2048,
                nametables@ == Seq::new(i as nat, |j: int| 0u8),
            decreases 2048 - i,
        {
            nametables.push(0);
            i += 1;
            proof {
                assert(nametables@ =~= Seq::new(i as nat, |j: int| 0u8));
            }
        }
        let mut palette_table: Vec<u8> = Vec::new();
        let mut i: usize = 0;
        while i < 32
            invariant
                i <= 32,
                palette_table@ == Seq::new(i as nat, |j: int| 0u8),
            decreases 32 - i,
        {
            palette_table.push(0);
            i += 1;
            proof {
                assert(palette_table@ =~= Seq::new(i as nat, |j: int| 0u8));
            }
        }
        let r = PPUData {
            cycle: 0,
            scanline: 0,
            vertical_blanking: false,
            nametables,
            control_reg: ControlReg::new(),
            mask_reg: MaskReg::new(),
            second_byte: false,
            vram_address: VRAMAddress::new(),
            temp_vram_address: VRAMAddress::new(),
            fine_x: 0,
            data_buffer: 0,
            lsb_shift_reg: 0,
            msb_shift_reg: 0,
            palette_table,
            current_palette: 0,
            current_tile_index: 0,
        };
        proof {
            assert(r@ =~= PPUData::spec_new());
        }
        r
    }

    /// The power-up view.
    pub open spec fn spec_new() -> PpuView {
        PpuView {
            cycle: 0,
            scanline: 0,
            vertical_blanking: false,
            nametables: Seq::new(2048, |j: int| 0u8),
            control_reg: ControlReg::spec_from_byte(0),
            mask_reg: MaskReg::spec_from_byte(0),
            second_byte: false,
            vram_address: VRAMAddress {
                coarse_x: 0,
                coarse_y: 0,
                nametable_x: 0,
                nametable_y: 0,
                fine_y: 0,
            },
            temp_vram_address: VRAMAddress {
                coarse_x: 0,
                coarse_y: 0,
                nametable_x: 0,
                nametable_y: 0,
                fine_y: 0,
            },
            fine_x: 0,
            data_buffer: 0,
            lsb_shift_reg: 0,
            msb_shift_reg: 0,
            palette_table: Seq::new(32, |j: int| 0u8),
            current_palette: 0,
            current_tile_index: 0,
        }
    }
}

/// Which physical nametable a logical nametable index `0..4` lands on:
/// vertical mirroring folds left/right pairs, horizontal top/bottom pairs.
pub open spec fn spec_mirror_nametable(m: MirroringMode, logical: int) -> int {
    match m {
        MirroringMode::Vertical => logical % 2,
        MirroringMode::Horizontal => logical / 2,
    }
}

/// Position of a palette access inside the 32-byte table: index modulo 32,
/// with `0x10/0x14/0x18/0x1C` aliased down to `0x00/0x04/0x08/0x0C`.
pub open spec fn spec_palette_index(off: int) -> int {
    let o = off % 32;
    if o >= 16 && o % 4 == 0 {
        o - 16
    } else {
        o
    }
}

impl EmuView {
    /// The byte the PPU bus yields at `addr`: pattern tables from CHR-ROM,
    /// nametables under the cartridge mirroring (with `0x3000-0x3EFF`
    /// repeating them), the palette table above `0x3F00` with its aliasing.
    /// The address wraps to 14 bits.
    #[verifier::opaque]
    pub open spec fn ppu_mem_byte(self, addr: u16) -> u8 {
        let a = addr as int % 0x4000;
        if a < 0x2000 {
            self.chr[a]
        } else if a < 0x3F00 {
            let rel = (a - 0x2000) % 0x1000;
            let logical = rel / 0x400;
            let off = rel % 0x400;
            self.ppu.nametables[spec_mirror_nametable(self.mirroring, logical) * 0x400 + off]
        } else {
            self.ppu.palette_table[spec_palette_index(a)]
        }
    }

    /// What a PPU bus write of `val` to `addr` does to the machine: CHR-ROM
    /// rejects it (dropped), nametables and palette take it under the same
    /// decoding as reads.
    #[verifier::opaque]
    pub open spec fn ppu_mem_written(self, addr: u16, val: u8) -> EmuView {
        let a = addr as int % 0x4000;
        if a < 0x2000 {
            self
        } else if a < 0x3F00 {
            let rel = (a - 0x2000) % 0x1000;
            let logical = rel / 0x400;
            let off = rel % 0x400;
            let idx = spec_mirror_nametable(self.mirroring, logical) * 0x400 + off;
            EmuView {
                ppu: PpuView { nametables: self.ppu.nametables.update(idx, val), ..self.ppu },
                ..self
            }
        } else {
            EmuView {
                ppu: PpuView {
                    palette_table: self.ppu.palette_table.update(spec_palette_index(a), val),
                    ..self.ppu
                },
                ..self
            }
        }
    }

    /// The VRAM address `v` after one PPUDATA access: stepped by 1 or 32 as
    /// PPUCTRL selects, wrapping in 15 bits.
    pub open spec fn vram_stepped(self) -> VRAMAddress {
        let inc: int = if self.ppu.control_reg.vram_increment {
            32
        } else {
            1
        };
        VRAMAddress::spec_from_bits(((self.ppu.vram_address.spec_bits() + inc) % 0x8000) as u16)
    }

    /// What a CPU read of PPU register `reg` returns and does.  PPUSTATUS
    /// reports VBlank in bit 7, then clears it and the write toggle.
    /// PPUDATA returns the buffered byte (palette reads bypass the buffer
    /// but refill it from the nametable mirror underneath) and steps `v`.
    /// Every other register reads as 0 with no effect.
    #[verifier::opaque]
    pub open spec fn ppu_reg_read(self, reg: u8) -> (u8, EmuView) {
        if reg == 2 {
            let r: u8 = if self.ppu.vertical_blanking {
                128
            } else {
                0
            };
            (
                r,
                EmuView {
                    ppu: PpuView { vertical_blanking: false, second_byte: false, ..self.ppu },
                    ..self
                },
            )
        } else if reg == 7 {
            let a = (self.ppu.vram_address.spec_bits() % 0x4000) as u16;
            let mem = self.ppu_mem_byte(a);
            let r = if a >= 0x3F00 {
                mem
            } else {
                self.ppu.data_buffer
            };
            let buf = if a >= 0x3F00 {
                self.ppu_mem_byte((a - 0x1000) as u16)
            } else {
                mem
            };
            (
                r,
                EmuView {
                    ppu: PpuView { vram_address: self.vram_stepped(), data_buffer: buf, ..self.ppu },
                    ..self
                },
            )
        } else {
            (0u8, self)
        }
    }

    /// What a CPU write of `val` to PPU register `reg` does.  PPUCTRL also
    /// loads the nametable bits of `t`; PPUSCROLL and PPUADDR fill `t` in
    /// two writes under the shared toggle `w`, PPUADDR's second write
    /// copying `t` into `v`; PPUDATA writes through the PPU bus and steps
    /// `v`.  PPUSTATUS and the OAM stubs take no effect.
    #[verifier::opaque]
    pub open spec fn ppu_reg_written(self, reg: u8, val: u8) -> EmuView {
        if reg == 0 {
            let c = ControlReg::spec_from_byte(val);
            EmuView {
                ppu: PpuView {
                    control_reg: c,
                    temp_vram_address: VRAMAddress {
                        nametable_x: if c.nametable_x {
                            1
                        } else {
                            0
                        },
                        nametable_y: if c.nametable_y {
                            1
                        } else {
                            0
                        },
                        ..self.ppu.temp_vram_address
                    },
                    ..self.ppu
                },
                ..self
            }
        } else if reg == 1 {
            EmuView { ppu: PpuView { mask_reg: MaskReg::spec_from_byte(val), ..self.ppu }, ..self }
        } else if reg == 5 {
            if !self.ppu.second_byte {
                EmuView {
                    ppu: PpuView {
                        temp_vram_address: VRAMAddress {
                            coarse_x: (val / 8) as u8,
                            ..self.ppu.temp_vram_address
                        },
                        fine_x: (val % 8) as u8,
                        second_byte: true,
                        ..self.ppu
                    },
                    ..self
                }
            } else {
                EmuView {
                    ppu: PpuView {
                        temp_vram_address: VRAMAddress {
                            coarse_y: (val / 8) as u8,
                            fine_y: (val % 8) as u8,
                            ..self.ppu.temp_vram_address
                        },
                        second_byte: false,
                        ..self.ppu
                    },
                    ..self
                }
            }
        } else if reg == 6 {
            if !self.ppu.second_byte {
                let t = VRAMAddress::spec_from_bits(
                    ((val as int % 64) * 256 + self.ppu.temp_vram_address.spec_bits() as int
                        % 256) as u16,
                );
                EmuView {
                    ppu: PpuView { temp_vram_address: t, second_byte: true, ..self.ppu },
                    ..self
                }
            } else {
                let t = VRAMAddress::spec_from_bits(
                    ((self.ppu.temp_vram_address.spec_bits() as int / 256) * 256
                        + val as int) as u16,
                );
                EmuView {
                    ppu: PpuView {
                        temp_vram_address: t,
                        vram_address: t,
                        second_byte: false,
                        ..self.ppu
                    },
                    ..self
                }
            }
        } else if reg == 7 {
            let a = (self.ppu.vram_address.spec_bits() % 0x4000) as u16;
            let s2 = self.ppu_mem_written(a, val);
            EmuView { ppu: PpuView { vram_address: self.vram_stepped(), ..s2.ppu }, ..s2 }
        } else {
            self
        }
    }
}

impl Emulator {
    /// Reads one byte over the PPU bus (pattern tables, nametables with
    /// mirroring, palette).
    pub fn ppu_read(&self, addr: u16) -> (r: u8)
        requires
            self.wf(),
        ensures
            r == self@.ppu_mem_byte(addr),
    {
        proof {
            reveal(EmuView::ppu_mem_byte);
        }
        let a = addr % 0x4000;
        if a < 0x2000 {
            match self.mapper.read_ppu(a) {
                Ok(v) => v,
                Err(_) => 0,
            }
        } else if a < 0x3F00 {
            let rel = (a - 0x2000) % 0x1000;
            let logical = rel / 0x400;
            let off = rel % 0x400;
            let phys: u16 = match self.mapper.mirroring() {
                MirroringMode::Vertical => logical % 2,
                MirroringMode::Horizontal => logical / 2,
            };
            self.ppu.nametables[(phys * 0x400 + off) as usize]
        } else {
            let o = a % 32;
            let idx = if o >= 16 && o % 4 == 0 {
                o - 16
            } else {
                o
            };
            self.ppu.palette_table[idx as usize]
        }
    }

    /// Writes one byte over the PPU bus; CHR-ROM drops it.
    pub fn ppu_write(&mut self, addr: u16, val: u8)
        requires
            old(self).wf(),
        ensures
            final(self).wf(),
            final(self)@ == old(self)@.ppu_mem_written(addr, val),
    {
        proof {
            reveal(EmuView::ppu_mem_written);
        }
        let a = addr % 0x4000;
        if a < 0x2000 {
            // CHR-ROM rejects writes; the bus drops them.
        } else if a < 0x3F00 {
            let rel = (a - 0x2000) % 0x1000;
            let logical = rel / 0x400;
            let off = rel % 0x400;
            let phys: u16 = match self.mapper.mirroring() {
                MirroringMode::Vertical => logical % 2,
                MirroringMode::Horizontal => logical / 2,
            };
            self.ppu.nametables[(phys * 0x400 + off) as usize] = val;
            proof {
                reveal(EmuView::ppu_mem_written);
                assert(self@ =~= old(self)@.ppu_mem_written(addr, val));
            }
        } else {
            let o = a % 32;
            let idx = if o >= 16 && o % 4 == 0 {
                o - 16
            } else {
                o
            };
            self.ppu.palette_table[idx as usize] = val;
            proof {
                reveal(EmuView::ppu_mem_written);
                assert(self@ =~= old(self)@.ppu_mem_written(addr, val));
            }
        }
    }

    /// PPUSTATUS read: VBlank in bit 7, then the flag and the write toggle
    /// clear.
    fn ppu_status_read(&mut self) -> (r: u8)
        requires
            old(self).wf(),
        ensures
            final(self).wf(),
            r == old(self)@.ppu_reg_read(2).0,
            final(self)@ == old(self)@.ppu_reg_read(2).1,
    {
        let r: u8 = if self.ppu.vertical_blanking {
            128
        } else {
            0
        };
        self.ppu.vertical_blanking = false;
        self.ppu.second_byte = false;
        proof {
            reveal(EmuView::ppu_reg_read);
            assert(self@ =~= old(self)@.ppu_reg_read(2).1);
        }
        r
    }

    /// PPUDATA read: the buffered byte (palette bypasses the buffer but
    /// refills it from the nametable mirror underneath), then `v` steps.
    fn ppu_data_read(&mut self) -> (r: u8)
        requires
            old(self).wf(),
        ensures
            final(self).wf(),
            r == old(self)@.ppu_reg_read(7).0,
            final(self)@ == old(self)@.ppu_reg_read(7).1,
    {
        let v_bits = self.ppu.vram_address.to_bits();
        let a = v_bits % 0x4000;
        let mem = self.ppu_read(a);
        let r: u8;
        if a >= 0x3F00 {
            r = mem;
            let buf = self.ppu_read(a - 0x1000);
            self.ppu.data_buffer = buf;
        } else {
            r = self.ppu.data_buffer;
            self.ppu.data_buffer = mem;
        }
        let inc: u16 = if self.ppu.control_reg.vram_increment {
            32
        } else {
            1
        };
        self.ppu.vram_address = VRAMAddress::from_bits((v_bits + inc) % 0x8000);
        proof {
            reveal(EmuView::ppu_reg_read);
            reveal(EmuView::ppu_mem_byte);
            assert(self@ =~= old(self)@.ppu_reg_read(7).1);
        }
        r
    }

    /// CPU-side read of PPU register `reg`.
    pub fn ppu_read_reg(&mut self, reg: u8) -> (r: u8)
        requires
            old(self).wf(),
            reg < 8,
        ensures
            final(self).wf(),
            r == old(self)@.ppu_reg_read(reg).0,
            final(self)@ == old(self)@.ppu_reg_read(reg).1,
    {
        if reg == 2 {
            self.ppu_status_read()
        } else if reg == 7 {
            self.ppu_data_read()
        } else {
            proof {
                reveal(EmuView::ppu_reg_read);
            }
            0
        }
    }

    /// PPUCTRL write: the byte splits into its bits and the nametable
    /// selects copy into `t`.
    fn ppu_ctrl_write(&mut self, val: u8)
        requires
            old(self).wf(),
        ensures
            final(self).wf(),
            final(self)@ == old(self)@.ppu_reg_written(0, val),
    {
        let c = ControlReg::from_byte(val);
        self.ppu.control_reg = c;
        self.ppu.temp_vram_address.nametable_x = if c.nametable_x {
            1
        } else {
            0
        };
        self.ppu.temp_vram_address.nametable_y = if c.nametable_y {
            1
        } else {
            0
        };
        proof {
            reveal(EmuView::ppu_reg_written);
            assert(self@ =~= old(self)@.ppu_reg_written(0, val));
        }
    }

    /// PPUSCROLL write: coarse X and fine X on the first write, coarse Y and
    /// fine Y on the second, under the toggle `w`.
    fn ppu_scroll_write(&mut self, val: u8)
        requires
            old(self).wf(),
        ensures
            final(self).wf(),
            final(self)@ == old(self)@.ppu_reg_written(5, val),
    {
        if !self.ppu.second_byte {
            self.ppu.temp_vram_address.coarse_x = val / 8;
            self.ppu.fine_x = val % 8;
            self.ppu.second_byte = true;
        } else {
            self.ppu.temp_vram_address.coarse_y = val / 8;
            self.ppu.temp_vram_address.fine_y = val % 8;
            self.ppu.second_byte = false;
        }
        proof {
            reveal(EmuView::ppu_reg_written);
            assert(self@ =~= old(self)@.ppu_reg_written(5, val));
        }
    }

    /// PPUADDR write: the six high bits of `t` first (bit 14 cleared), then
    /// the low byte, which also copies `t` into `v`.
    fn ppu_addr_write(&mut self, val: u8)
        requires
            old(self).wf(),
        ensures
            final(self).wf(),
            final(self)@ == old(self)@.ppu_reg_written(6, val),
    {
        let t_bits = self.ppu.temp_vram_address.to_bits();
        if !self.ppu.second_byte {
            self.ppu.temp_vram_address = VRAMAddress::from_bits(
                (val as u16 % 64) * 256 + t_bits % 256,
            );
            self.ppu.second_byte = true;
        } else {
            let t = VRAMAddress::from_bits((t_bits / 256) * 256 + val as u16);
            self.ppu.temp_vram_address = t;
            self.ppu.vram_address = t;
            self.ppu.second_byte = false;
        }
        proof {
            reveal(EmuView::ppu_reg_written);
            assert(self@ =~= old(self)@.ppu_reg_written(6, val));
        }
    }

    /// PPUDATA write: through the PPU bus at `v`, then `v` steps.
    fn ppu_data_write(&mut self, val: u8)
        requires
            old(self).wf(),
        ensures
            final(self).wf(),
            final(self)@ == old(self)@.ppu_reg_written(7, val),
    {
        let v_bits = self.ppu.vram_address.to_bits();
        let a = v_bits % 0x4000;
        self.ppu_write(a, val);
        let inc: u16 = if self.ppu.control_reg.vram_increment {
            32
        } else {
            1
        };
        self.ppu.vram_address = VRAMAddress::from_bits((v_bits + inc) % 0x8000);
        proof {
            reveal(EmuView::ppu_reg_written);
            reveal(EmuView::ppu_mem_written);
            assert(self@ =~= old(self)@.ppu_reg_written(7, val));
        }
    }

    /// CPU-side write of `val` to PPU register `reg`.
    pub fn ppu_write_reg(&mut self, reg: u8, val: u8)
        requires
            old(self).wf(),
            reg < 8,
        ensures
            final(self).wf(),
            final(self)@ == old(self)@.ppu_reg_written(reg, val),
    {
        if reg == 0 {
            self.ppu_ctrl_write(val);
        } else if reg == 1 {
            self.ppu.mask_reg = MaskReg::from_byte(val);
            proof {
                reveal(EmuView::ppu_reg_written);
                assert(self@ =~= old(self)@.ppu_reg_written(reg, val));
            }
        } else if reg == 5 {
            self.ppu_scroll_write(val);
        } else if reg == 6 {
            self.ppu_addr_write(val);
        } else if reg == 7 {
            self.ppu_data_write(val);
        } else {
            // PPUSTATUS is read-only; OAMADDR and OAMDATA are stubbed.
            proof {
                reveal(EmuView::ppu_reg_written);
            }
        }
    }
}


/// Coarse X stepped by one tile: wraps at 31 and toggles the horizontal
/// nametable.
pub open spec fn spec_coarse_x_incremented(v: VRAMAddress) -> VRAMAddress {
    if v.coarse_x == 31 {
        VRAMAddress { coarse_x: 0, nametable_x: (1 - v.nametable_x) as u8, ..v }
    } else {
        VRAMAddress { coarse_x: (v.coarse_x + 1) as u8, ..v }
    }
}

/// Fine Y stepped by one line: on overflow it resets and coarse Y steps,
/// toggling the vertical nametable at 29 and wrapping silently at 31.
pub open spec fn spec_fine_y_incremented(v: VRAMAddress) -> VRAMAddress {
    if v.fine_y < 7 {
        VRAMAddress { fine_y: (v.fine_y + 1) as u8, ..v }
    } else if v.coarse_y == 29 {
        VRAMAddress { fine_y: 0, coarse_y: 0, nametable_y: (1 - v.nametable_y) as u8, ..v }
    } else if v.coarse_y == 31 {
        VRAMAddress { fine_y: 0, coarse_y: 0, ..v }
    } else {
        VRAMAddress { fine_y: 0, coarse_y: (v.coarse_y + 1) as u8, ..v }
    }
}

/// The horizontal bits of `t` copied into `v`.
pub open spec fn spec_x_transferred(v: VRAMAddress, t: VRAMAddress) -> VRAMAddress {
    VRAMAddress { coarse_x: t.coarse_x, nametable_x: t.nametable_x, ..v }
}

/// The vertical bits of `t` copied into `v`.
pub open spec fn spec_y_transferred(v: VRAMAddress, t: VRAMAddress) -> VRAMAddress {
    VRAMAddress { coarse_y: t.coarse_y, nametable_y: t.nametable_y, fine_y: t.fine_y, ..v }
}

/// The `(dot, scanline)` position one tick later, and whether the frame
/// wrapped: the dot steps to 340 and resets, the scanline steps to 261 and
/// resets, and the reset of both together completes the frame.
pub open spec fn spec_position_advanced(dot: u16, sl: u16) -> (u16, u16, bool) {
    if dot < 340 {
        (((dot + 1) as u16), sl, false)
    } else if sl < 261 {
        (0u16, ((sl + 1) as u16), false)
    } else {
        (0u16, 0u16, true)
    }
}

/// Steps the `(dot, scanline)` position by one tick.
fn position_advanced(dot: u16, sl: u16) -> (r: (u16, u16, bool))
    requires
        dot <= 340,
        sl <= 261,
    ensures
        r == spec_position_advanced(dot, sl),
{
    if dot < 340 {
        (dot + 1, sl, false)
    } else if sl < 261 {
        (0, sl + 1, false)
    } else {
        (0, 0, true)
    }
}

impl EmuView {
    /// `v` after the horizontal increment — a no-op unless rendering is on.
    pub open spec fn vram_x_stepped(self) -> EmuView {
        if self.ppu.mask_reg.spec_rendering() {
            EmuView {
                ppu: PpuView {
                    vram_address: spec_coarse_x_incremented(self.ppu.vram_address),
                    ..self.ppu
                },
                ..self
            }
        } else {
            self
        }
    }

    /// `v` after the vertical increment — a no-op unless rendering is on.
    pub open spec fn vram_y_stepped(self) -> EmuView {
        if self.ppu.mask_reg.spec_rendering() {
            EmuView {
                ppu: PpuView {
                    vram_address: spec_fine_y_incremented(self.ppu.vram_address),
                    ..self.ppu
                },
                ..self
            }
        } else {
            self
        }
    }

    /// `v` after the horizontal transfer — a no-op unless rendering is on.
    pub open spec fn vram_x_transferred(self) -> EmuView {
        if self.ppu.mask_reg.spec_rendering() {
            EmuView {
                ppu: PpuView {
                    vram_address: spec_x_transferred(
                        self.ppu.vram_address,
                        self.ppu.temp_vram_address,
                    ),
                    ..self.ppu
                },
                ..self
            }
        } else {
            self
        }
    }

    /// `v` after the vertical transfer — a no-op unless rendering is on.
    pub open spec fn vram_y_transferred(self) -> EmuView {
        if self.ppu.mask_reg.spec_rendering() {
            EmuView {
                ppu: PpuView {
                    vram_address: spec_y_transferred(
                        self.ppu.vram_address,
                        self.ppu.temp_vram_address,
                    ),
                    ..self.ppu
                },
                ..self
            }
        } else {
            self
        }
    }

    /// One background tile fetch at the current `v`: the tile index from the
    /// nametable, its two pattern bytes for the current fine Y into the
    /// shift registers, and the 2-bit palette selector from the attribute
    /// byte.
    #[verifier::opaque]
    pub open spec fn background_fetched(self) -> EmuView {
        let v = self.ppu.vram_address;
        let tile_addr = (0x2000 + self.ppu.vram_address.spec_bits() as int % 4096) as u16;
        let tile = self.ppu_mem_byte(tile_addr);
        let base = ((if self.ppu.control_reg.background_pattern_table_address {
            0x1000int
        } else {
            0int
        }) + tile as int * 16 + v.fine_y as int) as u16;
        let lsb = self.ppu_mem_byte(base);
        let msb = self.ppu_mem_byte((base + 8) as u16);
        let attrib_addr = (0x23C0 + 1024 * v.nametable_x as int + 2048 * v.nametable_y as int + 8
            * (v.coarse_y as int / 4) + v.coarse_x as int / 4) as u16;
        let attrib = self.ppu_mem_byte(attrib_addr);
        let divisor: int = if v.coarse_y % 4 >= 2 {
            if v.coarse_x % 4 >= 2 {
                64
            } else {
                16
            }
        } else {
            if v.coarse_x % 4 >= 2 {
                4
            } else {
                1
            }
        };
        let pal = ((attrib as int / divisor) % 4) as u8;
        EmuView {
            ppu: PpuView {
                current_tile_index: tile,
                lsb_shift_reg: lsb,
                msb_shift_reg: msb,
                current_palette: pal,
                ..self.ppu
            },
            ..self
        }
    }

    /// One visible dot: the two shift-register MSBs pick a 2-bit color, the
    /// palette selector widens it to a palette-table index whose entry
    /// (6 bits) picks the RGB triple written at the dot's framebuffer
    /// position; then both shift registers move left.
    #[verifier::opaque]
    pub open spec fn pixel_emitted(self) -> EmuView {
        let x = self.ppu.cycle as int;
        let y = self.ppu.scanline as int;
        let color_idx = (self.ppu.msb_shift_reg as int / 128) * 2 + self.ppu.lsb_shift_reg as int
            / 128;
        let pal_idx = self.ppu.current_palette as int * 4 + color_idx;
        let entry = (self.ppu.palette_table[pal_idx] % 64) as u8;
        let rgb = crate::palette::spec_master_palette(entry);
        let base = 3 * (y * 256 + x);
        EmuView {
            ppu: PpuView {
                msb_shift_reg: ((self.ppu.msb_shift_reg as int * 2) % 256) as u8,
                lsb_shift_reg: ((self.ppu.lsb_shift_reg as int * 2) % 256) as u8,
                ..self.ppu
            },
            fb: self.fb.update(base, rgb.0).update(base + 1, rgb.1).update(base + 2, rgb.2),
            ..self
        }
    }

    /// The VBlank stage of a dot at position `(sl, dot)`: the flag sets at
    /// `(241, 1)` — with the NMI entry when enabled — and clears when the
    /// new frame begins at `(0, 0)`, so it stays observable across the frame
    /// boundary.
    pub open spec fn vblank_stage(self, dot: u16, sl: u16) -> EmuView {
        if sl == 241 && dot == 1 {
            let sv = EmuView { ppu: PpuView { vertical_blanking: true, ..self.ppu }, ..self };
            if self.ppu.control_reg.generate_nmi {
                sv.nmi_entered()
            } else {
                sv
            }
        } else if sl == 0 && dot == 0 {
            EmuView { ppu: PpuView { vertical_blanking: false, ..self.ppu }, ..self }
        } else {
            self
        }
    }

    /// The background stage of a visible dot: the vertical increment at
    /// dot 256; below 256 a tile fetch after the horizontal increment on
    /// every eighth dot, then the pixel emission.
    pub open spec fn render_stage(self, dot: u16, sl: u16) -> EmuView {
        if sl < 240 {
            if dot == 256 {
                self.vram_y_stepped()
            } else if dot < 256 {
                let sa = if dot != 0 && dot % 8 == 0 {
                    self.vram_x_stepped().background_fetched()
                } else {
                    self
                };
                sa.pixel_emitted()
            } else {
                self
            }
        } else {
            self
        }
    }

    /// The scroll-transfer stage: horizontal at dot 257, vertical on the
    /// pre-render line at dots 280-304.
    pub open spec fn transfer_stage(self, dot: u16, sl: u16) -> EmuView {
        let s1 = if dot == 257 {
            self.vram_x_transferred()
        } else {
            self
        };
        if sl == 261 && 280 <= dot <= 304 {
            s1.vram_y_transferred()
        } else {
            s1
        }
    }

    /// The position advance: `(dot, scanline)` steps modulo `(341, 262)`,
    /// marking the frame complete on wrap-around.
    pub open spec fn advance_stage(self, dot: u16, sl: u16) -> EmuView {
        let p = spec_position_advanced(dot, sl);
        EmuView {
            ppu: PpuView { cycle: p.0, scanline: p.1, ..self.ppu },
            frame_complete: self.frame_complete || p.2,
            ..self
        }
    }

    /// One PPU dot.  In order: the VBlank edges at `(241, 1)` (set, and NMI
    /// when enabled) and `(261, 1)` (clear); on visible scanlines the
    /// vertical increment at dot 256, or — below dot 256 — a tile fetch
    /// after each horizontal increment on every eighth dot and the pixel
    /// emission; the horizontal transfer at dot 257; the vertical transfer
    /// on the pre-render line at dots 280-304; finally the `(dot, scanline)`
    /// position advances modulo `(341, 262)`, marking the frame complete on
    /// wrap-around.
    pub open spec fn ppu_clocked(self) -> EmuView {
        let dot = self.ppu.cycle;
        let sl = self.ppu.scanline;
        self.vblank_stage(dot, sl).render_stage(dot, sl).transfer_stage(dot, sl).advance_stage(
            dot,
            sl,
        )
    }
}

/// Steps coarse X by one tile.
fn coarse_x_incremented(v: VRAMAddress) -> (r: VRAMAddress)
    requires
        v.wf(),
    ensures
        r == spec_coarse_x_incremented(v),
        r.wf(),
{
    if v.coarse_x == 31 {
        VRAMAddress { coarse_x: 0, nametable_x: 1 - v.nametable_x, ..v }
    } else {
        VRAMAddress { coarse_x: v.coarse_x + 1, ..v }
    }
}

/// Steps fine Y by one line.
fn fine_y_incremented(v: VRAMAddress) -> (r: VRAMAddress)
    requires
        v.wf(),
    ensures
        r == spec_fine_y_incremented(v),
        r.wf(),
{
    if v.fine_y < 7 {
        VRAMAddress { fine_y: v.fine_y + 1, ..v }
    } else if v.coarse_y == 29 {
        VRAMAddress { fine_y: 0, coarse_y: 0, nametable_y: 1 - v.nametable_y, ..v }
    } else if v.coarse_y == 31 {
        VRAMAddress { fine_y: 0, coarse_y: 0, ..v }
    } else {
        VRAMAddress { fine_y: 0, coarse_y: v.coarse_y + 1, ..v }
    }
}

impl Emulator {
    /// Reads the two pattern-table bytes of one tile line: the low bit
    /// plane at `base + fine_y` and the high one eight bytes above.
    fn get_sprite_line(&self, right: bool, idx: u8, fine_y: u8) -> (r: (u8, u8))
        requires
            self.wf(),
            fine_y < 8,
        ensures
            r.0 == self@.ppu_mem_byte(
                ((if right {
                    0x1000int
                } else {
                    0int
                }) + idx as int * 16 + fine_y as int) as u16,
            ),
            r.1 == self@.ppu_mem_byte(
                ((if right {
                    0x1000int
                } else {
                    0int
                }) + idx as int * 16 + fine_y as int + 8) as u16,
            ),
    {
        let pattern_table_addr: u16 = if right {
            0x1000
        } else {
            0
        };
        let base_addr = pattern_table_addr + idx as u16 * 16 + fine_y as u16;
        (self.ppu_read(base_addr), self.ppu_read(base_addr + 8))
    }

    /// The horizontal increment of `v`, active only while rendering.
    fn increment_vram_x(&mut self)
        requires
            old(self).wf(),
        ensures
            final(self).wf(),
            final(self)@ == old(self)@.vram_x_stepped(),
    {
        if !(self.ppu.mask_reg.show_background || self.ppu.mask_reg.show_sprites) {
            return ;
        }
        self.ppu.vram_address = coarse_x_incremented(self.ppu.vram_address);
    }

    /// The vertical increment of `v`, active only while rendering.
    fn increment_vram_y(&mut self)
        requires
            old(self).wf(),
        ensures
            final(self).wf(),
            final(self)@ == old(self)@.vram_y_stepped(),
    {
        if !(self.ppu.mask_reg.show_background || self.ppu.mask_reg.show_sprites) {
            return ;
        }
        self.ppu.vram_address = fine_y_incremented(self.ppu.vram_address);
    }

    /// The horizontal transfer from `t` to `v`, active only while rendering.
    fn transfer_vram_x(&mut self)
        requires
            old(self).wf(),
        ensures
            final(self).wf(),
            final(self)@ == old(self)@.vram_x_transferred(),
    {
        if !(self.ppu.mask_reg.show_background || self.ppu.mask_reg.show_sprites) {
            return ;
        }
        self.ppu.vram_address.coarse_x = self.ppu.temp_vram_address.coarse_x;
        self.ppu.vram_address.nametable_x = self.ppu.temp_vram_address.nametable_x;
    }

    /// The vertical transfer from `t` to `v`, active only while rendering.
    fn transfer_vram_y(&mut self)
        requires
            old(self).wf(),
        ensures
            final(self).wf(),
            final(self)@ == old(self)@.vram_y_transferred(),
    {
        if !(self.ppu.mask_reg.show_background || self.ppu.mask_reg.show_sprites) {
            return ;
        }
        self.ppu.vram_address.coarse_y = self.ppu.temp_vram_address.coarse_y;
        self.ppu.vram_address.nametable_y = self.ppu.temp_vram_address.nametable_y;
        self.ppu.vram_address.fine_y = self.ppu.temp_vram_address.fine_y;
    }

    /// One background tile fetch at the current `v`.
    fn fetch_background_tile(&mut self)
        requires
            old(self).wf(),
        ensures
            final(self).wf(),
            final(self)@ == old(self)@.background_fetched(),
            final(self).ppu.cycle == old(self).ppu.cycle,
            final(self).ppu.scanline == old(self).ppu.scanline,
    {
        let v_bits = self.ppu.vram_address.to_bits();
        let tile_addr = 0x2000 + v_bits % 4096;
        let tile = self.ppu_read(tile_addr);

        let (lsb, msb) = self.get_sprite_line(
            self.ppu.control_reg.background_pattern_table_address,
            tile,
            self.ppu.vram_address.fine_y,
        );

        let v = self.ppu.vram_address;
        let attrib_addr = 0x23C0 + 1024 * v.nametable_x as u16 + 2048 * v.nametable_y as u16 + 8
            * (v.coarse_y as u16 / 4) + v.coarse_x as u16 / 4;
        let attrib = self.ppu_read(attrib_addr);
        let divisor: u8 = if v.coarse_y % 4 >= 2 {
            if v.coarse_x % 4 >= 2 {
                64
            } else {
                16
            }
        } else {
            if v.coarse_x % 4 >= 2 {
                4
            } else {
                1
            }
        };
        let pal = (attrib / divisor) % 4;

        self.ppu.current_tile_index = tile;
        self.ppu.lsb_shift_reg = lsb;
        self.ppu.msb_shift_reg = msb;
        self.ppu.current_palette = pal;
        proof {
            reveal(EmuView::background_fetched);
            assert(self@ =~= old(self)@.background_fetched());
        }
    }

    /// Writes one RGB pixel into the framebuffer.
    fn draw_pixel(&mut self, x: u16, y: u16, r: u8, g: u8, b: u8)
        requires
            old(self).wf(),
            x < 256,
            y < 240,
        ensures
            final(self).wf(),
            final(self)@ == (EmuView {
                fb: old(self)@.fb.update(3 * (y as int * 256 + x as int), r).update(
                    3 * (y as int * 256 + x as int) + 1,
                    g,
                ).update(3 * (y as int * 256 + x as int) + 2, b),
                ..old(self)@
            }),
    {
        let base = 3 * (y as usize * 256 + x as usize);
        self.framebuffer[base] = r;
        self.framebuffer[base + 1] = g;
        self.framebuffer[base + 2] = b;
        proof {
            assert(self@ =~= (EmuView {
                fb: old(self)@.fb.update(3 * (y as int * 256 + x as int), r).update(
                    3 * (y as int * 256 + x as int) + 1,
                    g,
                ).update(3 * (y as int * 256 + x as int) + 2, b),
                ..old(self)@
            }));
        }
    }

    /// Emits the pixel for the current dot and moves the shift registers.
    fn emit_pixel(&mut self)
        requires
            old(self).wf(),
            old(self).ppu.scanline < 240,
            old(self).ppu.cycle < 256,
        ensures
            final(self).wf(),
            final(self)@ == old(self)@.pixel_emitted(),
            final(self).ppu.cycle == old(self).ppu.cycle,
            final(self).ppu.scanline == old(self).ppu.scanline,
    {
        let color_idx: u8 = (self.ppu.msb_shift_reg / 128) * 2 + self.ppu.lsb_shift_reg / 128;
        let pal_idx: u8 = self.ppu.current_palette * 4 + color_idx;
        let entry = self.ppu.palette_table[pal_idx as usize] % 64;
        let (r, g, b) = crate::palette::master_palette(entry);
        let x = self.ppu.cycle;
        let y = self.ppu.scanline;
        self.ppu.msb_shift_reg = ((self.ppu.msb_shift_reg as u16 * 2) % 256) as u8;
        self.ppu.lsb_shift_reg = ((self.ppu.lsb_shift_reg as u16 * 2) % 256) as u8;
        self.draw_pixel(x, y, r, g, b);
        proof {
            reveal(EmuView::pixel_emitted);
            assert(self@ =~= old(self)@.pixel_emitted());
        }
    }

    /// The VBlank stage of one dot: flag edges and the NMI entry.
    fn vblank_tick(&mut self, dot: u16, sl: u16)
        requires
            old(self).wf(),
        ensures
            final(self).wf(),
            final(self)@ == old(self)@.vblank_stage(dot, sl),
            final(self).ppu.cycle == old(self).ppu.cycle,
            final(self).ppu.scanline == old(self).ppu.scanline,
    {
        if sl == 241 && dot == 1 {
            self.ppu.vertical_blanking = true;
            proof {
                assert(self@ =~= (EmuView {
                    ppu: PpuView { vertical_blanking: true, ..old(self)@.ppu },
                    ..old(self)@
                }));
            }
            if self.ppu.control_reg.generate_nmi {
                self.nmi();
            }
        } else if sl == 0 && dot == 0 {
            self.ppu.vertical_blanking = false;
            proof {
                assert(self@ =~= (EmuView {
                    ppu: PpuView { vertical_blanking: false, ..old(self)@.ppu },
                    ..old(self)@
                }));
            }
        }
    }

    /// The background stage of one dot on a visible scanline.
    fn render_tick(&mut self, dot: u16, sl: u16)
        requires
            old(self).wf(),
            old(self).ppu.cycle == dot,
            old(self).ppu.scanline == sl,
        ensures
            final(self).wf(),
            final(self)@ == old(self)@.render_stage(dot, sl),
            final(self).ppu.cycle == old(self).ppu.cycle,
            final(self).ppu.scanline == old(self).ppu.scanline,
    {
        if sl < 240 {
            if dot == 256 {
                self.increment_vram_y();
            } else if dot < 256 {
                if dot != 0 && dot % 8 == 0 {
                    self.increment_vram_x();
                    self.fetch_background_tile();
                }
                self.emit_pixel();
            }
        }
    }

    /// The scroll-transfer stage of one dot.
    fn transfer_tick(&mut self, dot: u16, sl: u16)
        requires
            old(self).wf(),
        ensures
            final(self).wf(),
            final(self)@ == old(self)@.transfer_stage(dot, sl),
            final(self).ppu.cycle == old(self).ppu.cycle,
            final(self).ppu.scanline == old(self).ppu.scanline,
    {
        if dot == 257 {
            self.transfer_vram_x();
        }
        if sl == 261 && 280 <= dot && dot <= 304 {
            self.transfer_vram_y();
        }
    }

    /// The position advance of one dot.
    fn advance_tick(&mut self, dot: u16, sl: u16)
        requires
            old(self).wf(),
            old(self).ppu.cycle == dot,
            old(self).ppu.scanline == sl,
        ensures
            final(self).wf(),
            final(self)@ == old(self)@.advance_stage(dot, sl),
    {
        let (nd, ns, wrapped) = position_advanced(dot, sl);
        self.ppu.cycle = nd;
        self.ppu.scanline = ns;
        self.frame_complete = self.frame_complete || wrapped;
    }

    /// One PPU dot: VBlank edges and NMI, the background pipeline on
    /// visible scanlines, the scroll transfers, and the position advance.
    pub fn clock_ppu(&mut self)
        requires
            old(self).wf(),
        ensures
            final(self).wf(),
            final(self)@ == old(self)@.ppu_clocked(),
    {
        let dot = self.ppu.cycle;
        let sl = self.ppu.scanline;
        self.vblank_tick(dot, sl);
        self.render_tick(dot, sl);
        self.transfer_tick(dot, sl);
        self.advance_tick(dot, sl);
    }
}

} // verus!
