//! The machine: CPU registers, internal RAM, PPU, cartridge, and the bus
//! that joins them.
//!
//! Every observable transition of the machine is written out as a spec
//! function on [`EmuView`], the mathematical view of the state; the
//! executable bus operations are proved equal to those transitions.  The bus
//! decodes CPU addresses into internal RAM (mirrored across `0x0000-0x1FFF`),
//! the eight PPU registers (mirrored across `0x2000-0x3FFF`), the APU/IO stub
//! at `0x4000-0x401F`, and the cartridge window above it.

use vstd::prelude::*;

use crate::mapper::Mapper;
use crate::nes::{MirroringMode, NESFile, NesError};
use crate::nrom::NROMMapper;
use crate::ppu::{PPUData, PpuView};
use crate::status::StatusRegister;

verus! {

/// The CPU register file.
#[derive(Clone, Copy, Debug, PartialEq, Eq, Structural)]
pub struct Registers {
    pub a: u8,
    pub x: u8,
    pub y: u8,
    /// Stack pointer; the stack occupies `0x0100 | sp`, growing downward.
    pub sp: u8,
    pub pc: u16,
    pub flags: StatusRegister,
}

/// Cycle bookkeeping between the master clock and the CPU, which executes
/// whole instructions: an instruction's cycles beyond the tick that started
/// it become debt, and the scheduler withholds CPU ticks until it is paid.
#[derive(Clone, Copy, Debug, PartialEq, Eq, Structural)]
pub struct CPUData {
    pub cycle_debt: usize,
}

impl CPUData {
    /// No debt.
    pub fn new() -> (r: CPUData)
        ensures
            r == (CPUData { cycle_debt: 0 }),
    {
        CPUData { cycle_debt: 0 }
    }
}

/// A fatal runtime condition of the machine.
#[derive(Clone, Copy, Debug, PartialEq, Eq, Structural)]
pub enum EmuError {
    /// The CPU fetched an opcode outside the implemented set.
    IllegalOpcode(u8),
}

/// The whole machine.
pub struct Emulator {
    pub regs: Registers,
    /// 2 KiB of internal RAM, mirrored across `0x0000-0x1FFF`.
    pub internal_ram: Vec<u8>,
    pub cpu: CPUData,
    pub ppu: PPUData,
    pub mapper: Mapper,
    /// The rendered frame, 256 x 240 pixels of 3 bytes (R, G, B) each.
    pub framebuffer: Vec<u8>,
    /// Set when the PPU finishes the pre-render line; the driver clears it.
    pub frame_complete: bool,
    /// Master clock phase: the CPU runs on every third PPU dot.
    pub cycle_counter: usize,
    /// How many times the NMI entry sequence has run.
    pub nmi_count: u64,
}

/// The mathematical view of the machine.  The cartridge appears as its two
/// ROM sequences and mirroring; the byte arrays become sequences.
#[verifier::ext_equal]
pub struct EmuView {
    pub regs: Registers,
    pub ram: Seq<u8>,
    pub cpu: CPUData,
    pub ppu: PpuView,
    pub prg: Seq<u8>,
    pub chr: Seq<u8>,
    pub mirroring: MirroringMode,
    pub fb: Seq<u8>,
    pub frame_complete: bool,
    pub cycle_counter: usize,
    pub nmi_count: u64,
}

impl View for Emulator {
    type V = EmuView;

    open spec fn view(&self) -> EmuView {
        EmuView {
            regs: self.regs,
            ram: self.internal_ram@,
            cpu: self.cpu,
            ppu: self.ppu@,
            prg: self.mapper.spec_prg(),
            chr: self.mapper.spec_chr(),
            mirroring: self.mapper.spec_mirroring(),
            fb: self.framebuffer@,
            frame_complete: self.frame_complete,
            cycle_counter: self.cycle_counter,
            nmi_count: self.nmi_count,
        }
    }
}

/// Bytes of the rendered frame: 256 x 240 pixels, 3 bytes each.
pub open spec fn spec_fb_len() -> int {
    256int * 240 * 3
}

impl EmuView {
    /// All memories at their hardware sizes, the PPU well formed, the PRG
    /// bank one of the two NROM sizes.
    pub open spec fn wf(self) -> bool {
        &&& self.ram.len() == 2048
        &&& self.ppu.wf()
        &&& (self.prg.len() == 0x4000 || self.prg.len() == 0x8000)
        &&& self.chr.len() == 0x2000
        &&& self.fb.len() == spec_fb_len()
        &&& self.cycle_counter < 3
    }

    /// What a CPU read of `addr` returns and what it does to the machine.
    /// Only PPU register reads have side effects; an open-bus cartridge read
    /// is softened to 0.
    pub open spec fn bus_read(self, addr: u16) -> (u8, EmuView) {
        if addr < 0x2000 {
            (self.ram[addr as int % 2048], self)
        } else if addr < 0x4000 {
            self.ppu_reg_read((addr % 8) as u8)
        } else if addr < 0x4020 {
            (0u8, self)
        } else if addr >= 0x8000 {
            (self.prg[addr as int % self.prg.len() as int], self)
        } else {
            (0u8, self)
        }
    }

    /// What a CPU write of `val` to `addr` does to the machine.  Writes to
    /// the APU/IO stub and to the cartridge (ROM on NROM) have no effect.
    pub open spec fn bus_written(self, addr: u16, val: u8) -> EmuView {
        if addr < 0x2000 {
            EmuView { ram: self.ram.update(addr as int % 2048, val), ..self }
        } else if addr < 0x4000 {
            self.ppu_reg_written((addr % 8) as u8, val)
        } else {
            self
        }
    }
}

impl Emulator {
    /// The machine invariant: the view is well formed and the mapper's banks
    /// match its board variant.
    pub open spec fn wf(self) -> bool {
        &&& self@.wf()
        &&& self.mapper.wf()
    }

    /// Reads one byte over the CPU bus.
    pub fn read(&mut self, addr: u16) -> (r: u8)
        requires
            old(self).wf(),
        ensures
            final(self).wf(),
            r == old(self)@.bus_read(addr).0,
            final(self)@ == old(self)@.bus_read(addr).1,
    {
        if addr < 0x2000 {
            let off = addr % 0x800;
            self.internal_ram[off as usize]
        } else if addr < 0x4000 {
            self.ppu_read_reg((addr % 8) as u8)
        } else if addr < 0x4020 {
            0
        } else {
            match self.mapper.read_cpu(addr) {
                Ok(val) => val,
                Err(_) => 0,
            }
        }
    }

    /// Writes one byte over the CPU bus.
    pub fn write(&mut self, addr: u16, val: u8)
        requires
            old(self).wf(),
        ensures
            final(self).wf(),
            final(self)@ == old(self)@.bus_written(addr, val),
    {
        if addr < 0x2000 {
            let off = addr % 0x800;
            self.internal_ram[off as usize] = val;
            proof {
                assert(self@ =~= old(self)@.bus_written(addr, val));
            }
        } else if addr < 0x4000 {
            self.ppu_write_reg((addr % 8) as u8, val);
        } else {
            // APU/IO stub and cartridge: NROM rejects every write, and the
            // bus drops the error, so nothing moves.
        }
    }

    /// Builds the machine around a parsed cartridge.  Succeeds exactly when
    /// the cartridge is an NROM board whose announced ROM fits in the file;
    /// on success every component sits in its power-up state and `pc` at the
    /// start of the fixed PRG window.
    pub fn new(file: &[u8], nes_file: &NESFile) -> (r: Result<Emulator, NesError>)
        ensures
            nes_file.mapper_number != 0 ==> r is Err && r->Err_0 == NesError::UnsupportedMapper,
            nes_file.mapper_number == 0 ==> ((r is Ok) <==> ({
                &&& (nes_file.prg_rom_size == 1 || nes_file.prg_rom_size == 2)
                &&& nes_file.chr_rom_size == 1
                &&& file@.len() >= NROMMapper::spec_rom_start(*nes_file)
                    + nes_file.prg_rom_size as int * 0x4000 + 0x2000
            })),
            r is Ok ==> ({
                let v = r->Ok_0@;
                let start = NROMMapper::spec_rom_start(*nes_file);
                let prg_len = nes_file.prg_rom_size as int * 0x4000;
                &&& r->Ok_0.wf()
                &&& v.regs == (Registers {
                    a: 0,
                    x: 0,
                    y: 0,
                    sp: 0xFD,
                    pc: 0xC000,
                    flags: StatusRegister {
                        carry: false,
                        zero: false,
                        interrupt_disable: false,
                        decimal: false,
                        break_command: false,
                        overflow: false,
                        negative: false,
                    },
                })
                &&& v.ram == Seq::new(2048, |i: int| 0u8)
                &&& v.cpu == (CPUData { cycle_debt: 0 })
                &&& v.ppu == PPUData::spec_new()
                &&& v.prg == file@.subrange(start, start + prg_len)
                &&& v.chr == file@.subrange(start + prg_len, start + prg_len + 0x2000)
                &&& v.mirroring == nes_file.mirroring_mode
                &&& v.fb == Seq::new(spec_fb_len() as nat, |i: int| 0u8)
                &&& !v.frame_complete
                &&& v.cycle_counter == 0
                &&& v.nmi_count == 0
            }),
    {
        let mapper = match crate::mapper::get_mapper(file, nes_file) {
            Ok(m) => m,
            Err(e) => {
                return Err(e);
            },
        };

        let internal_ram = zero_vec(2048);
        let framebuffer = zero_vec(184320);

        let entry = match &mapper {
            Mapper::Nrom(m) => m.entrypoint(),
        };

        Ok(Emulator {
            regs: Registers { a: 0, x: 0, y: 0, sp: 0xFD, pc: entry, flags: StatusRegister::new() },
            internal_ram,
            cpu: CPUData::new(),
            ppu: PPUData::new(),
            mapper,
            framebuffer,
            frame_complete: false,
            cycle_counter: 0,
            nmi_count: 0,
        })
    }
}

impl EmuView {
    /// One master-clock tick: the PPU advances one dot, and on every third
    /// tick the CPU gets one cycle.
    pub open spec fn clocked(self) -> (Result<(), EmuError>, EmuView) {
        let s1 = self.ppu_clocked();
        if self.cycle_counter == 2 {
            let (r, s2) = s1.cpu_clocked();
            (r, EmuView { cycle_counter: 0, ..s2 })
        } else {
            (Ok(()), EmuView { cycle_counter: (self.cycle_counter + 1) as usize, ..s1 })
        }
    }

    /// Master-clock ticks iterated until the PPU marks the frame complete,
    /// a fatal error stops the machine, or the tick budget runs out; the
    /// mark is cleared on the way out.  With the budget of
    /// [`spec_frame_budget`] — two frames of dots — the wrap comes first
    /// from any reachable state.
    pub open spec fn run_to_frame(self, fuel: nat) -> (Result<(), EmuError>, EmuView)
        decreases fuel,
    {
        if self.frame_complete || fuel == 0 {
            (Ok(()), EmuView { frame_complete: false, ..self })
        } else {
            let (r, s1) = self.clocked();
            match r {
                Ok(_) => s1.run_to_frame((fuel - 1) as nat),
                Err(e) => (Err(e), EmuView { frame_complete: false, ..s1 }),
            }
        }
    }
}

/// The tick budget of one `run_frame` call: two frames of 341 x 262 dots.
pub open spec fn spec_frame_budget() -> nat {
    (2 * 341 * 262) as nat
}

impl Emulator {
    /// One master-clock tick.
    pub fn clock(&mut self) -> (r: Result<(), EmuError>)
        requires
            old(self).wf(),
        ensures
            final(self).wf(),
            r == old(self)@.clocked().0,
            final(self)@ == old(self)@.clocked().1,
    {
        let phase = self.cycle_counter;
        self.clock_ppu();
        if phase == 2 {
            let r = self.clock_cpu();
            self.cycle_counter = 0;
            r
        } else {
            self.cycle_counter = phase + 1;
            Ok(())
        }
    }

    /// Runs master-clock ticks until the PPU marks the frame complete, then
    /// clears the mark: exactly the iterated per-tick transition
    /// [`EmuView::run_to_frame`] under the two-frame tick budget.
    pub fn run_frame(&mut self) -> (r: Result<(), EmuError>)
        requires
            old(self).wf(),
        ensures
            final(self).wf(),
            !final(self).frame_complete,
            r == old(self)@.run_to_frame(spec_frame_budget()).0,
            final(self)@ == old(self)@.run_to_frame(spec_frame_budget()).1,
    {
        let mut budget: u32 = 2 * 341 * 262;
        while !self.frame_complete && budget > 0
            invariant
                self.wf(),
                old(self)@.run_to_frame(spec_frame_budget()) == self@.run_to_frame(
                    budget as nat,
                ),
            decreases budget,
        {
            let ghost s_iter = self@;
            let ghost fuel_iter = budget as nat;
            match self.clock() {
                Ok(()) => {},
                Err(e) => {
                    self.frame_complete = false;
                    proof {
                        assert(self@ =~= (EmuView {
                            frame_complete: false,
                            ..s_iter.clocked().1
                        }));
                        assert(s_iter.run_to_frame(fuel_iter) == (
                            Err::<(), EmuError>(e),
                            self@,
                        ));
                    }
                    return Err(e);
                },
            }
            budget = budget - 1;
            proof {
                assert(s_iter.run_to_frame(fuel_iter) == self@.run_to_frame(budget as nat));
            }
        }
        self.frame_complete = false;
        Ok(())
    }
}

/// A vector of `len` zero bytes.
fn zero_vec(len: usize) -> (r: Vec<u8>)
    ensures
        r@ == Seq::new(len as nat, |i: int| 0u8),
{
    let mut r: Vec<u8> = Vec::new();
    let mut i: usize = 0;
    while i < len
        invariant
            i <= len,
            r@ == Seq::new(i as nat, |j: int| 0u8),
        decreases len - i,
    {
        r.push(0);
        i += 1;
        proof {
            assert(r@ =~= Seq::new(i as nat, |j: int| 0u8));
        }
    }
    r
}

} // verus!
