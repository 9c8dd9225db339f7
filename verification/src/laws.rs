//! The machine's invariants, stated and proved once over the spec-level
//! transitions: frame rules for the bus, the decode/advance discipline of
//! the CPU step, the flag laws of loads and arithmetic, the stack round
//! trips, the zero-page addressing bound, the indirect-JMP page bug, and the
//! per-dot law of the PPU counter, VBlank and NMI.

use vstd::prelude::*;

use crate::arithmetic::{spec_adc_value, spec_sbc_value};
use crate::cpu::spec_w16;
use crate::emu::EmuView;
use crate::instructions::{spec_decode, AddressingMode, Operand};
use crate::load::{spec_lda, spec_ldx, spec_ldy};
use crate::ppu::spec_position_advanced;
use crate::stack::{spec_pha, spec_php, spec_pla, spec_plp};
use crate::status::StatusRegister;

verus! {

/// A PPU register read changes nothing outside the PPU.
pub proof fn lemma_ppu_reg_read_frame(s: EmuView, reg: u8)
    ensures
        s.ppu_reg_read(reg).1 == (EmuView { ppu: s.ppu_reg_read(reg).1.ppu, ..s }),
{
    reveal(EmuView::ppu_reg_read);
}

/// A PPU register write changes nothing outside the PPU.
pub proof fn lemma_ppu_reg_written_frame(s: EmuView, reg: u8, val: u8)
    ensures
        s.ppu_reg_written(reg, val) == (EmuView { ppu: s.ppu_reg_written(reg, val).ppu, ..s }),
{
    reveal(EmuView::ppu_reg_written);
    reveal(EmuView::ppu_mem_written);
}

/// A bus read never touches the CPU registers, RAM, the cartridge or the
/// frame; only the PPU can move.
pub proof fn lemma_bus_read_frame(s: EmuView, addr: u16)
    ensures
        s.bus_read(addr).1 == (EmuView { ppu: s.bus_read(addr).1.ppu, ..s }),
{
    if 0x2000 <= addr && addr < 0x4000 {
        lemma_ppu_reg_read_frame(s, (addr % 8) as u8);
    }
}

/// An operand fetch leaves the CPU registers alone; in particular `pc` still
/// points at the instruction when the fetch is done.
pub proof fn lemma_operand_fetch_frame(s: EmuView, mode: AddressingMode)
    ensures
        s.spec_operand(mode).1.regs == s.regs,
{
    let pc = s.regs.pc;
    lemma_bus_read_frame(s, spec_w16(pc as int + 1));
    let s1 = s.bus_read(spec_w16(pc as int + 1)).1;
    lemma_bus_read_frame(s1, spec_w16(pc as int + 2));
}

/// For every CPU step that decodes: the program counter advances by exactly
/// the instruction's byte count before the handler's transition runs — the
/// final machine is that transition applied to the advanced state.
pub proof fn lemma_pc_advances_before_handler(s: EmuView)
    ensures
        ({
            let (opcode, s1) = s.bus_read(s.regs.pc);
            match spec_decode(opcode) {
                Some(ins) => {
                    let (op, s2) = s1.spec_operand(ins.addressing_mode);
                    let s3 = EmuView {
                        regs: crate::emu::Registers {
                            pc: spec_w16(s.regs.pc as int + ins.bytes as int),
                            ..s2.regs
                        },
                        ..s2
                    };
                    s.stepped().1 == s3.executed(ins.mnemonic, op).0 && s.stepped().0 == Ok::<
                        usize,
                        crate::emu::EmuError,
                    >((ins.cycles + s3.executed(ins.mnemonic, op).1) as usize)
                },
                None => s.stepped().0 == Err::<usize, crate::emu::EmuError>(
                    crate::emu::EmuError::IllegalOpcode(opcode),
                ),
            }
        }),
{
    let (opcode, s1) = s.bus_read(s.regs.pc);
    lemma_bus_read_frame(s, s.regs.pc);
    if spec_decode(opcode) is Some {
        let ins = spec_decode(opcode)->0;
        lemma_operand_fetch_frame(s1, ins.addressing_mode);
    }
}

/// For every load: the target register takes the operand's value, `Z` holds
/// exactly when it is zero, and `N` exactly when its bit 7 is set.
pub proof fn lemma_load_flags(s: EmuView, op: Operand)
    ensures
        ({
            let v = s.operand_value(op).0;
            &&& spec_lda(s, op).0.regs.a == v
            &&& spec_lda(s, op).0.regs.flags.zero == (v == 0)
            &&& spec_lda(s, op).0.regs.flags.negative == (v >= 128)
            &&& spec_ldx(s, op).0.regs.x == v
            &&& spec_ldx(s, op).0.regs.flags.zero == (v == 0)
            &&& spec_ldx(s, op).0.regs.flags.negative == (v >= 128)
            &&& spec_ldy(s, op).0.regs.y == v
            &&& spec_ldy(s, op).0.regs.flags.zero == (v == 0)
            &&& spec_ldy(s, op).0.regs.flags.negative == (v >= 128)
        }),
{
}

/// ADC sets the carry exactly when `A + M + C_in` exceeds `0xFF`, and the
/// overflow flag by the sign-agreement rule; SBC is the same law on the
/// one's complement of the operand.
pub proof fn lemma_adc_sbc_carry_overflow(s: EmuView, m: u8)
    ensures
        ({
            let c_in: int = if s.regs.flags.carry {
                1
            } else {
                0
            };
            let sum = s.regs.a as int + m as int + c_in;
            let res = (sum % 256) as u8;
            &&& spec_adc_value(s, m).regs.flags.carry <==> sum > 0xFF
            &&& spec_adc_value(s, m).regs.a == res
            &&& (spec_adc_value(s, m).regs.flags.overflow <==> !(s.regs.a ^ m) & (s.regs.a ^ res)
                & 0x80 != 0)
            &&& spec_sbc_value(s, m) == spec_adc_value(s, (m ^ 0xFF) as u8)
        }),
{
}

/// Stack round trip: `PLA` after `PHA` restores `A` and the stack pointer.
pub proof fn lemma_pha_pla_round_trip(s: EmuView, op: Operand)
    requires
        s.wf(),
    ensures
        spec_pla(spec_pha(s, op).0, op).0.regs.a == s.regs.a,
        spec_pla(spec_pha(s, op).0, op).0.regs.sp == s.regs.sp,
{
}

/// Stack round trip: `PLP` after `PHP` restores every user-visible flag; the
/// stack-marker bit `B` reads back in its canonical cleared state.
pub proof fn lemma_php_plp_round_trip(s: EmuView, op: Operand)
    requires
        s.wf(),
    ensures
        spec_plp(spec_php(s, op).0, op).0.regs.flags == (StatusRegister {
            break_command: false,
            ..s.regs.flags
        }),
        spec_plp(spec_php(s, op).0, op).0.regs.sp == s.regs.sp,
{
    crate::status::lemma_status_round_trip(
        StatusRegister { break_command: true, ..s.regs.flags },
    );
}

/// Zero-page addressing never escapes `0x0000-0x00FF` for the operand
/// address itself, and the `(zp,X)` pointer is fetched entirely within the
/// zero page.  (`(zp),Y` leaves the page only after the indirection.)
pub proof fn lemma_zero_page_stays_in_page(s: EmuView, op: Operand)
    ensures
        op is ZeroPage ==> s.operand_address(op) <= 0xFF,
        op is ZeroPageIndexedX ==> s.operand_address(op) <= 0xFF,
        op is ZeroPageIndexedY ==> s.operand_address(op) <= 0xFF,
{
}

/// The indirect-JMP page bug: when the pointer sits at the end of a page,
/// its high byte is fetched from the start of the same page, not from the
/// next one.
pub proof fn lemma_indirect_jmp_page_bug(s: EmuView, addr: u16)
    requires
        addr % 256 == 255,
    ensures
        s.indirect_wrapped(addr).0 as int == s.bus_read(addr).0 as int + 256 * s.bus_read(
            addr,
        ).1.bus_read((addr - 255) as u16).0 as int,
{
}

/// The per-dot law of the PPU: the `(dot, scanline)` counter advances by one
/// modulo `(341, 262)`; VBlank rises exactly at `(241, 1)` and falls exactly
/// at the frame start `(0, 0)`; the NMI entry runs on this dot if and only
/// if VBlank rises while PPUCTRL enables it.
pub proof fn lemma_ppu_dot(s: EmuView)
    ensures
        ({
            let next = s.ppu_clocked();
            let p = spec_position_advanced(s.ppu.cycle, s.ppu.scanline);
            &&& next.ppu.cycle == p.0
            &&& next.ppu.scanline == p.1
            &&& next.frame_complete == (s.frame_complete || p.2)
            &&& next.ppu.vertical_blanking == (if s.ppu.scanline == 241 && s.ppu.cycle == 1 {
                true
            } else if s.ppu.scanline == 0 && s.ppu.cycle == 0 {
                false
            } else {
                s.ppu.vertical_blanking
            })
            &&& (next.nmi_count != s.nmi_count <==> (s.ppu.scanline == 241 && s.ppu.cycle == 1
                && s.ppu.control_reg.generate_nmi))
        }),
{
    reveal(EmuView::nmi_entered);
    reveal(EmuView::background_fetched);
    reveal(EmuView::pixel_emitted);
}

} // verus!
