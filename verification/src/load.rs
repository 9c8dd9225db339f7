//! Load and store instructions: LDA, LDX, LDY, STA, STX, STY, and the
//! unofficial LAX and SAX.
//!
//! Loads set `Z` and `N` from the loaded value and charge the page-cross
//! cycle on indexed addressing; stores copy a register to memory without
//! touching any flag and never charge the extra cycle.

use vstd::prelude::*;

use crate::emu::{EmuView, Emulator, Registers};
use crate::instructions::Operand;
use crate::cpu::spec_zn;

verus! {

/// The page-cross penalty as a cycle count.
pub open spec fn spec_cross_cycles(s: EmuView, op: Operand) -> usize {
    if s.operand_page_crossed(op) {
        1
    } else {
        0
    }
}

/// LDA: the operand's value goes to `A`; `Z`/`N` follow.
pub open spec fn spec_lda(s: EmuView, op: Operand) -> (EmuView, usize) {
    let (v, s1) = s.operand_value(op);
    (s1.a_set(v), spec_cross_cycles(s, op))
}

/// LDX: the operand's value goes to `X`; `Z`/`N` follow.
pub open spec fn spec_ldx(s: EmuView, op: Operand) -> (EmuView, usize) {
    let (v, s1) = s.operand_value(op);
    (s1.x_set(v), spec_cross_cycles(s, op))
}

/// LDY: the operand's value goes to `Y`; `Z`/`N` follow.
pub open spec fn spec_ldy(s: EmuView, op: Operand) -> (EmuView, usize) {
    let (v, s1) = s.operand_value(op);
    (s1.y_set(v), spec_cross_cycles(s, op))
}

/// STA: `A` goes to the operand's address; no flags.
pub open spec fn spec_sta(s: EmuView, op: Operand) -> (EmuView, usize) {
    (s.bus_written(s.operand_address(op), s.regs.a), 0)
}

/// STX: `X` goes to the operand's address; no flags.
pub open spec fn spec_stx(s: EmuView, op: Operand) -> (EmuView, usize) {
    (s.bus_written(s.operand_address(op), s.regs.x), 0)
}

/// STY: `Y` goes to the operand's address; no flags.
pub open spec fn spec_sty(s: EmuView, op: Operand) -> (EmuView, usize) {
    (s.bus_written(s.operand_address(op), s.regs.y), 0)
}

/// LAX (unofficial): the operand's value goes to both `A` and `X`.
pub open spec fn spec_lax(s: EmuView, op: Operand) -> (EmuView, usize) {
    let (v, s1) = s.operand_value(op);
    (
        EmuView {
            regs: Registers { a: v, x: v, flags: spec_zn(s1.regs.flags, v), ..s1.regs },
            ..s1
        },
        spec_cross_cycles(s, op),
    )
}

/// SAX (unofficial): `A & X` goes to the operand's address; no flags.
pub open spec fn spec_sax(s: EmuView, op: Operand) -> (EmuView, usize) {
    (s.bus_written(s.operand_address(op), s.regs.a & s.regs.x), 0)
}

/// LDA handler.
pub fn lda(emu: &mut Emulator, op: Operand) -> (extra: usize)
    requires
        old(emu).wf(),
        op.spec_has_value(),
    ensures
        final(emu).wf(),
        final(emu)@ == spec_lda(old(emu)@, op).0,
        extra == spec_lda(old(emu)@, op).1,
{
    let (val, crossed) = emu.get_val_from_operand_cross(op);
    emu.set_a(val);
    if crossed {
        1
    } else {
        0
    }
}

/// LDX handler.
pub fn ldx(emu: &mut Emulator, op: Operand) -> (extra: usize)
    requires
        old(emu).wf(),
        op.spec_has_value(),
    ensures
        final(emu).wf(),
        final(emu)@ == spec_ldx(old(emu)@, op).0,
        extra == spec_ldx(old(emu)@, op).1,
{
    let (val, crossed) = emu.get_val_from_operand_cross(op);
    emu.set_x(val);
    if crossed {
        1
    } else {
        0
    }
}

/// LDY handler.
pub fn ldy(emu: &mut Emulator, op: Operand) -> (extra: usize)
    requires
        old(emu).wf(),
        op.spec_has_value(),
    ensures
        final(emu).wf(),
        final(emu)@ == spec_ldy(old(emu)@, op).0,
        extra == spec_ldy(old(emu)@, op).1,
{
    let (val, crossed) = emu.get_val_from_operand_cross(op);
    emu.set_y(val);
    if crossed {
        1
    } else {
        0
    }
}

/// STA handler.
pub fn sta(emu: &mut Emulator, op: Operand) -> (extra: usize)
    requires
        old(emu).wf(),
        op.spec_has_address(),
    ensures
        final(emu).wf(),
        final(emu)@ == spec_sta(old(emu)@, op).0,
        extra == spec_sta(old(emu)@, op).1,
{
    let addr = emu.get_addr_from_operand(op);
    let val = emu.regs.a;
    emu.write(addr, val);
    0
}

/// STX handler.
pub fn stx(emu: &mut Emulator, op: Operand) -> (extra: usize)
    requires
        old(emu).wf(),
        op.spec_has_address(),
    ensures
        final(emu).wf(),
        final(emu)@ == spec_stx(old(emu)@, op).0,
        extra == spec_stx(old(emu)@, op).1,
{
    let addr = emu.get_addr_from_operand(op);
    let val = emu.regs.x;
    emu.write(addr, val);
    0
}

/// STY handler.
pub fn sty(emu: &mut Emulator, op: Operand) -> (extra: usize)
    requires
        old(emu).wf(),
        op.spec_has_address(),
    ensures
        final(emu).wf(),
        final(emu)@ == spec_sty(old(emu)@, op).0,
        extra == spec_sty(old(emu)@, op).1,
{
    let addr = emu.get_addr_from_operand(op);
    let val = emu.regs.y;
    emu.write(addr, val);
    0
}

/// LAX handler.
pub fn lax(emu: &mut Emulator, op: Operand) -> (extra: usize)
    requires
        old(emu).wf(),
        op.spec_has_value(),
    ensures
        final(emu).wf(),
        final(emu)@ == spec_lax(old(emu)@, op).0,
        extra == spec_lax(old(emu)@, op).1,
{
    let (val, crossed) = emu.get_val_from_operand_cross(op);
    emu.regs.a = val;
    emu.regs.x = val;
    emu.set_zero_and_negative_flags(val);
    if crossed {
        1
    } else {
        0
    }
}

/// SAX handler.
pub fn sax(emu: &mut Emulator, op: Operand) -> (extra: usize)
    requires
        old(emu).wf(),
        op.spec_has_address(),
    ensures
        final(emu).wf(),
        final(emu)@ == spec_sax(old(emu)@, op).0,
        extra == spec_sax(old(emu)@, op).1,
{
    let res = emu.regs.a & emu.regs.x;
    let addr = emu.get_addr_from_operand(op);
    emu.write(addr, res);
    0
}

} // verus!
