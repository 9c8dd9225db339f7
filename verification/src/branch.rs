//! The eight conditional branches.
//!
//! The operand is a signed 8-bit displacement from the address after the
//! branch instruction (the program counter has already advanced when the
//! handler runs).  A taken branch costs one extra cycle, and a second one
//! when the target sits on a different page.

use vstd::prelude::*;

use crate::cpu::spec_w16;
use crate::emu::{EmuView, Emulator, Registers};
use crate::instructions::Operand;

verus! {

/// The branch target: `pc` plus the sign-extended displacement, wrapping in
/// 16 bits.
pub open spec fn spec_branch_target(pc: u16, off: u8) -> u16 {
    spec_w16(pc as int + off as int + if off >= 128 {
        0xFF00int
    } else {
        0int
    })
}

/// A branch on condition `taken`: not taken leaves the machine alone for no
/// extra cycle; taken moves `pc` to the target for one extra cycle, two if
/// the target is on another page.
pub open spec fn spec_branch(s: EmuView, off: u8, taken: bool) -> (EmuView, usize) {
    let target = spec_branch_target(s.regs.pc, off);
    if taken {
        (
            EmuView { regs: Registers { pc: target, ..s.regs }, ..s },
            if target as int / 256 != s.regs.pc as int / 256 {
                2
            } else {
                1
            },
        )
    } else {
        (s, 0)
    }
}

/// The condition each branch mnemonic tests, applied to the current flags.
pub open spec fn spec_bcc_taken(s: EmuView) -> bool {
    !s.regs.flags.carry
}

pub open spec fn spec_bcs_taken(s: EmuView) -> bool {
    s.regs.flags.carry
}

pub open spec fn spec_beq_taken(s: EmuView) -> bool {
    s.regs.flags.zero
}

pub open spec fn spec_bne_taken(s: EmuView) -> bool {
    !s.regs.flags.zero
}

pub open spec fn spec_bmi_taken(s: EmuView) -> bool {
    s.regs.flags.negative
}

pub open spec fn spec_bpl_taken(s: EmuView) -> bool {
    !s.regs.flags.negative
}

pub open spec fn spec_bvc_taken(s: EmuView) -> bool {
    !s.regs.flags.overflow
}

pub open spec fn spec_bvs_taken(s: EmuView) -> bool {
    s.regs.flags.overflow
}

/// The shared branch body: move `pc` when `taken`, report the extra cycles.
fn do_branch(emu: &mut Emulator, off: u8, taken: bool) -> (extra: usize)
    requires
        old(emu).wf(),
    ensures
        final(emu).wf(),
        final(emu)@ == spec_branch(old(emu)@, off, taken).0,
        extra == spec_branch(old(emu)@, off, taken).1,
{
    if !taken {
        return 0;
    }
    let pc = emu.regs.pc;
    let target = if off >= 128 {
        pc.wrapping_add(off as u16).wrapping_add(0xFF00)
    } else {
        pc.wrapping_add(off as u16)
    };
    emu.regs.pc = target;
    if target / 256 != pc / 256 {
        2
    } else {
        1
    }
}

/// BCC handler: branch when carry is clear.
pub fn bcc(emu: &mut Emulator, op: Operand) -> (extra: usize)
    requires
        old(emu).wf(),
        op is Relative,
    ensures
        final(emu).wf(),
        final(emu)@ == spec_branch(old(emu)@, op->Relative_0, spec_bcc_taken(old(emu)@)).0,
        extra == spec_branch(old(emu)@, op->Relative_0, spec_bcc_taken(old(emu)@)).1,
{
    let taken = !emu.regs.flags.carry;
    match op {
        Operand::Relative(off) => do_branch(emu, off, taken),
        _ => 0,
    }
}

/// BCS handler: branch when carry is set.
pub fn bcs(emu: &mut Emulator, op: Operand) -> (extra: usize)
    requires
        old(emu).wf(),
        op is Relative,
    ensures
        final(emu).wf(),
        final(emu)@ == spec_branch(old(emu)@, op->Relative_0, spec_bcs_taken(old(emu)@)).0,
        extra == spec_branch(old(emu)@, op->Relative_0, spec_bcs_taken(old(emu)@)).1,
{
    let taken = emu.regs.flags.carry;
    match op {
        Operand::Relative(off) => do_branch(emu, off, taken),
        _ => 0,
    }
}

/// BEQ handler: branch when zero is set.
pub fn beq(emu: &mut Emulator, op: Operand) -> (extra: usize)
    requires
        old(emu).wf(),
        op is Relative,
    ensures
        final(emu).wf(),
        final(emu)@ == spec_branch(old(emu)@, op->Relative_0, spec_beq_taken(old(emu)@)).0,
        extra == spec_branch(old(emu)@, op->Relative_0, spec_beq_taken(old(emu)@)).1,
{
    let taken = emu.regs.flags.zero;
    match op {
        Operand::Relative(off) => do_branch(emu, off, taken),
        _ => 0,
    }
}

/// BNE handler: branch when zero is clear.
pub fn bne(emu: &mut Emulator, op: Operand) -> (extra: usize)
    requires
        old(emu).wf(),
        op is Relative,
    ensures
        final(emu).wf(),
        final(emu)@ == spec_branch(old(emu)@, op->Relative_0, spec_bne_taken(old(emu)@)).0,
        extra == spec_branch(old(emu)@, op->Relative_0, spec_bne_taken(old(emu)@)).1,
{
    let taken = !emu.regs.flags.zero;
    match op {
        Operand::Relative(off) => do_branch(emu, off, taken),
        _ => 0,
    }
}

/// BMI handler: branch when negative is set.
pub fn bmi(emu: &mut Emulator, op: Operand) -> (extra: usize)
    requires
        old(emu).wf(),
        op is Relative,
    ensures
        final(emu).wf(),
        final(emu)@ == spec_branch(old(emu)@, op->Relative_0, spec_bmi_taken(old(emu)@)).0,
        extra == spec_branch(old(emu)@, op->Relative_0, spec_bmi_taken(old(emu)@)).1,
{
    let taken = emu.regs.flags.negative;
    match op {
        Operand::Relative(off) => do_branch(emu, off, taken),
        _ => 0,
    }
}

/// BPL handler: branch when negative is clear.
pub fn bpl(emu: &mut Emulator, op: Operand) -> (extra: usize)
    requires
        old(emu).wf(),
        op is Relative,
    ensures
        final(emu).wf(),
        final(emu)@ == spec_branch(old(emu)@, op->Relative_0, spec_bpl_taken(old(emu)@)).0,
        extra == spec_branch(old(emu)@, op->Relative_0, spec_bpl_taken(old(emu)@)).1,
{
    let taken = !emu.regs.flags.negative;
    match op {
        Operand::Relative(off) => do_branch(emu, off, taken),
        _ => 0,
    }
}

/// BVC handler: branch when overflow is clear.
pub fn bvc(emu: &mut Emulator, op: Operand) -> (extra: usize)
    requires
        old(emu).wf(),
        op is Relative,
    ensures
        final(emu).wf(),
        final(emu)@ == spec_branch(old(emu)@, op->Relative_0, spec_bvc_taken(old(emu)@)).0,
        extra == spec_branch(old(emu)@, op->Relative_0, spec_bvc_taken(old(emu)@)).1,
{
    let taken = !emu.regs.flags.overflow;
    match op {
        Operand::Relative(off) => do_branch(emu, off, taken),
        _ => 0,
    }
}

/// BVS handler: branch when overflow is set.
pub fn bvs(emu: &mut Emulator, op: Operand) -> (extra: usize)
    requires
        old(emu).wf(),
        op is Relative,
    ensures
        final(emu).wf(),
        final(emu)@ == spec_branch(old(emu)@, op->Relative_0, spec_bvs_taken(old(emu)@)).0,
        extra == spec_branch(old(emu)@, op->Relative_0, spec_bvs_taken(old(emu)@)).1,
{
    let taken = emu.regs.flags.overflow;
    match op {
        Operand::Relative(off) => do_branch(emu, off, taken),
        _ => 0,
    }
}

} // verus!
