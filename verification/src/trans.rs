//! Register transfer instructions: TAX, TAY, TSX, TXA, TYA and TXS.
//!
//! Every transfer sets `Z` and `N` from the destination — except TXS, which
//! copies `X` into the stack pointer without touching any flag.

use vstd::prelude::*;

use crate::emu::{EmuView, Emulator, Registers};
use crate::instructions::Operand;

verus! {

/// TAX: `A` goes to `X`; `Z`/`N` follow.
pub open spec fn spec_tax(s: EmuView, op: Operand) -> (EmuView, usize) {
    (s.x_set(s.regs.a), 0)
}

/// TAY: `A` goes to `Y`; `Z`/`N` follow.
pub open spec fn spec_tay(s: EmuView, op: Operand) -> (EmuView, usize) {
    (s.y_set(s.regs.a), 0)
}

/// TSX: `S` goes to `X`; `Z`/`N` follow.
pub open spec fn spec_tsx(s: EmuView, op: Operand) -> (EmuView, usize) {
    (s.x_set(s.regs.sp), 0)
}

/// TXA: `X` goes to `A`; `Z`/`N` follow.
pub open spec fn spec_txa(s: EmuView, op: Operand) -> (EmuView, usize) {
    (s.a_set(s.regs.x), 0)
}

/// TXS: `X` goes to `S`; no flags.
pub open spec fn spec_txs(s: EmuView, op: Operand) -> (EmuView, usize) {
    (EmuView { regs: Registers { sp: s.regs.x, ..s.regs }, ..s }, 0)
}

/// TYA: `Y` goes to `A`; `Z`/`N` follow.
pub open spec fn spec_tya(s: EmuView, op: Operand) -> (EmuView, usize) {
    (s.a_set(s.regs.y), 0)
}

/// TAX handler.
pub fn tax(emu: &mut Emulator, op: Operand) -> (extra: usize)
    requires
        old(emu).wf(),
        op is Implied,
    ensures
        final(emu).wf(),
        final(emu)@ == spec_tax(old(emu)@, op).0,
        extra == spec_tax(old(emu)@, op).1,
{
    let val = emu.regs.a;
    emu.set_x(val);
    0
}

/// TAY handler.
pub fn tay(emu: &mut Emulator, op: Operand) -> (extra: usize)
    requires
        old(emu).wf(),
        op is Implied,
    ensures
        final(emu).wf(),
        final(emu)@ == spec_tay(old(emu)@, op).0,
        extra == spec_tay(old(emu)@, op).1,
{
    let val = emu.regs.a;
    emu.set_y(val);
    0
}

/// TSX handler.
pub fn tsx(emu: &mut Emulator, op: Operand) -> (extra: usize)
    requires
        old(emu).wf(),
        op is Implied,
    ensures
        final(emu).wf(),
        final(emu)@ == spec_tsx(old(emu)@, op).0,
        extra == spec_tsx(old(emu)@, op).1,
{
    let val = emu.regs.sp;
    emu.set_x(val);
    0
}

/// TXA handler.
pub fn txa(emu: &mut Emulator, op: Operand) -> (extra: usize)
    requires
        old(emu).wf(),
        op is Implied,
    ensures
        final(emu).wf(),
        final(emu)@ == spec_txa(old(emu)@, op).0,
        extra == spec_txa(old(emu)@, op).1,
{
    let val = emu.regs.x;
    emu.set_a(val);
    0
}

/// TXS handler.
pub fn txs(emu: &mut Emulator, op: Operand) -> (extra: usize)
    requires
        old(emu).wf(),
        op is Implied,
    ensures
        final(emu).wf(),
        final(emu)@ == spec_txs(old(emu)@, op).0,
        extra == spec_txs(old(emu)@, op).1,
{
    emu.regs.sp = emu.regs.x;
    0
}

/// TYA handler.
pub fn tya(emu: &mut Emulator, op: Operand) -> (extra: usize)
    requires
        old(emu).wf(),
        op is Implied,
    ensures
        final(emu).wf(),
        final(emu)@ == spec_tya(old(emu)@, op).0,
        extra == spec_tya(old(emu)@, op).1,
{
    let val = emu.regs.y;
    emu.set_a(val);
    0
}

} // verus!
