//! NOP, official and the multi-byte unofficial variants.
//!
//! A NOP changes no machine state; its addressing-mode bytes were already
//! consumed by the decode step, and the absolute-indexed variant charges the
//! page-cross cycle the read family pays.

use vstd::prelude::*;

use crate::emu::{EmuView, Emulator};
use crate::instructions::Operand;

verus! {

/// NOP: the machine is untouched; only the absolute-X variant may charge a
/// page-cross cycle.
pub open spec fn spec_nop(s: EmuView, op: Operand) -> (EmuView, usize) {
    (
        s,
        match op {
            Operand::AbsoluteIndexedX(_) => if s.operand_page_crossed(op) {
                1
            } else {
                0
            },
            _ => 0,
        },
    )
}

/// NOP handler.
pub fn nop(emu: &mut Emulator, op: Operand) -> (extra: usize)
    requires
        old(emu).wf(),
    ensures
        final(emu).wf(),
        final(emu)@ == spec_nop(old(emu)@, op).0,
        extra == spec_nop(old(emu)@, op).1,
{
    match op {
        Operand::AbsoluteIndexedX(addr) => {
            let final_addr = addr.wrapping_add(emu.regs.x as u16);
            if final_addr / 256 != addr / 256 {
                1
            } else {
                0
            }
        },
        _ => 0,
    }
}

} // verus!
