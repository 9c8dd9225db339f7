//! Stack instructions: PHA, PHP, PLA, PLP.
//!
//! PHP pushes the status byte with `B` and bit 5 set; PLP restores every
//! user-visible flag from the pulled byte, forcing `B` clear and ignoring
//! bit 5, as the hardware does on observation.  PLA sets `Z`/`N` from the
//! pulled value.

use vstd::prelude::*;

use crate::emu::{EmuView, Emulator, Registers};
use crate::instructions::Operand;
use crate::status::StatusRegister;

verus! {

/// PHA: `A` is pushed.
pub open spec fn spec_pha(s: EmuView, op: Operand) -> (EmuView, usize) {
    (s.pushed(s.regs.a), 0)
}

/// The byte PHP and BRK push: the status with `B` forced set (bit 5 is
/// always set in the packed byte).
pub open spec fn spec_php_byte(f: StatusRegister) -> u8 {
    StatusRegister { break_command: true, ..f }.spec_bits()
}

/// PHP: the status byte is pushed with `B` and bit 5 set.
pub open spec fn spec_php(s: EmuView, op: Operand) -> (EmuView, usize) {
    (s.pushed(spec_php_byte(s.regs.flags)), 0)
}

/// PLA: a byte is pulled into `A`; `Z`/`N` follow.
pub open spec fn spec_pla(s: EmuView, op: Operand) -> (EmuView, usize) {
    let (v, s1) = s.popped();
    (s1.a_set(v), 0)
}

/// PLP: a byte is pulled and every user-visible flag restored from it.
pub open spec fn spec_plp(s: EmuView, op: Operand) -> (EmuView, usize) {
    let (v, s1) = s.popped();
    (
        EmuView {
            regs: Registers { flags: StatusRegister::spec_from_byte(v), ..s1.regs },
            ..s1
        },
        0,
    )
}

/// PHA handler.
pub fn pha(emu: &mut Emulator, op: Operand) -> (extra: usize)
    requires
        old(emu).wf(),
        op is Implied,
    ensures
        final(emu).wf(),
        final(emu)@ == spec_pha(old(emu)@, op).0,
        extra == spec_pha(old(emu)@, op).1,
{
    let val = emu.regs.a;
    emu.push_on_stack(val);
    0
}

/// PHP handler.
pub fn php(emu: &mut Emulator, op: Operand) -> (extra: usize)
    requires
        old(emu).wf(),
        op is Implied,
    ensures
        final(emu).wf(),
        final(emu)@ == spec_php(old(emu)@, op).0,
        extra == spec_php(old(emu)@, op).1,
{
    let pushed = StatusRegister { break_command: true, ..emu.regs.flags }.to_byte();
    emu.push_on_stack(pushed);
    0
}

/// PLA handler.
pub fn pla(emu: &mut Emulator, op: Operand) -> (extra: usize)
    requires
        old(emu).wf(),
        op is Implied,
    ensures
        final(emu).wf(),
        final(emu)@ == spec_pla(old(emu)@, op).0,
        extra == spec_pla(old(emu)@, op).1,
{
    let val = emu.pop_stack();
    emu.set_a(val);
    0
}

/// PLP handler.
pub fn plp(emu: &mut Emulator, op: Operand) -> (extra: usize)
    requires
        old(emu).wf(),
        op is Implied,
    ensures
        final(emu).wf(),
        final(emu)@ == spec_plp(old(emu)@, op).0,
        extra == spec_plp(old(emu)@, op).1,
{
    let val = emu.pop_stack();
    emu.regs.flags = StatusRegister::from_byte(val);
    0
}

} // verus!
