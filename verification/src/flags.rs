//! Flag instructions: CLC, CLD, CLI, CLV, SEC, SED, SEI.
//!
//! Each one sets or clears exactly one status flag and changes nothing else.

use vstd::prelude::*;

use crate::emu::{EmuView, Emulator, Registers};
use crate::instructions::Operand;
use crate::status::StatusRegister;

verus! {

/// CLC: the carry flag clears.
pub open spec fn spec_clc(s: EmuView, op: Operand) -> (EmuView, usize) {
    (
        EmuView {
            regs: Registers {
                flags: StatusRegister { carry: false, ..s.regs.flags },
                ..s.regs
            },
            ..s
        },
        0,
    )
}

/// CLD: the decimal flag clears.
pub open spec fn spec_cld(s: EmuView, op: Operand) -> (EmuView, usize) {
    (
        EmuView {
            regs: Registers {
                flags: StatusRegister { decimal: false, ..s.regs.flags },
                ..s.regs
            },
            ..s
        },
        0,
    )
}

/// CLI: the interrupt-disable flag clears.
pub open spec fn spec_cli(s: EmuView, op: Operand) -> (EmuView, usize) {
    (
        EmuView {
            regs: Registers {
                flags: StatusRegister { interrupt_disable: false, ..s.regs.flags },
                ..s.regs
            },
            ..s
        },
        0,
    )
}

/// CLV: the overflow flag clears.
pub open spec fn spec_clv(s: EmuView, op: Operand) -> (EmuView, usize) {
    (
        EmuView {
            regs: Registers {
                flags: StatusRegister { overflow: false, ..s.regs.flags },
                ..s.regs
            },
            ..s
        },
        0,
    )
}

/// SEC: the carry flag sets.
pub open spec fn spec_sec(s: EmuView, op: Operand) -> (EmuView, usize) {
    (
        EmuView {
            regs: Registers {
                flags: StatusRegister { carry: true, ..s.regs.flags },
                ..s.regs
            },
            ..s
        },
        0,
    )
}

/// SED: the decimal flag sets.
pub open spec fn spec_sed(s: EmuView, op: Operand) -> (EmuView, usize) {
    (
        EmuView {
            regs: Registers {
                flags: StatusRegister { decimal: true, ..s.regs.flags },
                ..s.regs
            },
            ..s
        },
        0,
    )
}

/// SEI: the interrupt-disable flag sets.
pub open spec fn spec_sei(s: EmuView, op: Operand) -> (EmuView, usize) {
    (
        EmuView {
            regs: Registers {
                flags: StatusRegister { interrupt_disable: true, ..s.regs.flags },
                ..s.regs
            },
            ..s
        },
        0,
    )
}

/// CLC handler.
pub fn clc(emu: &mut Emulator, op: Operand) -> (extra: usize)
    requires
        old(emu).wf(),
        op is Implied,
    ensures
        final(emu).wf(),
        final(emu)@ == spec_clc(old(emu)@, op).0,
        extra == spec_clc(old(emu)@, op).1,
{
    emu.regs.flags.carry = false;
    0
}

/// CLD handler.
pub fn cld(emu: &mut Emulator, op: Operand) -> (extra: usize)
    requires
        old(emu).wf(),
        op is Implied,
    ensures
        final(emu).wf(),
        final(emu)@ == spec_cld(old(emu)@, op).0,
        extra == spec_cld(old(emu)@, op).1,
{
    emu.regs.flags.decimal = false;
    0
}

/// CLI handler.
pub fn cli(emu: &mut Emulator, op: Operand) -> (extra: usize)
    requires
        old(emu).wf(),
        op is Implied,
    ensures
        final(emu).wf(),
        final(emu)@ == spec_cli(old(emu)@, op).0,
        extra == spec_cli(old(emu)@, op).1,
{
    emu.regs.flags.interrupt_disable = false;
    0
}

/// CLV handler.
pub fn clv(emu: &mut Emulator, op: Operand) -> (extra: usize)
    requires
        old(emu).wf(),
        op is Implied,
    ensures
        final(emu).wf(),
        final(emu)@ == spec_clv(old(emu)@, op).0,
        extra == spec_clv(old(emu)@, op).1,
{
    emu.regs.flags.overflow = false;
    0
}

/// SEC handler.
pub fn sec(emu: &mut Emulator, op: Operand) -> (extra: usize)
    requires
        old(emu).wf(),
        op is Implied,
    ensures
        final(emu).wf(),
        final(emu)@ == spec_sec(old(emu)@, op).0,
        extra == spec_sec(old(emu)@, op).1,
{
    emu.regs.flags.carry = true;
    0
}

/// SED handler.
pub fn sed(emu: &mut Emulator, op: Operand) -> (extra: usize)
    requires
        old(emu).wf(),
        op is Implied,
    ensures
        final(emu).wf(),
        final(emu)@ == spec_sed(old(emu)@, op).0,
        extra == spec_sed(old(emu)@, op).1,
{
    emu.regs.flags.decimal = true;
    0
}

/// SEI handler.
pub fn sei(emu: &mut Emulator, op: Operand) -> (extra: usize)
    requires
        old(emu).wf(),
        op is Implied,
    ensures
        final(emu).wf(),
        final(emu)@ == spec_sei(old(emu)@, op).0,
        extra == spec_sei(old(emu)@, op).1,
{
    emu.regs.flags.interrupt_disable = true;
    0
}

} // verus!
