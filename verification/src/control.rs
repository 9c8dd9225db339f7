//! Control-flow instructions: BRK, JMP, JSR, RTS, RTI.
//!
//! JSR pushes the address of its own last byte (`pc - 1` after the advance);
//! RTS adds one back.  BRK pushes `pc + 1`, then the status with `B` set,
//! sets `I`, and enters through the vector at `0xFFFE`.  Indirect JMP goes
//! through the page-wrapped fetch.

use vstd::prelude::*;

use crate::cpu::spec_w16;
use crate::emu::{EmuView, Emulator, Registers};
use crate::instructions::Operand;
use crate::stack::spec_php_byte;
use crate::status::StatusRegister;

verus! {

/// BRK: push `pc + 1` high then low, push the status with `B` and bit 5
/// set, set `I`, and load `pc` from the vector at `0xFFFE`.
pub open spec fn spec_brk(s: EmuView, op: Operand) -> (EmuView, usize) {
    let ret = spec_w16(s.regs.pc as int + 1);
    let s1 = s.pushed((ret as int / 256) as u8);
    let s2 = s1.pushed((ret as int % 256) as u8);
    let s3 = s2.pushed(spec_php_byte(s2.regs.flags));
    let s4 = EmuView {
        regs: Registers {
            flags: StatusRegister { interrupt_disable: true, ..s3.regs.flags },
            ..s3.regs
        },
        ..s3
    };
    let (lo, s5) = s4.bus_read(0xFFFE);
    let (hi, s6) = s5.bus_read(0xFFFF);
    (
        EmuView {
            regs: Registers { pc: (hi as int * 256 + lo as int) as u16, ..s6.regs },
            ..s6
        },
        0,
    )
}

/// JMP: absolute sets `pc` to the operand; indirect goes through the
/// page-wrapped pointer fetch.
pub open spec fn spec_jmp(s: EmuView, op: Operand) -> (EmuView, usize) {
    match op {
        Operand::Absolute(addr) => (
            EmuView { regs: Registers { pc: addr, ..s.regs }, ..s },
            0,
        ),
        Operand::AbsoluteIndirect(addr) => {
            let (target, s1) = s.indirect_wrapped(addr);
            (EmuView { regs: Registers { pc: target, ..s1.regs }, ..s1 }, 0)
        },
        _ => (s, 0),
    }
}

/// JSR: push `pc - 1` high then low, then jump to the operand.
pub open spec fn spec_jsr(s: EmuView, op: Operand) -> (EmuView, usize) {
    let ret = spec_w16(s.regs.pc as int + 0xFFFF);
    let s1 = s.pushed((ret as int / 256) as u8);
    let s2 = s1.pushed((ret as int % 256) as u8);
    (
        EmuView { regs: Registers { pc: op->Absolute_0, ..s2.regs }, ..s2 },
        0,
    )
}

/// RTS: pull low then high, and resume at the pulled address plus one.
pub open spec fn spec_rts(s: EmuView, op: Operand) -> (EmuView, usize) {
    let (lo, s1) = s.popped();
    let (hi, s2) = s1.popped();
    (
        EmuView {
            regs: Registers {
                pc: spec_w16(hi as int * 256 + lo as int + 1),
                ..s2.regs
            },
            ..s2
        },
        0,
    )
}

/// RTI: pull the status (with `B` cleared and bit 5 forced on observation),
/// then pull low and high, and resume at the pulled address.
pub open spec fn spec_rti(s: EmuView, op: Operand) -> (EmuView, usize) {
    let (p, s1) = s.popped();
    let s1f = EmuView {
        regs: Registers { flags: StatusRegister::spec_from_byte(p), ..s1.regs },
        ..s1
    };
    let (lo, s2) = s1f.popped();
    let (hi, s3) = s2.popped();
    (
        EmuView {
            regs: Registers { pc: (hi as int * 256 + lo as int) as u16, ..s3.regs },
            ..s3
        },
        0,
    )
}

/// BRK handler.
#[verifier::rlimit(100)]
pub fn brk(emu: &mut Emulator, op: Operand) -> (extra: usize)
    requires
        old(emu).wf(),
        op is Implied,
    ensures
        final(emu).wf(),
        final(emu)@ == spec_brk(old(emu)@, op).0,
        extra == spec_brk(old(emu)@, op).1,
{
    let ret = emu.regs.pc.wrapping_add(1);
    emu.push_on_stack((ret / 256) as u8);
    emu.push_on_stack((ret % 256) as u8);
    let pushed = StatusRegister { break_command: true, ..emu.regs.flags }.to_byte();
    emu.push_on_stack(pushed);
    emu.regs.flags.interrupt_disable = true;
    let lo = emu.read(0xFFFE);
    let hi = emu.read(0xFFFF);
    emu.regs.pc = hi as u16 * 256 + lo as u16;
    0
}

/// JMP handler.
pub fn jmp(emu: &mut Emulator, op: Operand) -> (extra: usize)
    requires
        old(emu).wf(),
        op is Absolute || op is AbsoluteIndirect,
    ensures
        final(emu).wf(),
        final(emu)@ == spec_jmp(old(emu)@, op).0,
        extra == spec_jmp(old(emu)@, op).1,
{
    match op {
        Operand::Absolute(addr) => {
            emu.regs.pc = addr;
        },
        Operand::AbsoluteIndirect(addr) => {
            let target = emu.get_indirect_address_wrapping(addr);
            emu.regs.pc = target;
        },
        _ => {},
    }
    0
}

/// JSR handler.
pub fn jsr(emu: &mut Emulator, op: Operand) -> (extra: usize)
    requires
        old(emu).wf(),
        op is Absolute,
    ensures
        final(emu).wf(),
        final(emu)@ == spec_jsr(old(emu)@, op).0,
        extra == spec_jsr(old(emu)@, op).1,
{
    match op {
        Operand::Absolute(addr) => {
            let ret = emu.regs.pc.wrapping_sub(1);
            emu.push_on_stack((ret / 256) as u8);
            emu.push_on_stack((ret % 256) as u8);
            emu.regs.pc = addr;
        },
        _ => {},
    }
    0
}

/// RTS handler.
pub fn rts(emu: &mut Emulator, op: Operand) -> (extra: usize)
    requires
        old(emu).wf(),
        op is Implied,
    ensures
        final(emu).wf(),
        final(emu)@ == spec_rts(old(emu)@, op).0,
        extra == spec_rts(old(emu)@, op).1,
{
    let lo = emu.pop_stack();
    let hi = emu.pop_stack();
    emu.regs.pc = (hi as u16 * 256 + lo as u16).wrapping_add(1);
    0
}

/// RTI handler.
pub fn rti(emu: &mut Emulator, op: Operand) -> (extra: usize)
    requires
        old(emu).wf(),
        op is Implied,
    ensures
        final(emu).wf(),
        final(emu)@ == spec_rti(old(emu)@, op).0,
        extra == spec_rti(old(emu)@, op).1,
{
    let status = emu.pop_stack();
    emu.regs.flags = StatusRegister::from_byte(status);
    let lo = emu.pop_stack();
    let hi = emu.pop_stack();
    emu.regs.pc = hi as u16 * 256 + lo as u16;
    0
}

} // verus!
