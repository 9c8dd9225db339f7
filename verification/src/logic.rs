//! Logical and shift instructions: AND, ORA, EOR, BIT, the four shifts and
//! rotates, and the unofficial SLO, SRE, RLA, RRA.
//!
//! Shifts operate on `A` or on memory.  ASL and ROL take the carry from the
//! old bit 7, LSR and ROR from the old bit 0; ROL and ROR insert the old
//! carry at the vacated end.  `Z` comes from the result and `N` from its
//! bit 7 (always clear after LSR).

use vstd::prelude::*;

use crate::arithmetic::spec_adc_value;
use crate::cpu::spec_zn;
use crate::emu::{EmuView, Emulator, Registers};
use crate::instructions::Operand;
use crate::load::spec_cross_cycles;
use crate::status::StatusRegister;

verus! {

/// ASL of a byte: the shifted value and the carry out (old bit 7).
pub open spec fn spec_asl_val(v: u8) -> (u8, bool) {
    (((v as int * 2) % 256) as u8, v >= 128)
}

/// LSR of a byte: the shifted value and the carry out (old bit 0).
pub open spec fn spec_lsr_val(v: u8) -> (u8, bool) {
    ((v / 2) as u8, v % 2 == 1)
}

/// ROL of a byte: the old carry enters bit 0, old bit 7 leaves as carry.
pub open spec fn spec_rol_val(v: u8, c: bool) -> (u8, bool) {
    ((((v as int * 2) + (if c {
        1int
    } else {
        0int
    })) % 256) as u8, v >= 128)
}

/// ROR of a byte: the old carry enters bit 7, old bit 0 leaves as carry.
pub open spec fn spec_ror_val(v: u8, c: bool) -> (u8, bool) {
    (((v as int / 2) + (if c {
        128int
    } else {
        0int
    })) as u8, v % 2 == 1)
}

/// The machine with carry, `Z` and `N` set from a shift result.
pub open spec fn spec_shift_flags(s: EmuView, nv: u8, carry: bool) -> EmuView {
    EmuView {
        regs: Registers {
            flags: StatusRegister { carry, ..spec_zn(s.regs.flags, nv) },
            ..s.regs
        },
        ..s
    }
}

/// The machine after a shift on the accumulator: `A` takes the result,
/// carry/`Z`/`N` follow.
pub open spec fn spec_shift_acc(s: EmuView, nv: u8, carry: bool) -> EmuView {
    EmuView {
        regs: Registers {
            a: nv,
            flags: StatusRegister { carry, ..spec_zn(s.regs.flags, nv) },
            ..s.regs
        },
        ..s
    }
}

/// ASL: shift left; `C` from old bit 7.
pub open spec fn spec_asl(s: EmuView, op: Operand) -> (EmuView, usize) {
    match op {
        Operand::Accumulator => {
            let (nv, carry) = spec_asl_val(s.regs.a);
            (spec_shift_acc(s, nv, carry), 0)
        },
        _ => {
            let a = s.operand_address(op);
            let (v, s1) = s.bus_read(a);
            let (nv, carry) = spec_asl_val(v);
            (spec_shift_flags(s1, nv, carry).bus_written(a, nv), 0)
        },
    }
}

/// LSR: shift right; `C` from old bit 0, `N` always clear.
pub open spec fn spec_lsr(s: EmuView, op: Operand) -> (EmuView, usize) {
    match op {
        Operand::Accumulator => {
            let (nv, carry) = spec_lsr_val(s.regs.a);
            (spec_shift_acc(s, nv, carry), 0)
        },
        _ => {
            let a = s.operand_address(op);
            let (v, s1) = s.bus_read(a);
            let (nv, carry) = spec_lsr_val(v);
            (spec_shift_flags(s1, nv, carry).bus_written(a, nv), 0)
        },
    }
}

/// ROL: rotate left through carry.
pub open spec fn spec_rol(s: EmuView, op: Operand) -> (EmuView, usize) {
    match op {
        Operand::Accumulator => {
            let (nv, carry) = spec_rol_val(s.regs.a, s.regs.flags.carry);
            (spec_shift_acc(s, nv, carry), 0)
        },
        _ => {
            let a = s.operand_address(op);
            let (v, s1) = s.bus_read(a);
            let (nv, carry) = spec_rol_val(v, s1.regs.flags.carry);
            (spec_shift_flags(s1, nv, carry).bus_written(a, nv), 0)
        },
    }
}

/// ROR: rotate right through carry.
pub open spec fn spec_ror(s: EmuView, op: Operand) -> (EmuView, usize) {
    match op {
        Operand::Accumulator => {
            let (nv, carry) = spec_ror_val(s.regs.a, s.regs.flags.carry);
            (spec_shift_acc(s, nv, carry), 0)
        },
        _ => {
            let a = s.operand_address(op);
            let (v, s1) = s.bus_read(a);
            let (nv, carry) = spec_ror_val(v, s1.regs.flags.carry);
            (spec_shift_flags(s1, nv, carry).bus_written(a, nv), 0)
        },
    }
}

/// AND: `A & M` into `A`; `Z`/`N` follow.
pub open spec fn spec_and(s: EmuView, op: Operand) -> (EmuView, usize) {
    let (v, s1) = s.operand_value(op);
    (s1.a_set(v & s1.regs.a), spec_cross_cycles(s, op))
}

/// EOR: `A ^ M` into `A`; `Z`/`N` follow.
pub open spec fn spec_eor(s: EmuView, op: Operand) -> (EmuView, usize) {
    let (v, s1) = s.operand_value(op);
    (s1.a_set(v ^ s1.regs.a), spec_cross_cycles(s, op))
}

/// ORA: `A | M` into `A`; `Z`/`N` follow.
pub open spec fn spec_ora(s: EmuView, op: Operand) -> (EmuView, usize) {
    let (v, s1) = s.operand_value(op);
    (s1.a_set(v | s1.regs.a), spec_cross_cycles(s, op))
}

/// BIT: `Z` from `A & M`, `N` from bit 7 of `M`, `V` from bit 6 of `M`.
pub open spec fn spec_bit(s: EmuView, op: Operand) -> (EmuView, usize) {
    let (v, s1) = s.operand_value(op);
    (
        EmuView {
            regs: Registers {
                flags: StatusRegister {
                    zero: v & s1.regs.a == 0,
                    negative: v >= 128,
                    overflow: (v / 64) % 2 == 1,
                    ..s1.regs.flags
                },
                ..s1.regs
            },
            ..s1
        },
        0,
    )
}

/// SLO (unofficial): ASL the operand's byte, then ORA it into `A`.
pub open spec fn spec_slo(s: EmuView, op: Operand) -> (EmuView, usize) {
    let a = s.operand_address(op);
    let (v, s1) = s.bus_read(a);
    let (nv, carry) = spec_asl_val(v);
    let s2 = EmuView {
        regs: Registers {
            flags: StatusRegister { carry, ..s1.regs.flags },
            ..s1.regs
        },
        ..s1
    };
    (s2.a_set(s2.regs.a | nv).bus_written(a, nv), 0)
}

/// SRE (unofficial): LSR the operand's byte, then EOR it into `A`.
pub open spec fn spec_sre(s: EmuView, op: Operand) -> (EmuView, usize) {
    let a = s.operand_address(op);
    let (v, s1) = s.bus_read(a);
    let (nv, carry) = spec_lsr_val(v);
    let s2 = EmuView {
        regs: Registers {
            flags: StatusRegister { carry, ..s1.regs.flags },
            ..s1.regs
        },
        ..s1
    };
    (s2.a_set(s2.regs.a ^ nv).bus_written(a, nv), 0)
}

/// RLA (unofficial): ROL the operand's byte, then AND it into `A`.
pub open spec fn spec_rla(s: EmuView, op: Operand) -> (EmuView, usize) {
    let a = s.operand_address(op);
    let (v, s1) = s.bus_read(a);
    let (nv, carry) = spec_rol_val(v, s1.regs.flags.carry);
    let s2 = spec_shift_flags(s1, nv, carry);
    (s2.a_set(s2.regs.a & nv).bus_written(a, nv), 0)
}

/// RRA (unofficial): ROR the operand's byte, then ADC it into `A` with the
/// carry the rotate produced.
pub open spec fn spec_rra(s: EmuView, op: Operand) -> (EmuView, usize) {
    let a = s.operand_address(op);
    let (v, s1) = s.bus_read(a);
    let (nv, carry) = spec_ror_val(v, s1.regs.flags.carry);
    let s2 = spec_shift_flags(s1, nv, carry);
    (spec_adc_value(s2, nv).bus_written(a, nv), 0)
}

/// The ROL core: rotate `val` left through the current carry and set `C`,
/// `Z`, `N` from the result.
fn rotate_left(emu: &mut Emulator, val: u8) -> (r: u8)
    requires
        old(emu).wf(),
    ensures
        final(emu).wf(),
        r == spec_rol_val(val, old(emu).regs.flags.carry).0,
        final(emu)@ == spec_shift_flags(
            old(emu)@,
            spec_rol_val(val, old(emu).regs.flags.carry).0,
            spec_rol_val(val, old(emu).regs.flags.carry).1,
        ),
{
    let carry_in: u16 = if emu.regs.flags.carry {
        1
    } else {
        0
    };
    let new_val = ((val as u16 * 2 + carry_in) % 256) as u8;
    emu.regs.flags.carry = val >= 128;
    emu.set_zero_and_negative_flags(new_val);
    new_val
}

/// The ROR core: rotate `val` right through the current carry and set `C`,
/// `Z`, `N` from the result.
fn rotate_right(emu: &mut Emulator, val: u8) -> (r: u8)
    requires
        old(emu).wf(),
    ensures
        final(emu).wf(),
        r == spec_ror_val(val, old(emu).regs.flags.carry).0,
        final(emu)@ == spec_shift_flags(
            old(emu)@,
            spec_ror_val(val, old(emu).regs.flags.carry).0,
            spec_ror_val(val, old(emu).regs.flags.carry).1,
        ),
{
    let carry_in: u8 = if emu.regs.flags.carry {
        128
    } else {
        0
    };
    let new_val = val / 2 + carry_in;
    emu.regs.flags.carry = val % 2 == 1;
    emu.set_zero_and_negative_flags(new_val);
    new_val
}

/// ASL handler.
#[verifier::rlimit(100)]
pub fn asl(emu: &mut Emulator, op: Operand) -> (extra: usize)
    requires
        old(emu).wf(),
        op is Accumulator || op.spec_has_address(),
    ensures
        final(emu).wf(),
        final(emu)@ == spec_asl(old(emu)@, op).0,
        extra == spec_asl(old(emu)@, op).1,
{
    match op {
        Operand::Accumulator => {
            let val = emu.regs.a;
            let new_val = ((val as u16 * 2) % 256) as u8;
            emu.regs.a = new_val;
            emu.regs.flags.carry = val >= 128;
            emu.set_zero_and_negative_flags(new_val);
        },
        _ => {
            let addr = emu.get_addr_from_operand(op);
            let val = emu.read(addr);
            let new_val = ((val as u16 * 2) % 256) as u8;
            emu.regs.flags.carry = val >= 128;
            emu.set_zero_and_negative_flags(new_val);
            emu.write(addr, new_val);
        },
    }
    0
}

/// LSR handler.
pub fn lsr(emu: &mut Emulator, op: Operand) -> (extra: usize)
    requires
        old(emu).wf(),
        op is Accumulator || op.spec_has_address(),
    ensures
        final(emu).wf(),
        final(emu)@ == spec_lsr(old(emu)@, op).0,
        extra == spec_lsr(old(emu)@, op).1,
{
    match op {
        Operand::Accumulator => {
            let val = emu.regs.a;
            let new_val = val / 2;
            emu.regs.a = new_val;
            emu.regs.flags.carry = val % 2 == 1;
            emu.set_zero_and_negative_flags(new_val);
        },
        _ => {
            let addr = emu.get_addr_from_operand(op);
            let val = emu.read(addr);
            let new_val = val / 2;
            emu.regs.flags.carry = val % 2 == 1;
            emu.set_zero_and_negative_flags(new_val);
            emu.write(addr, new_val);
        },
    }
    0
}

/// ROL handler.
pub fn rol(emu: &mut Emulator, op: Operand) -> (extra: usize)
    requires
        old(emu).wf(),
        op is Accumulator || op.spec_has_address(),
    ensures
        final(emu).wf(),
        final(emu)@ == spec_rol(old(emu)@, op).0,
        extra == spec_rol(old(emu)@, op).1,
{
    match op {
        Operand::Accumulator => {
            let val = emu.regs.a;
            let rotated = rotate_left(emu, val);
            emu.regs.a = rotated;
        },
        _ => {
            let addr = emu.get_addr_from_operand(op);
            let val = emu.read(addr);
            let rotated = rotate_left(emu, val);
            emu.write(addr, rotated);
        },
    }
    0
}

/// ROR handler.
pub fn ror(emu: &mut Emulator, op: Operand) -> (extra: usize)
    requires
        old(emu).wf(),
        op is Accumulator || op.spec_has_address(),
    ensures
        final(emu).wf(),
        final(emu)@ == spec_ror(old(emu)@, op).0,
        extra == spec_ror(old(emu)@, op).1,
{
    match op {
        Operand::Accumulator => {
            let val = emu.regs.a;
            let rotated = rotate_right(emu, val);
            emu.regs.a = rotated;
        },
        _ => {
            let addr = emu.get_addr_from_operand(op);
            let val = emu.read(addr);
            let rotated = rotate_right(emu, val);
            emu.write(addr, rotated);
        },
    }
    0
}

/// AND handler.
pub fn and(emu: &mut Emulator, op: Operand) -> (extra: usize)
    requires
        old(emu).wf(),
        op.spec_has_value(),
    ensures
        final(emu).wf(),
        final(emu)@ == spec_and(old(emu)@, op).0,
        extra == spec_and(old(emu)@, op).1,
{
    let (val, crossed) = emu.get_val_from_operand_cross(op);
    let new_val = val & emu.regs.a;
    emu.set_a(new_val);
    if crossed {
        1
    } else {
        0
    }
}

/// EOR handler.
pub fn eor(emu: &mut Emulator, op: Operand) -> (extra: usize)
    requires
        old(emu).wf(),
        op.spec_has_value(),
    ensures
        final(emu).wf(),
        final(emu)@ == spec_eor(old(emu)@, op).0,
        extra == spec_eor(old(emu)@, op).1,
{
    let (val, crossed) = emu.get_val_from_operand_cross(op);
    let new_val = val ^ emu.regs.a;
    emu.set_a(new_val);
    if crossed {
        1
    } else {
        0
    }
}

/// ORA handler.
pub fn ora(emu: &mut Emulator, op: Operand) -> (extra: usize)
    requires
        old(emu).wf(),
        op.spec_has_value(),
    ensures
        final(emu).wf(),
        final(emu)@ == spec_ora(old(emu)@, op).0,
        extra == spec_ora(old(emu)@, op).1,
{
    let (val, crossed) = emu.get_val_from_operand_cross(op);
    let new_val = val | emu.regs.a;
    emu.set_a(new_val);
    if crossed {
        1
    } else {
        0
    }
}

/// BIT handler.
pub fn bit(emu: &mut Emulator, op: Operand) -> (extra: usize)
    requires
        old(emu).wf(),
        op.spec_has_value(),
    ensures
        final(emu).wf(),
        final(emu)@ == spec_bit(old(emu)@, op).0,
        extra == spec_bit(old(emu)@, op).1,
{
    let val = emu.get_val_from_operand(op);
    emu.regs.flags.negative = val >= 128;
    emu.regs.flags.overflow = (val / 64) % 2 == 1;
    emu.regs.flags.zero = val & emu.regs.a == 0;
    0
}

/// SLO handler.
pub fn slo(emu: &mut Emulator, op: Operand) -> (extra: usize)
    requires
        old(emu).wf(),
        op.spec_has_address(),
    ensures
        final(emu).wf(),
        final(emu)@ == spec_slo(old(emu)@, op).0,
        extra == spec_slo(old(emu)@, op).1,
{
    let addr = emu.get_addr_from_operand(op);
    let val = emu.read(addr);
    let new_val = ((val as u16 * 2) % 256) as u8;
    emu.regs.flags.carry = val >= 128;
    let res = emu.regs.a | new_val;
    emu.set_a(res);
    emu.write(addr, new_val);
    0
}

/// SRE handler.
pub fn sre(emu: &mut Emulator, op: Operand) -> (extra: usize)
    requires
        old(emu).wf(),
        op.spec_has_address(),
    ensures
        final(emu).wf(),
        final(emu)@ == spec_sre(old(emu)@, op).0,
        extra == spec_sre(old(emu)@, op).1,
{
    let addr = emu.get_addr_from_operand(op);
    let val = emu.read(addr);
    let new_val = val / 2;
    emu.regs.flags.carry = val % 2 == 1;
    let res = emu.regs.a ^ new_val;
    emu.set_a(res);
    emu.write(addr, new_val);
    0
}

/// RLA handler.
pub fn rla(emu: &mut Emulator, op: Operand) -> (extra: usize)
    requires
        old(emu).wf(),
        op.spec_has_address(),
    ensures
        final(emu).wf(),
        final(emu)@ == spec_rla(old(emu)@, op).0,
        extra == spec_rla(old(emu)@, op).1,
{
    let addr = emu.get_addr_from_operand(op);
    let val = emu.read(addr);
    let new_val = rotate_left(emu, val);
    let new_acc = emu.regs.a & new_val;
    emu.set_a(new_acc);
    emu.write(addr, new_val);
    0
}

/// RRA handler.
pub fn rra(emu: &mut Emulator, op: Operand) -> (extra: usize)
    requires
        old(emu).wf(),
        op.spec_has_address(),
    ensures
        final(emu).wf(),
        final(emu)@ == spec_rra(old(emu)@, op).0,
        extra == spec_rra(old(emu)@, op).1,
{
    let addr = emu.get_addr_from_operand(op);
    let val = emu.read(addr);
    let new_val = rotate_right(emu, val);
    crate::arithmetic::do_adc(emu, new_val);
    emu.write(addr, new_val);
    0
}

} // verus!
