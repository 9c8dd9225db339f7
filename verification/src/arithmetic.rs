//! Arithmetic instructions: ADC, SBC, the compares, increments and
//! decrements, and the unofficial DCP and ISC.
//!
//! ADC computes `A + M + C`; SBC is ADC of the one's complement.  The carry
//! is bit 8 of the sum, the overflow flag follows the sign-agreement rule
//! `(~(A^M) & (A^R) & 0x80) != 0`.  Compares set `C` for `reg >= M`
//! unsigned, `Z` on equality, and `N` from bit 7 of the difference.

use vstd::prelude::*;

use crate::cpu::{spec_dec8, spec_inc8, spec_zn};
use crate::emu::{EmuView, Emulator, Registers};
use crate::instructions::Operand;
use crate::load::spec_cross_cycles;
use crate::status::StatusRegister;

verus! {

/// The machine after `A + m + C`: `C` is bit 8 of the sum, `V` the
/// sign-agreement rule, `A` the low byte, `Z`/`N` from the new `A`.
pub open spec fn spec_adc_value(s: EmuView, m: u8) -> EmuView {
    let a = s.regs.a;
    let c: int = if s.regs.flags.carry {
        1
    } else {
        0
    };
    let temp = a as int + m as int + c;
    let res = (temp % 256) as u8;
    let carry = temp > 0xFF;
    let overflow = !(a ^ m) & (a ^ res) & 0x80 != 0;
    EmuView {
        regs: Registers {
            a: res,
            flags: StatusRegister {
                carry,
                overflow,
                ..spec_zn(s.regs.flags, res)
            },
            ..s.regs
        },
        ..s
    }
}

/// SBC is ADC of the one's complement of the operand.
pub open spec fn spec_sbc_value(s: EmuView, m: u8) -> EmuView {
    spec_adc_value(s, m ^ 0xFF)
}

/// Compare flags: `C` for `reg >= m` unsigned, `Z` on equality, `N` from
/// bit 7 of the wrapped difference.
pub open spec fn spec_cmp_value(s: EmuView, reg: u8, m: u8) -> EmuView {
    let diff = ((reg as int - m as int + 256) % 256) as u8;
    EmuView {
        regs: Registers {
            flags: StatusRegister {
                carry: reg >= m,
                zero: reg == m,
                negative: diff >= 128,
                ..s.regs.flags
            },
            ..s.regs
        },
        ..s
    }
}

/// ADC: add the operand's value with carry into `A`.
pub open spec fn spec_adc(s: EmuView, op: Operand) -> (EmuView, usize) {
    let (v, s1) = s.operand_value(op);
    (spec_adc_value(s1, v), spec_cross_cycles(s, op))
}

/// SBC: subtract the operand's value with borrow from `A`.
pub open spec fn spec_sbc(s: EmuView, op: Operand) -> (EmuView, usize) {
    let (v, s1) = s.operand_value(op);
    (spec_sbc_value(s1, v), spec_cross_cycles(s, op))
}

/// CMP: compare `A` with the operand's value.
pub open spec fn spec_cmp(s: EmuView, op: Operand) -> (EmuView, usize) {
    let (v, s1) = s.operand_value(op);
    (spec_cmp_value(s1, s1.regs.a, v), spec_cross_cycles(s, op))
}

/// CPX: compare `X` with the operand's value.
pub open spec fn spec_cpx(s: EmuView, op: Operand) -> (EmuView, usize) {
    let (v, s1) = s.operand_value(op);
    (spec_cmp_value(s1, s1.regs.x, v), 0)
}

/// CPY: compare `Y` with the operand's value.
pub open spec fn spec_cpy(s: EmuView, op: Operand) -> (EmuView, usize) {
    let (v, s1) = s.operand_value(op);
    (spec_cmp_value(s1, s1.regs.y, v), 0)
}

/// DEC: the byte at the operand's address steps down; `Z`/`N` follow.
pub open spec fn spec_dec(s: EmuView, op: Operand) -> (EmuView, usize) {
    let a = s.operand_address(op);
    let (v, s1) = s.bus_read(a);
    let nv = spec_dec8(v);
    (s1.zn_set(nv).bus_written(a, nv), 0)
}

/// INC: the byte at the operand's address steps up; `Z`/`N` follow.
pub open spec fn spec_inc(s: EmuView, op: Operand) -> (EmuView, usize) {
    let a = s.operand_address(op);
    let (v, s1) = s.bus_read(a);
    let nv = spec_inc8(v);
    (s1.zn_set(nv).bus_written(a, nv), 0)
}

/// DEX: `X` steps down; `Z`/`N` follow.
pub open spec fn spec_dex(s: EmuView, op: Operand) -> (EmuView, usize) {
    (s.x_set(spec_dec8(s.regs.x)), 0)
}

/// DEY: `Y` steps down; `Z`/`N` follow.
pub open spec fn spec_dey(s: EmuView, op: Operand) -> (EmuView, usize) {
    (s.y_set(spec_dec8(s.regs.y)), 0)
}

/// INX: `X` steps up; `Z`/`N` follow.
pub open spec fn spec_inx(s: EmuView, op: Operand) -> (EmuView, usize) {
    (s.x_set(spec_inc8(s.regs.x)), 0)
}

/// INY: `Y` steps up; `Z`/`N` follow.
pub open spec fn spec_iny(s: EmuView, op: Operand) -> (EmuView, usize) {
    (s.y_set(spec_inc8(s.regs.y)), 0)
}

/// DCP (unofficial): DEC the operand's byte, then CMP `A` against it.
pub open spec fn spec_dcp(s: EmuView, op: Operand) -> (EmuView, usize) {
    let a = s.operand_address(op);
    let (v, s1) = s.bus_read(a);
    let nv = spec_dec8(v);
    (spec_cmp_value(s1, s1.regs.a, nv).bus_written(a, nv), 0)
}

/// ISC (unofficial): INC the operand's byte, then SBC it from `A`.
pub open spec fn spec_isc(s: EmuView, op: Operand) -> (EmuView, usize) {
    let a = s.operand_address(op);
    let (v, s1) = s.bus_read(a);
    let nv = spec_inc8(v);
    (spec_sbc_value(s1, nv).bus_written(a, nv), 0)
}

/// The ADC core shared by ADC, SBC, ISC and RRA.
pub fn do_adc(emu: &mut Emulator, val: u8)
    requires
        old(emu).wf(),
    ensures
        final(emu).wf(),
        final(emu)@ == spec_adc_value(old(emu)@, val),
{
    let a = emu.regs.a;
    let carry_in: u16 = if emu.regs.flags.carry {
        1
    } else {
        0
    };
    let temp: u16 = a as u16 + val as u16 + carry_in;
    let new_a = (temp % 256) as u8;

    emu.regs.flags.carry = temp > 0xFF;
    emu.regs.flags.overflow = !(a ^ val) & (a ^ new_a) & 0x80 != 0;
    emu.set_a(new_a);
}

/// The SBC core: ADC of the complement.
fn do_sbc(emu: &mut Emulator, val: u8)
    requires
        old(emu).wf(),
    ensures
        final(emu).wf(),
        final(emu)@ == spec_sbc_value(old(emu)@, val),
{
    do_adc(emu, val ^ 0xFF);
}

/// The compare core.
fn do_cmp(emu: &mut Emulator, reg: u8, val: u8)
    requires
        old(emu).wf(),
    ensures
        final(emu).wf(),
        final(emu)@ == spec_cmp_value(old(emu)@, reg, val),
{
    let diff = reg.wrapping_sub(val);
    emu.regs.flags.carry = reg >= val;
    emu.regs.flags.zero = reg == val;
    emu.regs.flags.negative = diff >= 128;
}

/// ADC handler.
pub fn adc(emu: &mut Emulator, op: Operand) -> (extra: usize)
    requires
        old(emu).wf(),
        op.spec_has_value(),
    ensures
        final(emu).wf(),
        final(emu)@ == spec_adc(old(emu)@, op).0,
        extra == spec_adc(old(emu)@, op).1,
{
    let (val, crossed) = emu.get_val_from_operand_cross(op);
    do_adc(emu, val);
    if crossed {
        1
    } else {
        0
    }
}

/// SBC handler.
pub fn sbc(emu: &mut Emulator, op: Operand) -> (extra: usize)
    requires
        old(emu).wf(),
        op.spec_has_value(),
    ensures
        final(emu).wf(),
        final(emu)@ == spec_sbc(old(emu)@, op).0,
        extra == spec_sbc(old(emu)@, op).1,
{
    let (val, crossed) = emu.get_val_from_operand_cross(op);
    do_sbc(emu, val);
    if crossed {
        1
    } else {
        0
    }
}

/// CMP handler.
pub fn cmp(emu: &mut Emulator, op: Operand) -> (extra: usize)
    requires
        old(emu).wf(),
        op.spec_has_value(),
    ensures
        final(emu).wf(),
        final(emu)@ == spec_cmp(old(emu)@, op).0,
        extra == spec_cmp(old(emu)@, op).1,
{
    let (val, crossed) = emu.get_val_from_operand_cross(op);
    let reg = emu.regs.a;
    do_cmp(emu, reg, val);
    if crossed {
        1
    } else {
        0
    }
}

/// CPX handler.
pub fn cpx(emu: &mut Emulator, op: Operand) -> (extra: usize)
    requires
        old(emu).wf(),
        op.spec_has_value(),
    ensures
        final(emu).wf(),
        final(emu)@ == spec_cpx(old(emu)@, op).0,
        extra == spec_cpx(old(emu)@, op).1,
{
    let val = emu.get_val_from_operand(op);
    let reg = emu.regs.x;
    do_cmp(emu, reg, val);
    0
}

/// CPY handler.
pub fn cpy(emu: &mut Emulator, op: Operand) -> (extra: usize)
    requires
        old(emu).wf(),
        op.spec_has_value(),
    ensures
        final(emu).wf(),
        final(emu)@ == spec_cpy(old(emu)@, op).0,
        extra == spec_cpy(old(emu)@, op).1,
{
    let val = emu.get_val_from_operand(op);
    let reg = emu.regs.y;
    do_cmp(emu, reg, val);
    0
}

/// DEC handler.
pub fn dec(emu: &mut Emulator, op: Operand) -> (extra: usize)
    requires
        old(emu).wf(),
        op.spec_has_address(),
    ensures
        final(emu).wf(),
        final(emu)@ == spec_dec(old(emu)@, op).0,
        extra == spec_dec(old(emu)@, op).1,
{
    let addr = emu.get_addr_from_operand(op);
    let val = emu.read(addr);
    let new_val = val.wrapping_sub(1);
    emu.set_zero_and_negative_flags(new_val);
    emu.write(addr, new_val);
    0
}

/// INC handler.
pub fn inc(emu: &mut Emulator, op: Operand) -> (extra: usize)
    requires
        old(emu).wf(),
        op.spec_has_address(),
    ensures
        final(emu).wf(),
        final(emu)@ == spec_inc(old(emu)@, op).0,
        extra == spec_inc(old(emu)@, op).1,
{
    let addr = emu.get_addr_from_operand(op);
    let val = emu.read(addr);
    let new_val = val.wrapping_add(1);
    emu.set_zero_and_negative_flags(new_val);
    emu.write(addr, new_val);
    0
}

/// DEX handler.
pub fn dex(emu: &mut Emulator, op: Operand) -> (extra: usize)
    requires
        old(emu).wf(),
        op is Implied,
    ensures
        final(emu).wf(),
        final(emu)@ == spec_dex(old(emu)@, op).0,
        extra == spec_dex(old(emu)@, op).1,
{
    let val = emu.regs.x.wrapping_sub(1);
    emu.set_x(val);
    0
}

/// DEY handler.
pub fn dey(emu: &mut Emulator, op: Operand) -> (extra: usize)
    requires
        old(emu).wf(),
        op is Implied,
    ensures
        final(emu).wf(),
        final(emu)@ == spec_dey(old(emu)@, op).0,
        extra == spec_dey(old(emu)@, op).1,
{
    let val = emu.regs.y.wrapping_sub(1);
    emu.set_y(val);
    0
}

/// INX handler.
pub fn inx(emu: &mut Emulator, op: Operand) -> (extra: usize)
    requires
        old(emu).wf(),
        op is Implied,
    ensures
        final(emu).wf(),
        final(emu)@ == spec_inx(old(emu)@, op).0,
        extra == spec_inx(old(emu)@, op).1,
{
    let val = emu.regs.x.wrapping_add(1);
    emu.set_x(val);
    0
}

/// INY handler.
pub fn iny(emu: &mut Emulator, op: Operand) -> (extra: usize)
    requires
        old(emu).wf(),
        op is Implied,
    ensures
        final(emu).wf(),
        final(emu)@ == spec_iny(old(emu)@, op).0,
        extra == spec_iny(old(emu)@, op).1,
{
    let val = emu.regs.y.wrapping_add(1);
    emu.set_y(val);
    0
}

/// DCP handler.
pub fn dcp(emu: &mut Emulator, op: Operand) -> (extra: usize)
    requires
        old(emu).wf(),
        op.spec_has_address(),
    ensures
        final(emu).wf(),
        final(emu)@ == spec_dcp(old(emu)@, op).0,
        extra == spec_dcp(old(emu)@, op).1,
{
    let addr = emu.get_addr_from_operand(op);
    let val = emu.read(addr);
    let subbed = val.wrapping_sub(1);
    let reg = emu.regs.a;
    do_cmp(emu, reg, subbed);
    emu.write(addr, subbed);
    0
}

/// ISC handler.
pub fn isc(emu: &mut Emulator, op: Operand) -> (extra: usize)
    requires
        old(emu).wf(),
        op.spec_has_address(),
    ensures
        final(emu).wf(),
        final(emu)@ == spec_isc(old(emu)@, op).0,
        extra == spec_isc(old(emu)@, op).1,
{
    let addr = emu.get_addr_from_operand(op);
    let val = emu.read(addr);
    let added = val.wrapping_add(1);
    do_sbc(emu, added);
    emu.write(addr, added);
    0
}

} // verus!
