//! The 6502 instruction set: addressing modes, decoded operands, and the
//! 256-entry dispatch table.
//!
//! Each opcode maps to a record of mnemonic, addressing mode, instruction
//! length in bytes and base cycle count, or to nothing for the slots the CPU
//! treats as fatal.  The table exists once as a spec function, which the
//! step contract is stated against, and once as executable code proved equal
//! to it.

use vstd::prelude::*;

verus! {

/// The thirteen addressing modes of the 6502.
#[derive(Clone, Copy, Debug, PartialEq, Eq, Structural)]
pub enum AddressingMode {
    Accumulator,
    Implied,
    Immediate,
    Absolute,
    ZeroPage,
    Relative,
    AbsoluteIndirect,
    AbsoluteIndexedX,
    AbsoluteIndexedY,
    ZeroPageIndexedX,
    ZeroPageIndexedY,
    ZeroPageIndexedXIndirect,
    ZeroPageIndirectIndexedY,
}

/// A decoded operand: the bytes following the opcode, interpreted by the
/// instruction's addressing mode.
#[derive(Clone, Copy, Debug, PartialEq, Eq, Structural)]
pub enum Operand {
    Accumulator,
    Implied,
    Immediate(u8),
    Absolute(u16),
    ZeroPage(u8),
    Relative(u8),
    AbsoluteIndirect(u16),
    AbsoluteIndexedX(u16),
    AbsoluteIndexedY(u16),
    ZeroPageIndexedX(u8),
    ZeroPageIndexedY(u8),
    ZeroPageIndexedXIndirect(u8),
    ZeroPageIndirectIndexedY(u8),
}

/// Every implemented instruction, official and unofficial.
#[derive(Clone, Copy, Debug, PartialEq, Eq, Structural)]
pub enum Mnemonic {

    Adc,
    And,
    Asl,
    Bcc,
    Bcs,
    Beq,
    Bit,
    Bmi,
    Bne,
    Bpl,
    Brk,
    Bvc,
    Bvs,
    Clc,
    Cld,
    Cli,
    Clv,
    Cmp,
    Cpx,
    Cpy,
    Dcp,
    Dec,
    Dex,
    Dey,
    Eor,
    Inc,
    Inx,
    Iny,
    Isc,
    Jmp,
    Jsr,
    Lax,
    Lda,
    Ldx,
    Ldy,
    Lsr,
    Nop,
    Ora,
    Pha,
    Php,
    Pla,
    Plp,
    Rla,
    Rol,
    Ror,
    Rra,
    Rti,
    Rts,
    Sax,
    Sbc,
    Sec,
    Sed,
    Sei,
    Slo,
    Sre,
    Sta,
    Stx,
    Sty,
    Tax,
    Tay,
    Tsx,
    Txa,
    Txs,
    Tya,
}

/// One entry of the dispatch table.
#[derive(Clone, Copy, Debug, PartialEq, Eq, Structural)]
pub struct Instruction {
    pub mnemonic: Mnemonic,
    pub addressing_mode: AddressingMode,
    /// Instruction length in bytes, 1 to 3; the program counter advances by
    /// this before the handler runs.
    pub bytes: u16,
    /// Base cycle count; page crossings and taken branches add to it.
    pub cycles: usize,
    /// Set on the implemented unofficial opcodes.
    pub unofficial: bool,
}

impl Instruction {
    /// Builds a table entry.
    pub fn new(
        mnemonic: Mnemonic,
        addressing_mode: AddressingMode,
        bytes: u16,
        cycles: usize,
        unofficial: bool,
    ) -> (r: Instruction)
        ensures
            r == (Instruction { mnemonic, addressing_mode, bytes, cycles, unofficial }),
    {
        Instruction { mnemonic, addressing_mode, bytes, cycles, unofficial }
    }
}

/// Table entries for opcodes `0x0` to `0x3f`.
pub open spec fn spec_decode_q0(opcode: u8) -> Option<Instruction> {
    if opcode == 0x00 {
        Some(Instruction { mnemonic: Mnemonic::Brk, addressing_mode: AddressingMode::Implied, bytes: 1, cycles: 7, unofficial: false })
    } else if opcode == 0x01 {
        Some(Instruction { mnemonic: Mnemonic::Ora, addressing_mode: AddressingMode::ZeroPageIndexedXIndirect, bytes: 2, cycles: 6, unofficial: false })
    } else if opcode == 0x02 {
        None
    } else if opcode == 0x03 {
        Some(Instruction { mnemonic: Mnemonic::Slo, addressing_mode: AddressingMode::ZeroPageIndexedXIndirect, bytes: 2, cycles: 8, unofficial: true })
    } else if opcode == 0x04 {
        Some(Instruction { mnemonic: Mnemonic::Nop, addressing_mode: AddressingMode::ZeroPage, bytes: 2, cycles: 3, unofficial: true })
    } else if opcode == 0x05 {
        Some(Instruction { mnemonic: Mnemonic::Ora, addressing_mode: AddressingMode::ZeroPage, bytes: 2, cycles: 3, unofficial: false })
    } else if opcode == 0x06 {
        Some(Instruction { mnemonic: Mnemonic::Asl, addressing_mode: AddressingMode::ZeroPage, bytes: 2, cycles: 5, unofficial: false })
    } else if opcode == 0x07 {
        Some(Instruction { mnemonic: Mnemonic::Slo, addressing_mode: AddressingMode::ZeroPage, bytes: 2, cycles: 5, unofficial: true })
    } else if opcode == 0x08 {
        Some(Instruction { mnemonic: Mnemonic::Php, addressing_mode: AddressingMode::Implied, bytes: 1, cycles: 3, unofficial: false })
    } else if opcode == 0x09 {
        Some(Instruction { mnemonic: Mnemonic::Ora, addressing_mode: AddressingMode::Immediate, bytes: 2, cycles: 2, unofficial: false })
    } else if opcode == 0x0a {
        Some(Instruction { mnemonic: Mnemonic::Asl, addressing_mode: AddressingMode::Accumulator, bytes: 1, cycles: 2, unofficial: false })
    } else if opcode == 0x0b {
        None
    } else if opcode == 0x0c {
        Some(Instruction { mnemonic: Mnemonic::Nop, addressing_mode: AddressingMode::Absolute, bytes: 3, cycles: 4, unofficial: true })
    } else if opcode == 0x0d {
        Some(Instruction { mnemonic: Mnemonic::Ora, addressing_mode: AddressingMode::Absolute, bytes: 3, cycles: 4, unofficial: false })
    } else if opcode == 0x0e {
        Some(Instruction { mnemonic: Mnemonic::Asl, addressing_mode: AddressingMode::Absolute, bytes: 3, cycles: 6, unofficial: false })
    } else if opcode == 0x0f {
        Some(Instruction { mnemonic: Mnemonic::Slo, addressing_mode: AddressingMode::Absolute, bytes: 3, cycles: 6, unofficial: true })
    } else if opcode == 0x10 {
        Some(Instruction { mnemonic: Mnemonic::Bpl, addressing_mode: AddressingMode::Relative, bytes: 2, cycles: 2, unofficial: false })
    } else if opcode == 0x11 {
        Some(Instruction { mnemonic: Mnemonic::Ora, addressing_mode: AddressingMode::ZeroPageIndirectIndexedY, bytes: 2, cycles: 5, unofficial: false })
    } else if opcode == 0x12 {
        None
    } else if opcode == 0x13 {
        Some(Instruction { mnemonic: Mnemonic::Slo, addressing_mode: AddressingMode::ZeroPageIndirectIndexedY, bytes: 2, cycles: 8, unofficial: true })
    } else if opcode == 0x14 {
        Some(Instruction { mnemonic: Mnemonic::Nop, addressing_mode: AddressingMode::ZeroPageIndexedX, bytes: 2, cycles: 4, unofficial: true })
    } else if opcode == 0x15 {
        Some(Instruction { mnemonic: Mnemonic::Ora, addressing_mode: AddressingMode::ZeroPageIndexedX, bytes: 2, cycles: 4, unofficial: false })
    } else if opcode == 0x16 {
        Some(Instruction { mnemonic: Mnemonic::Asl, addressing_mode: AddressingMode::ZeroPageIndexedX, bytes: 2, cycles: 6, unofficial: false })
    } else if opcode == 0x17 {
        Some(Instruction { mnemonic: Mnemonic::Slo, addressing_mode: AddressingMode::ZeroPageIndexedX, bytes: 2, cycles: 6, unofficial: true })
    } else if opcode == 0x18 {
        Some(Instruction { mnemonic: Mnemonic::Clc, addressing_mode: AddressingMode::Implied, bytes: 1, cycles: 2, unofficial: false })
    } else if opcode == 0x19 {
        Some(Instruction { mnemonic: Mnemonic::Ora, addressing_mode: AddressingMode::AbsoluteIndexedY, bytes: 3, cycles: 4, unofficial: false })
    } else if opcode == 0x1a {
        Some(Instruction { mnemonic: Mnemonic::Nop, addressing_mode: AddressingMode::Implied, bytes: 1, cycles: 2, unofficial: true })
    } else if opcode == 0x1b {
        Some(Instruction { mnemonic: Mnemonic::Slo, addressing_mode: AddressingMode::AbsoluteIndexedY, bytes: 3, cycles: 7, unofficial: true })
    } else if opcode == 0x1c {
        Some(Instruction { mnemonic: Mnemonic::Nop, addressing_mode: AddressingMode::AbsoluteIndexedX, bytes: 3, cycles: 4, unofficial: true })
    } else if opcode == 0x1d {
        Some(Instruction { mnemonic: Mnemonic::Ora, addressing_mode: AddressingMode::AbsoluteIndexedX, bytes: 3, cycles: 4, unofficial: false })
    } else if opcode == 0x1e {
        Some(Instruction { mnemonic: Mnemonic::Asl, addressing_mode: AddressingMode::AbsoluteIndexedX, bytes: 3, cycles: 7, unofficial: false })
    } else if opcode == 0x1f {
        Some(Instruction { mnemonic: Mnemonic::Slo, addressing_mode: AddressingMode::AbsoluteIndexedX, bytes: 3, cycles: 7, unofficial: true })
    } else if opcode == 0x20 {
        Some(Instruction { mnemonic: Mnemonic::Jsr, addressing_mode: AddressingMode::Absolute, bytes: 3, cycles: 6, unofficial: false })
    } else if opcode == 0x21 {
        Some(Instruction { mnemonic: Mnemonic::And, addressing_mode: AddressingMode::ZeroPageIndexedXIndirect, bytes: 2, cycles: 6, unofficial: false })
    } else if opcode == 0x22 {
        None
    } else if opcode == 0x23 {
        Some(Instruction { mnemonic: Mnemonic::Rla, addressing_mode: AddressingMode::ZeroPageIndexedXIndirect, bytes: 2, cycles: 8, unofficial: true })
    } else if opcode == 0x24 {
        Some(Instruction { mnemonic: Mnemonic::Bit, addressing_mode: AddressingMode::ZeroPage, bytes: 2, cycles: 3, unofficial: false })
    } else if opcode == 0x25 {
        Some(Instruction { mnemonic: Mnemonic::And, addressing_mode: AddressingMode::ZeroPage, bytes: 2, cycles: 3, unofficial: false })
    } else if opcode == 0x26 {
        Some(Instruction { mnemonic: Mnemonic::Rol, addressing_mode: AddressingMode::ZeroPage, bytes: 2, cycles: 5, unofficial: false })
    } else if opcode == 0x27 {
        Some(Instruction { mnemonic: Mnemonic::Rla, addressing_mode: AddressingMode::ZeroPage, bytes: 2, cycles: 5, unofficial: true })
    } else if opcode == 0x28 {
        Some(Instruction { mnemonic: Mnemonic::Plp, addressing_mode: AddressingMode::Implied, bytes: 1, cycles: 4, unofficial: false })
    } else if opcode == 0x29 {
        Some(Instruction { mnemonic: Mnemonic::And, addressing_mode: AddressingMode::Immediate, bytes: 2, cycles: 2, unofficial: false })
    } else if opcode == 0x2a {
        Some(Instruction { mnemonic: Mnemonic::Rol, addressing_mode: AddressingMode::Accumulator, bytes: 1, cycles: 2, unofficial: false })
    } else if opcode == 0x2b {
        None
    } else if opcode == 0x2c {
        Some(Instruction { mnemonic: Mnemonic::Bit, addressing_mode: AddressingMode::Absolute, bytes: 3, cycles: 4, unofficial: false })
    } else if opcode == 0x2d {
        Some(Instruction { mnemonic: Mnemonic::And, addressing_mode: AddressingMode::Absolute, bytes: 3, cycles: 4, unofficial: false })
    } else if opcode == 0x2e {
        Some(Instruction { mnemonic: Mnemonic::Rol, addressing_mode: AddressingMode::Absolute, bytes: 3, cycles: 6, unofficial: false })
    } else if opcode == 0x2f {
        Some(Instruction { mnemonic: Mnemonic::Rla, addressing_mode: AddressingMode::Absolute, bytes: 3, cycles: 6, unofficial: true })
    } else if opcode == 0x30 {
        Some(Instruction { mnemonic: Mnemonic::Bmi, addressing_mode: AddressingMode::Relative, bytes: 2, cycles: 2, unofficial: false })
    } else if opcode == 0x31 {
        Some(Instruction { mnemonic: Mnemonic::And, addressing_mode: AddressingMode::ZeroPageIndirectIndexedY, bytes: 2, cycles: 5, unofficial: false })
    } else if opcode == 0x32 {
        None
    } else if opcode == 0x33 {
        Some(Instruction { mnemonic: Mnemonic::Rla, addressing_mode: AddressingMode::ZeroPageIndirectIndexedY, bytes: 2, cycles: 8, unofficial: true })
    } else if opcode == 0x34 {
        Some(Instruction { mnemonic: Mnemonic::Nop, addressing_mode: AddressingMode::ZeroPageIndexedX, bytes: 2, cycles: 4, unofficial: true })
    } else if opcode == 0x35 {
        Some(Instruction { mnemonic: Mnemonic::And, addressing_mode: AddressingMode::ZeroPageIndexedX, bytes: 2, cycles: 4, unofficial: false })
    } else if opcode == 0x36 {
        Some(Instruction { mnemonic: Mnemonic::Rol, addressing_mode: AddressingMode::ZeroPageIndexedX, bytes: 2, cycles: 6, unofficial: false })
    } else if opcode == 0x37 {
        Some(Instruction { mnemonic: Mnemonic::Rla, addressing_mode: AddressingMode::ZeroPageIndexedX, bytes: 2, cycles: 6, unofficial: true })
    } else if opcode == 0x38 {
        Some(Instruction { mnemonic: Mnemonic::Sec, addressing_mode: AddressingMode::Implied, bytes: 1, cycles: 2, unofficial: false })
    } else if opcode == 0x39 {
        Some(Instruction { mnemonic: Mnemonic::And, addressing_mode: AddressingMode::AbsoluteIndexedY, bytes: 3, cycles: 4, unofficial: false })
    } else if opcode == 0x3a {
        Some(Instruction { mnemonic: Mnemonic::Nop, addressing_mode: AddressingMode::Implied, bytes: 1, cycles: 2, unofficial: true })
    } else if opcode == 0x3b {
        Some(Instruction { mnemonic: Mnemonic::Rla, addressing_mode: AddressingMode::AbsoluteIndexedY, bytes: 3, cycles: 7, unofficial: true })
    } else if opcode == 0x3c {
        Some(Instruction { mnemonic: Mnemonic::Nop, addressing_mode: AddressingMode::AbsoluteIndexedX, bytes: 3, cycles: 4, unofficial: true })
    } else if opcode == 0x3d {
        Some(Instruction { mnemonic: Mnemonic::And, addressing_mode: AddressingMode::AbsoluteIndexedX, bytes: 3, cycles: 4, unofficial: false })
    } else if opcode == 0x3e {
        Some(Instruction { mnemonic: Mnemonic::Rol, addressing_mode: AddressingMode::AbsoluteIndexedX, bytes: 3, cycles: 7, unofficial: false })
    } else if opcode == 0x3f {
        Some(Instruction { mnemonic: Mnemonic::Rla, addressing_mode: AddressingMode::AbsoluteIndexedX, bytes: 3, cycles: 7, unofficial: true })
    } else {
        None
    }
}

/// Table entries for opcodes `0x40` to `0x7f`.
pub open spec fn spec_decode_q1(opcode: u8) -> Option<Instruction> {
    if opcode == 0x40 {
        Some(Instruction { mnemonic: Mnemonic::Rti, addressing_mode: AddressingMode::Implied, bytes: 1, cycles: 6, unofficial: false })
    } else if opcode == 0x41 {
        Some(Instruction { mnemonic: Mnemonic::Eor, addressing_mode: AddressingMode::ZeroPageIndexedXIndirect, bytes: 2, cycles: 6, unofficial: false })
    } else if opcode == 0x42 {
        None
    } else if opcode == 0x43 {
        Some(Instruction { mnemonic: Mnemonic::Sre, addressing_mode: AddressingMode::ZeroPageIndexedXIndirect, bytes: 2, cycles: 8, unofficial: true })
    } else if opcode == 0x44 {
        Some(Instruction { mnemonic: Mnemonic::Nop, addressing_mode: AddressingMode::ZeroPage, bytes: 2, cycles: 3, unofficial: true })
    } else if opcode == 0x45 {
        Some(Instruction { mnemonic: Mnemonic::Eor, addressing_mode: AddressingMode::ZeroPage, bytes: 2, cycles: 3, unofficial: false })
    } else if opcode == 0x46 {
        Some(Instruction { mnemonic: Mnemonic::Lsr, addressing_mode: AddressingMode::ZeroPage, bytes: 2, cycles: 5, unofficial: false })
    } else if opcode == 0x47 {
        Some(Instruction { mnemonic: Mnemonic::Sre, addressing_mode: AddressingMode::ZeroPage, bytes: 2, cycles: 5, unofficial: true })
    } else if opcode == 0x48 {
        Some(Instruction { mnemonic: Mnemonic::Pha, addressing_mode: AddressingMode::Implied, bytes: 1, cycles: 3, unofficial: false })
    } else if opcode == 0x49 {
        Some(Instruction { mnemonic: Mnemonic::Eor, addressing_mode: AddressingMode::Immediate, bytes: 2, cycles: 2, unofficial: false })
    } else if opcode == 0x4a {
        Some(Instruction { mnemonic: Mnemonic::Lsr, addressing_mode: AddressingMode::Accumulator, bytes: 1, cycles: 2, unofficial: false })
    } else if opcode == 0x4b {
        None
    } else if opcode == 0x4c {
        Some(Instruction { mnemonic: Mnemonic::Jmp, addressing_mode: AddressingMode::Absolute, bytes: 3, cycles: 3, unofficial: false })
    } else if opcode == 0x4d {
        Some(Instruction { mnemonic: Mnemonic::Eor, addressing_mode: AddressingMode::Absolute, bytes: 3, cycles: 4, unofficial: false })
    } else if opcode == 0x4e {
        Some(Instruction { mnemonic: Mnemonic::Lsr, addressing_mode: AddressingMode::Absolute, bytes: 3, cycles: 6, unofficial: false })
    } else if opcode == 0x4f {
        Some(Instruction { mnemonic: Mnemonic::Sre, addressing_mode: AddressingMode::Absolute, bytes: 3, cycles: 6, unofficial: true })
    } else if opcode == 0x50 {
        Some(Instruction { mnemonic: Mnemonic::Bvc, addressing_mode: AddressingMode::Relative, bytes: 2, cycles: 2, unofficial: false })
    } else if opcode == 0x51 {
        Some(Instruction { mnemonic: Mnemonic::Eor, addressing_mode: AddressingMode::ZeroPageIndirectIndexedY, bytes: 2, cycles: 5, unofficial: false })
    } else if opcode == 0x52 {
        None
    } else if opcode == 0x53 {
        Some(Instruction { mnemonic: Mnemonic::Sre, addressing_mode: AddressingMode::ZeroPageIndirectIndexedY, bytes: 2, cycles: 8, unofficial: true })
    } else if opcode == 0x54 {
        Some(Instruction { mnemonic: Mnemonic::Nop, addressing_mode: AddressingMode::ZeroPageIndexedX, bytes: 2, cycles: 4, unofficial: true })
    } else if opcode == 0x55 {
        Some(Instruction { mnemonic: Mnemonic::Eor, addressing_mode: AddressingMode::ZeroPageIndexedX, bytes: 2, cycles: 4, unofficial: false })
    } else if opcode == 0x56 {
        Some(Instruction { mnemonic: Mnemonic::Lsr, addressing_mode: AddressingMode::ZeroPageIndexedX, bytes: 2, cycles: 6, unofficial: false })
    } else if opcode == 0x57 {
        Some(Instruction { mnemonic: Mnemonic::Sre, addressing_mode: AddressingMode::ZeroPageIndexedX, bytes: 2, cycles: 6, unofficial: true })
    } else if opcode == 0x58 {
        Some(Instruction { mnemonic: Mnemonic::Cli, addressing_mode: AddressingMode::Implied, bytes: 1, cycles: 2, unofficial: false })
    } else if opcode == 0x59 {
        Some(Instruction { mnemonic: Mnemonic::Eor, addressing_mode: AddressingMode::AbsoluteIndexedY, bytes: 3, cycles: 4, unofficial: false })
    } else if opcode == 0x5a {
        Some(Instruction { mnemonic: Mnemonic::Nop, addressing_mode: AddressingMode::Implied, bytes: 1, cycles: 2, unofficial: true })
    } else if opcode == 0x5b {
        Some(Instruction { mnemonic: Mnemonic::Sre, addressing_mode: AddressingMode::AbsoluteIndexedY, bytes: 3, cycles: 7, unofficial: true })
    } else if opcode == 0x5c {
        Some(Instruction { mnemonic: Mnemonic::Nop, addressing_mode: AddressingMode::AbsoluteIndexedX, bytes: 3, cycles: 4, unofficial: true })
    } else if opcode == 0x5d {
        Some(Instruction { mnemonic: Mnemonic::Eor, addressing_mode: AddressingMode::AbsoluteIndexedX, bytes: 3, cycles: 4, unofficial: false })
    } else if opcode == 0x5e {
        Some(Instruction { mnemonic: Mnemonic::Lsr, addressing_mode: AddressingMode::AbsoluteIndexedX, bytes: 3, cycles: 7, unofficial: false })
    } else if opcode == 0x5f {
        Some(Instruction { mnemonic: Mnemonic::Sre, addressing_mode: AddressingMode::AbsoluteIndexedX, bytes: 3, cycles: 7, unofficial: true })
    } else if opcode == 0x60 {
        Some(Instruction { mnemonic: Mnemonic::Rts, addressing_mode: AddressingMode::Implied, bytes: 1, cycles: 6, unofficial: false })
    } else if opcode == 0x61 {
        Some(Instruction { mnemonic: Mnemonic::Adc, addressing_mode: AddressingMode::ZeroPageIndexedXIndirect, bytes: 2, cycles: 6, unofficial: false })
    } else if opcode == 0x62 {
        None
    } else if opcode == 0x63 {
        Some(Instruction { mnemonic: Mnemonic::Rra, addressing_mode: AddressingMode::ZeroPageIndexedXIndirect, bytes: 2, cycles: 8, unofficial: true })
    } else if opcode == 0x64 {
        Some(Instruction { mnemonic: Mnemonic::Nop, addressing_mode: AddressingMode::ZeroPage, bytes: 2, cycles: 3, unofficial: true })
    } else if opcode == 0x65 {
        Some(Instruction { mnemonic: Mnemonic::Adc, addressing_mode: AddressingMode::ZeroPage, bytes: 2, cycles: 3, unofficial: false })
    } else if opcode == 0x66 {
        Some(Instruction { mnemonic: Mnemonic::Ror, addressing_mode: AddressingMode::ZeroPage, bytes: 2, cycles: 5, unofficial: false })
    } else if opcode == 0x67 {
        Some(Instruction { mnemonic: Mnemonic::Rra, addressing_mode: AddressingMode::ZeroPage, bytes: 2, cycles: 5, unofficial: true })
    } else if opcode == 0x68 {
        Some(Instruction { mnemonic: Mnemonic::Pla, addressing_mode: AddressingMode::Implied, bytes: 1, cycles: 4, unofficial: false })
    } else if opcode == 0x69 {
        Some(Instruction { mnemonic: Mnemonic::Adc, addressing_mode: AddressingMode::Immediate, bytes: 2, cycles: 2, unofficial: false })
    } else if opcode == 0x6a {
        Some(Instruction { mnemonic: Mnemonic::Ror, addressing_mode: AddressingMode::Accumulator, bytes: 1, cycles: 2, unofficial: false })
    } else if opcode == 0x6b {
        None
    } else if opcode == 0x6c {
        Some(Instruction { mnemonic: Mnemonic::Jmp, addressing_mode: AddressingMode::AbsoluteIndirect, bytes: 3, cycles: 5, unofficial: false })
    } else if opcode == 0x6d {
        Some(Instruction { mnemonic: Mnemonic::Adc, addressing_mode: AddressingMode::Absolute, bytes: 3, cycles: 4, unofficial: false })
    } else if opcode == 0x6e {
        Some(Instruction { mnemonic: Mnemonic::Ror, addressing_mode: AddressingMode::Absolute, bytes: 3, cycles: 6, unofficial: false })
    } else if opcode == 0x6f {
        Some(Instruction { mnemonic: Mnemonic::Rra, addressing_mode: AddressingMode::Absolute, bytes: 3, cycles: 6, unofficial: true })
    } else if opcode == 0x70 {
        Some(Instruction { mnemonic: Mnemonic::Bvs, addressing_mode: AddressingMode::Relative, bytes: 2, cycles: 2, unofficial: false })
    } else if opcode == 0x71 {
        Some(Instruction { mnemonic: Mnemonic::Adc, addressing_mode: AddressingMode::ZeroPageIndirectIndexedY, bytes: 2, cycles: 5, unofficial: false })
    } else if opcode == 0x72 {
        None
    } else if opcode == 0x73 {
        Some(Instruction { mnemonic: Mnemonic::Rra, addressing_mode: AddressingMode::ZeroPageIndirectIndexedY, bytes: 2, cycles: 8, unofficial: true })
    } else if opcode == 0x74 {
        Some(Instruction { mnemonic: Mnemonic::Nop, addressing_mode: AddressingMode::ZeroPageIndexedX, bytes: 2, cycles: 4, unofficial: true })
    } else if opcode == 0x75 {
        Some(Instruction { mnemonic: Mnemonic::Adc, addressing_mode: AddressingMode::ZeroPageIndexedX, bytes: 2, cycles: 4, unofficial: false })
    } else if opcode == 0x76 {
        Some(Instruction { mnemonic: Mnemonic::Ror, addressing_mode: AddressingMode::ZeroPageIndexedX, bytes: 2, cycles: 6, unofficial: false })
    } else if opcode == 0x77 {
        Some(Instruction { mnemonic: Mnemonic::Rra, addressing_mode: AddressingMode::ZeroPageIndexedX, bytes: 2, cycles: 6, unofficial: true })
    } else if opcode == 0x78 {
        Some(Instruction { mnemonic: Mnemonic::Sei, addressing_mode: AddressingMode::Implied, bytes: 1, cycles: 2, unofficial: false })
    } else if opcode == 0x79 {
        Some(Instruction { mnemonic: Mnemonic::Adc, addressing_mode: AddressingMode::AbsoluteIndexedY, bytes: 3, cycles: 4, unofficial: false })
    } else if opcode == 0x7a {
        Some(Instruction { mnemonic: Mnemonic::Nop, addressing_mode: AddressingMode::Implied, bytes: 1, cycles: 2, unofficial: true })
    } else if opcode == 0x7b {
        Some(Instruction { mnemonic: Mnemonic::Rra, addressing_mode: AddressingMode::AbsoluteIndexedY, bytes: 3, cycles: 7, unofficial: true })
    } else if opcode == 0x7c {
        Some(Instruction { mnemonic: Mnemonic::Nop, addressing_mode: AddressingMode::AbsoluteIndexedX, bytes: 3, cycles: 4, unofficial: true })
    } else if opcode == 0x7d {
        Some(Instruction { mnemonic: Mnemonic::Adc, addressing_mode: AddressingMode::AbsoluteIndexedX, bytes: 3, cycles: 4, unofficial: false })
    } else if opcode == 0x7e {
        Some(Instruction { mnemonic: Mnemonic::Ror, addressing_mode: AddressingMode::AbsoluteIndexedX, bytes: 3, cycles: 7, unofficial: false })
    } else if opcode == 0x7f {
        Some(Instruction { mnemonic: Mnemonic::Rra, addressing_mode: AddressingMode::AbsoluteIndexedX, bytes: 3, cycles: 7, unofficial: true })
    } else {
        None
    }
}

/// Table entries for opcodes `0x80` to `0xbf`.
pub open spec fn spec_decode_q2(opcode: u8) -> Option<Instruction> {
    if opcode == 0x80 {
        Some(Instruction { mnemonic: Mnemonic::Nop, addressing_mode: AddressingMode::Absolute, bytes: 2, cycles: 2, unofficial: true })
    } else if opcode == 0x81 {
        Some(Instruction { mnemonic: Mnemonic::Sta, addressing_mode: AddressingMode::ZeroPageIndexedXIndirect, bytes: 2, cycles: 6, unofficial: false })
    } else if opcode == 0x82 {
        Some(Instruction { mnemonic: Mnemonic::Nop, addressing_mode: AddressingMode::Absolute, bytes: 2, cycles: 2, unofficial: true })
    } else if opcode == 0x83 {
        Some(Instruction { mnemonic: Mnemonic::Sax, addressing_mode: AddressingMode::ZeroPageIndexedXIndirect, bytes: 2, cycles: 6, unofficial: true })
    } else if opcode == 0x84 {
        Some(Instruction { mnemonic: Mnemonic::Sty, addressing_mode: AddressingMode::ZeroPage, bytes: 2, cycles: 3, unofficial: false })
    } else if opcode == 0x85 {
        Some(Instruction { mnemonic: Mnemonic::Sta, addressing_mode: AddressingMode::ZeroPage, bytes: 2, cycles: 3, unofficial: false })
    } else if opcode == 0x86 {
        Some(Instruction { mnemonic: Mnemonic::Stx, addressing_mode: AddressingMode::ZeroPage, bytes: 2, cycles: 3, unofficial: false })
    } else if opcode == 0x87 {
        Some(Instruction { mnemonic: Mnemonic::Sax, addressing_mode: AddressingMode::ZeroPage, bytes: 2, cycles: 3, unofficial: true })
    } else if opcode == 0x88 {
        Some(Instruction { mnemonic: Mnemonic::Dey, addressing_mode: AddressingMode::Implied, bytes: 1, cycles: 2, unofficial: false })
    } else if opcode == 0x89 {
        Some(Instruction { mnemonic: Mnemonic::Nop, addressing_mode: AddressingMode::Absolute, bytes: 2, cycles: 2, unofficial: true })
    } else if opcode == 0x8a {
        Some(Instruction { mnemonic: Mnemonic::Txa, addressing_mode: AddressingMode::Implied, bytes: 1, cycles: 2, unofficial: false })
    } else if opcode == 0x8b {
        None
    } else if opcode == 0x8c {
        Some(Instruction { mnemonic: Mnemonic::Sty, addressing_mode: AddressingMode::Absolute, bytes: 3, cycles: 4, unofficial: false })
    } else if opcode == 0x8d {
        Some(Instruction { mnemonic: Mnemonic::Sta, addressing_mode: AddressingMode::Absolute, bytes: 3, cycles: 4, unofficial: false })
    } else if opcode == 0x8e {
        Some(Instruction { mnemonic: Mnemonic::Stx, addressing_mode: AddressingMode::Absolute, bytes: 3, cycles: 4, unofficial: false })
    } else if opcode == 0x8f {
        Some(Instruction { mnemonic: Mnemonic::Sax, addressing_mode: AddressingMode::Absolute, bytes: 3, cycles: 4, unofficial: true })
    } else if opcode == 0x90 {
        Some(Instruction { mnemonic: Mnemonic::Bcc, addressing_mode: AddressingMode::Relative, bytes: 2, cycles: 2, unofficial: false })
    } else if opcode == 0x91 {
        Some(Instruction { mnemonic: Mnemonic::Sta, addressing_mode: AddressingMode::ZeroPageIndirectIndexedY, bytes: 2, cycles: 6, unofficial: false })
    } else if opcode == 0x92 {
        None
    } else if opcode == 0x93 {
        None
    } else if opcode == 0x94 {
        Some(Instruction { mnemonic: Mnemonic::Sty, addressing_mode: AddressingMode::ZeroPageIndexedX, bytes: 2, cycles: 4, unofficial: false })
    } else if opcode == 0x95 {
        Some(Instruction { mnemonic: Mnemonic::Sta, addressing_mode: AddressingMode::ZeroPageIndexedX, bytes: 2, cycles: 4, unofficial: false })
    } else if opcode == 0x96 {
        Some(Instruction { mnemonic: Mnemonic::Stx, addressing_mode: AddressingMode::ZeroPageIndexedY, bytes: 2, cycles: 4, unofficial: false })
    } else if opcode == 0x97 {
        Some(Instruction { mnemonic: Mnemonic::Sax, addressing_mode: AddressingMode::ZeroPageIndexedY, bytes: 2, cycles: 4, unofficial: true })
    } else if opcode == 0x98 {
        Some(Instruction { mnemonic: Mnemonic::Tya, addressing_mode: AddressingMode::Implied, bytes: 1, cycles: 2, unofficial: false })
    } else if opcode == 0x99 {
        Some(Instruction { mnemonic: Mnemonic::Sta, addressing_mode: AddressingMode::AbsoluteIndexedY, bytes: 3, cycles: 5, unofficial: false })
    } else if opcode == 0x9a {
        Some(Instruction { mnemonic: Mnemonic::Txs, addressing_mode: AddressingMode::Implied, bytes: 1, cycles: 2, unofficial: false })
    } else if opcode == 0x9b {
        None
    } else if opcode == 0x9c {
        None
    } else if opcode == 0x9d {
        Some(Instruction { mnemonic: Mnemonic::Sta, addressing_mode: AddressingMode::AbsoluteIndexedX, bytes: 3, cycles: 5, unofficial: false })
    } else if opcode == 0x9e {
        None
    } else if opcode == 0x9f {
        None
    } else if opcode == 0xa0 {
        Some(Instruction { mnemonic: Mnemonic::Ldy, addressing_mode: AddressingMode::Immediate, bytes: 2, cycles: 2, unofficial: false })
    } else if opcode == 0xa1 {
        Some(Instruction { mnemonic: Mnemonic::Lda, addressing_mode: AddressingMode::ZeroPageIndexedXIndirect, bytes: 2, cycles: 6, unofficial: false })
    } else if opcode == 0xa2 {
        Some(Instruction { mnemonic: Mnemonic::Ldx, addressing_mode: AddressingMode::Immediate, bytes: 2, cycles: 2, unofficial: false })
    } else if opcode == 0xa3 {
        Some(Instruction { mnemonic: Mnemonic::Lax, addressing_mode: AddressingMode::ZeroPageIndexedXIndirect, bytes: 2, cycles: 6, unofficial: true })
    } else if opcode == 0xa4 {
        Some(Instruction { mnemonic: Mnemonic::Ldy, addressing_mode: AddressingMode::ZeroPage, bytes: 2, cycles: 3, unofficial: false })
    } else if opcode == 0xa5 {
        Some(Instruction { mnemonic: Mnemonic::Lda, addressing_mode: AddressingMode::ZeroPage, bytes: 2, cycles: 3, unofficial: false })
    } else if opcode == 0xa6 {
        Some(Instruction { mnemonic: Mnemonic::Ldx, addressing_mode: AddressingMode::ZeroPage, bytes: 2, cycles: 3, unofficial: false })
    } else if opcode == 0xa7 {
        Some(Instruction { mnemonic: Mnemonic::Lax, addressing_mode: AddressingMode::ZeroPage, bytes: 2, cycles: 3, unofficial: true })
    } else if opcode == 0xa8 {
        Some(Instruction { mnemonic: Mnemonic::Tay, addressing_mode: AddressingMode::Implied, bytes: 1, cycles: 2, unofficial: false })
    } else if opcode == 0xa9 {
        Some(Instruction { mnemonic: Mnemonic::Lda, addressing_mode: AddressingMode::Immediate, bytes: 2, cycles: 2, unofficial: false })
    } else if opcode == 0xaa {
        Some(Instruction { mnemonic: Mnemonic::Tax, addressing_mode: AddressingMode::Implied, bytes: 1, cycles: 2, unofficial: false })
    } else if opcode == 0xab {
        Some(Instruction { mnemonic: Mnemonic::Lax, addressing_mode: AddressingMode::Immediate, bytes: 2, cycles: 2, unofficial: true })
    } else if opcode == 0xac {
        Some(Instruction { mnemonic: Mnemonic::Ldy, addressing_mode: AddressingMode::Absolute, bytes: 3, cycles: 4, unofficial: false })
    } else if opcode == 0xad {
        Some(Instruction { mnemonic: Mnemonic::Lda, addressing_mode: AddressingMode::Absolute, bytes: 3, cycles: 4, unofficial: false })
    } else if opcode == 0xae {
        Some(Instruction { mnemonic: Mnemonic::Ldx, addressing_mode: AddressingMode::Absolute, bytes: 3, cycles: 4, unofficial: false })
    } else if opcode == 0xaf {
        Some(Instruction { mnemonic: Mnemonic::Lax, addressing_mode: AddressingMode::Absolute, bytes: 3, cycles: 4, unofficial: true })
    } else if opcode == 0xb0 {
        Some(Instruction { mnemonic: Mnemonic::Bcs, addressing_mode: AddressingMode::Relative, bytes: 2, cycles: 2, unofficial: false })
    } else if opcode == 0xb1 {
        Some(Instruction { mnemonic: Mnemonic::Lda, addressing_mode: AddressingMode::ZeroPageIndirectIndexedY, bytes: 2, cycles: 5, unofficial: false })
    } else if opcode == 0xb2 {
        None
    } else if opcode == 0xb3 {
        Some(Instruction { mnemonic: Mnemonic::Lax, addressing_mode: AddressingMode::ZeroPageIndirectIndexedY, bytes: 2, cycles: 5, unofficial: true })
    } else if opcode == 0xb4 {
        Some(Instruction { mnemonic: Mnemonic::Ldy, addressing_mode: AddressingMode::ZeroPageIndexedX, bytes: 2, cycles: 4, unofficial: false })
    } else if opcode == 0xb5 {
        Some(Instruction { mnemonic: Mnemonic::Lda, addressing_mode: AddressingMode::ZeroPageIndexedX, bytes: 2, cycles: 4, unofficial: false })
    } else if opcode == 0xb6 {
        Some(Instruction { mnemonic: Mnemonic::Ldx, addressing_mode: AddressingMode::ZeroPageIndexedY, bytes: 2, cycles: 4, unofficial: false })
    } else if opcode == 0xb7 {
        Some(Instruction { mnemonic: Mnemonic::Lax, addressing_mode: AddressingMode::ZeroPageIndexedY, bytes: 2, cycles: 4, unofficial: true })
    } else if opcode == 0xb8 {
        Some(Instruction { mnemonic: Mnemonic::Clv, addressing_mode: AddressingMode::Implied, bytes: 1, cycles: 2, unofficial: false })
    } else if opcode == 0xb9 {
        Some(Instruction { mnemonic: Mnemonic::Lda, addressing_mode: AddressingMode::AbsoluteIndexedY, bytes: 3, cycles: 4, unofficial: false })
    } else if opcode == 0xba {
        Some(Instruction { mnemonic: Mnemonic::Tsx, addressing_mode: AddressingMode::Implied, bytes: 1, cycles: 2, unofficial: false })
    } else if opcode == 0xbb {
        None
    } else if opcode == 0xbc {
        Some(Instruction { mnemonic: Mnemonic::Ldy, addressing_mode: AddressingMode::AbsoluteIndexedX, bytes: 3, cycles: 4, unofficial: false })
    } else if opcode == 0xbd {
        Some(Instruction { mnemonic: Mnemonic::Lda, addressing_mode: AddressingMode::AbsoluteIndexedX, bytes: 3, cycles: 4, unofficial: false })
    } else if opcode == 0xbe {
        Some(Instruction { mnemonic: Mnemonic::Ldx, addressing_mode: AddressingMode::AbsoluteIndexedY, bytes: 3, cycles: 4, unofficial: false })
    } else if opcode == 0xbf {
        Some(Instruction { mnemonic: Mnemonic::Lax, addressing_mode: AddressingMode::AbsoluteIndexedY, bytes: 3, cycles: 4, unofficial: true })
    } else {
        None
    }
}

/// Table entries for opcodes `0xc0` to `0xff`.
pub open spec fn spec_decode_q3(opcode: u8) -> Option<Instruction> {
    if opcode == 0xc0 {
        Some(Instruction { mnemonic: Mnemonic::Cpy, addressing_mode: AddressingMode::Immediate, bytes: 2, cycles: 2, unofficial: false })
    } else if opcode == 0xc1 {
        Some(Instruction { mnemonic: Mnemonic::Cmp, addressing_mode: AddressingMode::ZeroPageIndexedXIndirect, bytes: 2, cycles: 6, unofficial: false })
    } else if opcode == 0xc2 {
        Some(Instruction { mnemonic: Mnemonic::Nop, addressing_mode: AddressingMode::Absolute, bytes: 2, cycles: 2, unofficial: true })
    } else if opcode == 0xc3 {
        Some(Instruction { mnemonic: Mnemonic::Dcp, addressing_mode: AddressingMode::ZeroPageIndexedXIndirect, bytes: 2, cycles: 8, unofficial: true })
    } else if opcode == 0xc4 {
        Some(Instruction { mnemonic: Mnemonic::Cpy, addressing_mode: AddressingMode::ZeroPage, bytes: 2, cycles: 3, unofficial: false })
    } else if opcode == 0xc5 {
        Some(Instruction { mnemonic: Mnemonic::Cmp, addressing_mode: AddressingMode::ZeroPage, bytes: 2, cycles: 3, unofficial: false })
    } else if opcode == 0xc6 {
        Some(Instruction { mnemonic: Mnemonic::Dec, addressing_mode: AddressingMode::ZeroPage, bytes: 2, cycles: 5, unofficial: false })
    } else if opcode == 0xc7 {
        Some(Instruction { mnemonic: Mnemonic::Dcp, addressing_mode: AddressingMode::ZeroPage, bytes: 2, cycles: 5, unofficial: true })
    } else if opcode == 0xc8 {
        Some(Instruction { mnemonic: Mnemonic::Iny, addressing_mode: AddressingMode::Implied, bytes: 1, cycles: 2, unofficial: false })
    } else if opcode == 0xc9 {
        Some(Instruction { mnemonic: Mnemonic::Cmp, addressing_mode: AddressingMode::Immediate, bytes: 2, cycles: 2, unofficial: false })
    } else if opcode == 0xca {
        Some(Instruction { mnemonic: Mnemonic::Dex, addressing_mode: AddressingMode::Implied, bytes: 1, cycles: 2, unofficial: false })
    } else if opcode == 0xcb {
        None
    } else if opcode == 0xcc {
        Some(Instruction { mnemonic: Mnemonic::Cpy, addressing_mode: AddressingMode::Absolute, bytes: 3, cycles: 4, unofficial: false })
    } else if opcode == 0xcd {
        Some(Instruction { mnemonic: Mnemonic::Cmp, addressing_mode: AddressingMode::Absolute, bytes: 3, cycles: 4, unofficial: false })
    } else if opcode == 0xce {
        Some(Instruction { mnemonic: Mnemonic::Dec, addressing_mode: AddressingMode::Absolute, bytes: 3, cycles: 6, unofficial: false })
    } else if opcode == 0xcf {
        Some(Instruction { mnemonic: Mnemonic::Dcp, addressing_mode: AddressingMode::Absolute, bytes: 3, cycles: 6, unofficial: true })
    } else if opcode == 0xd0 {
        Some(Instruction { mnemonic: Mnemonic::Bne, addressing_mode: AddressingMode::Relative, bytes: 2, cycles: 2, unofficial: false })
    } else if opcode == 0xd1 {
        Some(Instruction { mnemonic: Mnemonic::Cmp, addressing_mode: AddressingMode::ZeroPageIndirectIndexedY, bytes: 2, cycles: 5, unofficial: false })
    } else if opcode == 0xd2 {
        None
    } else if opcode == 0xd3 {
        Some(Instruction { mnemonic: Mnemonic::Dcp, addressing_mode: AddressingMode::ZeroPageIndirectIndexedY, bytes: 2, cycles: 8, unofficial: true })
    } else if opcode == 0xd4 {
        Some(Instruction { mnemonic: Mnemonic::Nop, addressing_mode: AddressingMode::ZeroPageIndexedX, bytes: 2, cycles: 4, unofficial: true })
    } else if opcode == 0xd5 {
        Some(Instruction { mnemonic: Mnemonic::Cmp, addressing_mode: AddressingMode::ZeroPageIndexedX, bytes: 2, cycles: 4, unofficial: false })
    } else if opcode == 0xd6 {
        Some(Instruction { mnemonic: Mnemonic::Dec, addressing_mode: AddressingMode::ZeroPageIndexedX, bytes: 2, cycles: 6, unofficial: false })
    } else if opcode == 0xd7 {
        Some(Instruction { mnemonic: Mnemonic::Dcp, addressing_mode: AddressingMode::ZeroPageIndexedX, bytes: 2, cycles: 6, unofficial: true })
    } else if opcode == 0xd8 {
        Some(Instruction { mnemonic: Mnemonic::Cld, addressing_mode: AddressingMode::Implied, bytes: 1, cycles: 2, unofficial: false })
    } else if opcode == 0xd9 {
        Some(Instruction { mnemonic: Mnemonic::Cmp, addressing_mode: AddressingMode::AbsoluteIndexedY, bytes: 3, cycles: 4, unofficial: false })
    } else if opcode == 0xda {
        Some(Instruction { mnemonic: Mnemonic::Nop, addressing_mode: AddressingMode::Implied, bytes: 1, cycles: 2, unofficial: true })
    } else if opcode == 0xdb {
        Some(Instruction { mnemonic: Mnemonic::Dcp, addressing_mode: AddressingMode::AbsoluteIndexedY, bytes: 3, cycles: 7, unofficial: true })
    } else if opcode == 0xdc {
        Some(Instruction { mnemonic: Mnemonic::Nop, addressing_mode: AddressingMode::AbsoluteIndexedX, bytes: 3, cycles: 4, unofficial: true })
    } else if opcode == 0xdd {
        Some(Instruction { mnemonic: Mnemonic::Cmp, addressing_mode: AddressingMode::AbsoluteIndexedX, bytes: 3, cycles: 4, unofficial: false })
    } else if opcode == 0xde {
        Some(Instruction { mnemonic: Mnemonic::Dec, addressing_mode: AddressingMode::AbsoluteIndexedX, bytes: 3, cycles: 7, unofficial: false })
    } else if opcode == 0xdf {
        Some(Instruction { mnemonic: Mnemonic::Dcp, addressing_mode: AddressingMode::AbsoluteIndexedX, bytes: 3, cycles: 7, unofficial: true })
    } else if opcode == 0xe0 {
        Some(Instruction { mnemonic: Mnemonic::Cpx, addressing_mode: AddressingMode::Immediate, bytes: 2, cycles: 2, unofficial: false })
    } else if opcode == 0xe1 {
        Some(Instruction { mnemonic: Mnemonic::Sbc, addressing_mode: AddressingMode::ZeroPageIndexedXIndirect, bytes: 2, cycles: 6, unofficial: false })
    } else if opcode == 0xe2 {
        Some(Instruction { mnemonic: Mnemonic::Nop, addressing_mode: AddressingMode::Absolute, bytes: 2, cycles: 2, unofficial: true })
    } else if opcode == 0xe3 {
        Some(Instruction { mnemonic: Mnemonic::Isc, addressing_mode: AddressingMode::ZeroPageIndexedXIndirect, bytes: 2, cycles: 8, unofficial: true })
    } else if opcode == 0xe4 {
        Some(Instruction { mnemonic: Mnemonic::Cpx, addressing_mode: AddressingMode::ZeroPage, bytes: 2, cycles: 3, unofficial: false })
    } else if opcode == 0xe5 {
        Some(Instruction { mnemonic: Mnemonic::Sbc, addressing_mode: AddressingMode::ZeroPage, bytes: 2, cycles: 3, unofficial: false })
    } else if opcode == 0xe6 {
        Some(Instruction { mnemonic: Mnemonic::Inc, addressing_mode: AddressingMode::ZeroPage, bytes: 2, cycles: 5, unofficial: false })
    } else if opcode == 0xe7 {
        Some(Instruction { mnemonic: Mnemonic::Isc, addressing_mode: AddressingMode::ZeroPage, bytes: 2, cycles: 5, unofficial: true })
    } else if opcode == 0xe8 {
        Some(Instruction { mnemonic: Mnemonic::Inx, addressing_mode: AddressingMode::Implied, bytes: 1, cycles: 2, unofficial: false })
    } else if opcode == 0xe9 {
        Some(Instruction { mnemonic: Mnemonic::Sbc, addressing_mode: AddressingMode::Immediate, bytes: 2, cycles: 2, unofficial: false })
    } else if opcode == 0xea {
        Some(Instruction { mnemonic: Mnemonic::Nop, addressing_mode: AddressingMode::Implied, bytes: 1, cycles: 2, unofficial: false })
    } else if opcode == 0xeb {
        Some(Instruction { mnemonic: Mnemonic::Sbc, addressing_mode: AddressingMode::Immediate, bytes: 2, cycles: 2, unofficial: true })
    } else if opcode == 0xec {
        Some(Instruction { mnemonic: Mnemonic::Cpx, addressing_mode: AddressingMode::Absolute, bytes: 3, cycles: 4, unofficial: false })
    } else if opcode == 0xed {
        Some(Instruction { mnemonic: Mnemonic::Sbc, addressing_mode: AddressingMode::Absolute, bytes: 3, cycles: 4, unofficial: false })
    } else if opcode == 0xee {
        Some(Instruction { mnemonic: Mnemonic::Inc, addressing_mode: AddressingMode::Absolute, bytes: 3, cycles: 6, unofficial: false })
    } else if opcode == 0xef {
        Some(Instruction { mnemonic: Mnemonic::Isc, addressing_mode: AddressingMode::Absolute, bytes: 3, cycles: 6, unofficial: true })
    } else if opcode == 0xf0 {
        Some(Instruction { mnemonic: Mnemonic::Beq, addressing_mode: AddressingMode::Relative, bytes: 2, cycles: 2, unofficial: false })
    } else if opcode == 0xf1 {
        Some(Instruction { mnemonic: Mnemonic::Sbc, addressing_mode: AddressingMode::ZeroPageIndirectIndexedY, bytes: 2, cycles: 5, unofficial: false })
    } else if opcode == 0xf2 {
        None
    } else if opcode == 0xf3 {
        Some(Instruction { mnemonic: Mnemonic::Isc, addressing_mode: AddressingMode::ZeroPageIndirectIndexedY, bytes: 2, cycles: 8, unofficial: true })
    } else if opcode == 0xf4 {
        Some(Instruction { mnemonic: Mnemonic::Nop, addressing_mode: AddressingMode::ZeroPageIndexedX, bytes: 2, cycles: 4, unofficial: true })
    } else if opcode == 0xf5 {
        Some(Instruction { mnemonic: Mnemonic::Sbc, addressing_mode: AddressingMode::ZeroPageIndexedX, bytes: 2, cycles: 4, unofficial: false })
    } else if opcode == 0xf6 {
        Some(Instruction { mnemonic: Mnemonic::Inc, addressing_mode: AddressingMode::ZeroPageIndexedX, bytes: 2, cycles: 6, unofficial: false })
    } else if opcode == 0xf7 {
        Some(Instruction { mnemonic: Mnemonic::Isc, addressing_mode: AddressingMode::ZeroPageIndexedX, bytes: 2, cycles: 6, unofficial: true })
    } else if opcode == 0xf8 {
        Some(Instruction { mnemonic: Mnemonic::Sed, addressing_mode: AddressingMode::Implied, bytes: 1, cycles: 2, unofficial: false })
    } else if opcode == 0xf9 {
        Some(Instruction { mnemonic: Mnemonic::Sbc, addressing_mode: AddressingMode::AbsoluteIndexedY, bytes: 3, cycles: 4, unofficial: false })
    } else if opcode == 0xfa {
        Some(Instruction { mnemonic: Mnemonic::Nop, addressing_mode: AddressingMode::Implied, bytes: 1, cycles: 2, unofficial: true })
    } else if opcode == 0xfb {
        Some(Instruction { mnemonic: Mnemonic::Isc, addressing_mode: AddressingMode::AbsoluteIndexedY, bytes: 3, cycles: 7, unofficial: true })
    } else if opcode == 0xfc {
        Some(Instruction { mnemonic: Mnemonic::Nop, addressing_mode: AddressingMode::AbsoluteIndexedX, bytes: 3, cycles: 4, unofficial: true })
    } else if opcode == 0xfd {
        Some(Instruction { mnemonic: Mnemonic::Sbc, addressing_mode: AddressingMode::AbsoluteIndexedX, bytes: 3, cycles: 4, unofficial: false })
    } else if opcode == 0xfe {
        Some(Instruction { mnemonic: Mnemonic::Inc, addressing_mode: AddressingMode::AbsoluteIndexedX, bytes: 3, cycles: 7, unofficial: false })
    } else if opcode == 0xff {
        Some(Instruction { mnemonic: Mnemonic::Isc, addressing_mode: AddressingMode::AbsoluteIndexedX, bytes: 3, cycles: 7, unofficial: true })
    } else {
        None
    }
}

/// The dispatch table: what each opcode byte decodes to, or nothing for
/// the fatal slots.
#[verifier::opaque]
pub open spec fn spec_decode(opcode: u8) -> Option<Instruction> {
    if opcode < 0x40 {
        spec_decode_q0(opcode)
    } else if opcode < 0x80 {
        spec_decode_q1(opcode)
    } else if opcode < 0xC0 {
        spec_decode_q2(opcode)
    } else {
        spec_decode_q3(opcode)
    }
}

/// Looks up opcodes `0x0` to `0x3f`.
fn decode_q0(opcode: u8) -> (r: Option<Instruction>)
    requires
        0x00 <= opcode < 0x40,
    ensures
        r == spec_decode_q0(opcode),
{
    match opcode {
        0x00 => Some(Instruction { mnemonic: Mnemonic::Brk, addressing_mode: AddressingMode::Implied, bytes: 1, cycles: 7, unofficial: false }),
        0x01 => Some(Instruction { mnemonic: Mnemonic::Ora, addressing_mode: AddressingMode::ZeroPageIndexedXIndirect, bytes: 2, cycles: 6, unofficial: false }),
        0x02 => None,
        0x03 => Some(Instruction { mnemonic: Mnemonic::Slo, addressing_mode: AddressingMode::ZeroPageIndexedXIndirect, bytes: 2, cycles: 8, unofficial: true }),
        0x04 => Some(Instruction { mnemonic: Mnemonic::Nop, addressing_mode: AddressingMode::ZeroPage, bytes: 2, cycles: 3, unofficial: true }),
        0x05 => Some(Instruction { mnemonic: Mnemonic::Ora, addressing_mode: AddressingMode::ZeroPage, bytes: 2, cycles: 3, unofficial: false }),
        0x06 => Some(Instruction { mnemonic: Mnemonic::Asl, addressing_mode: AddressingMode::ZeroPage, bytes: 2, cycles: 5, unofficial: false }),
        0x07 => Some(Instruction { mnemonic: Mnemonic::Slo, addressing_mode: AddressingMode::ZeroPage, bytes: 2, cycles: 5, unofficial: true }),
        0x08 => Some(Instruction { mnemonic: Mnemonic::Php, addressing_mode: AddressingMode::Implied, bytes: 1, cycles: 3, unofficial: false }),
        0x09 => Some(Instruction { mnemonic: Mnemonic::Ora, addressing_mode: AddressingMode::Immediate, bytes: 2, cycles: 2, unofficial: false }),
        0x0a => Some(Instruction { mnemonic: Mnemonic::Asl, addressing_mode: AddressingMode::Accumulator, bytes: 1, cycles: 2, unofficial: false }),
        0x0b => None,
        0x0c => Some(Instruction { mnemonic: Mnemonic::Nop, addressing_mode: AddressingMode::Absolute, bytes: 3, cycles: 4, unofficial: true }),
        0x0d => Some(Instruction { mnemonic: Mnemonic::Ora, addressing_mode: AddressingMode::Absolute, bytes: 3, cycles: 4, unofficial: false }),
        0x0e => Some(Instruction { mnemonic: Mnemonic::Asl, addressing_mode: AddressingMode::Absolute, bytes: 3, cycles: 6, unofficial: false }),
        0x0f => Some(Instruction { mnemonic: Mnemonic::Slo, addressing_mode: AddressingMode::Absolute, bytes: 3, cycles: 6, unofficial: true }),
        0x10 => Some(Instruction { mnemonic: Mnemonic::Bpl, addressing_mode: AddressingMode::Relative, bytes: 2, cycles: 2, unofficial: false }),
        0x11 => Some(Instruction { mnemonic: Mnemonic::Ora, addressing_mode: AddressingMode::ZeroPageIndirectIndexedY, bytes: 2, cycles: 5, unofficial: false }),
        0x12 => None,
        0x13 => Some(Instruction { mnemonic: Mnemonic::Slo, addressing_mode: AddressingMode::ZeroPageIndirectIndexedY, bytes: 2, cycles: 8, unofficial: true }),
        0x14 => Some(Instruction { mnemonic: Mnemonic::Nop, addressing_mode: AddressingMode::ZeroPageIndexedX, bytes: 2, cycles: 4, unofficial: true }),
        0x15 => Some(Instruction { mnemonic: Mnemonic::Ora, addressing_mode: AddressingMode::ZeroPageIndexedX, bytes: 2, cycles: 4, unofficial: false }),
        0x16 => Some(Instruction { mnemonic: Mnemonic::Asl, addressing_mode: AddressingMode::ZeroPageIndexedX, bytes: 2, cycles: 6, unofficial: false }),
        0x17 => Some(Instruction { mnemonic: Mnemonic::Slo, addressing_mode: AddressingMode::ZeroPageIndexedX, bytes: 2, cycles: 6, unofficial: true }),
        0x18 => Some(Instruction { mnemonic: Mnemonic::Clc, addressing_mode: AddressingMode::Implied, bytes: 1, cycles: 2, unofficial: false }),
        0x19 => Some(Instruction { mnemonic: Mnemonic::Ora, addressing_mode: AddressingMode::AbsoluteIndexedY, bytes: 3, cycles: 4, unofficial: false }),
        0x1a => Some(Instruction { mnemonic: Mnemonic::Nop, addressing_mode: AddressingMode::Implied, bytes: 1, cycles: 2, unofficial: true }),
        0x1b => Some(Instruction { mnemonic: Mnemonic::Slo, addressing_mode: AddressingMode::AbsoluteIndexedY, bytes: 3, cycles: 7, unofficial: true }),
        0x1c => Some(Instruction { mnemonic: Mnemonic::Nop, addressing_mode: AddressingMode::AbsoluteIndexedX, bytes: 3, cycles: 4, unofficial: true }),
        0x1d => Some(Instruction { mnemonic: Mnemonic::Ora, addressing_mode: AddressingMode::AbsoluteIndexedX, bytes: 3, cycles: 4, unofficial: false }),
        0x1e => Some(Instruction { mnemonic: Mnemonic::Asl, addressing_mode: AddressingMode::AbsoluteIndexedX, bytes: 3, cycles: 7, unofficial: false }),
        0x1f => Some(Instruction { mnemonic: Mnemonic::Slo, addressing_mode: AddressingMode::AbsoluteIndexedX, bytes: 3, cycles: 7, unofficial: true }),
        0x20 => Some(Instruction { mnemonic: Mnemonic::Jsr, addressing_mode: AddressingMode::Absolute, bytes: 3, cycles: 6, unofficial: false }),
        0x21 => Some(Instruction { mnemonic: Mnemonic::And, addressing_mode: AddressingMode::ZeroPageIndexedXIndirect, bytes: 2, cycles: 6, unofficial: false }),
        0x22 => None,
        0x23 => Some(Instruction { mnemonic: Mnemonic::Rla, addressing_mode: AddressingMode::ZeroPageIndexedXIndirect, bytes: 2, cycles: 8, unofficial: true }),
        0x24 => Some(Instruction { mnemonic: Mnemonic::Bit, addressing_mode: AddressingMode::ZeroPage, bytes: 2, cycles: 3, unofficial: false }),
        0x25 => Some(Instruction { mnemonic: Mnemonic::And, addressing_mode: AddressingMode::ZeroPage, bytes: 2, cycles: 3, unofficial: false }),
        0x26 => Some(Instruction { mnemonic: Mnemonic::Rol, addressing_mode: AddressingMode::ZeroPage, bytes: 2, cycles: 5, unofficial: false }),
        0x27 => Some(Instruction { mnemonic: Mnemonic::Rla, addressing_mode: AddressingMode::ZeroPage, bytes: 2, cycles: 5, unofficial: true }),
        0x28 => Some(Instruction { mnemonic: Mnemonic::Plp, addressing_mode: AddressingMode::Implied, bytes: 1, cycles: 4, unofficial: false }),
        0x29 => Some(Instruction { mnemonic: Mnemonic::And, addressing_mode: AddressingMode::Immediate, bytes: 2, cycles: 2, unofficial: false }),
        0x2a => Some(Instruction { mnemonic: Mnemonic::Rol, addressing_mode: AddressingMode::Accumulator, bytes: 1, cycles: 2, unofficial: false }),
        0x2b => None,
        0x2c => Some(Instruction { mnemonic: Mnemonic::Bit, addressing_mode: AddressingMode::Absolute, bytes: 3, cycles: 4, unofficial: false }),
        0x2d => Some(Instruction { mnemonic: Mnemonic::And, addressing_mode: AddressingMode::Absolute, bytes: 3, cycles: 4, unofficial: false }),
        0x2e => Some(Instruction { mnemonic: Mnemonic::Rol, addressing_mode: AddressingMode::Absolute, bytes: 3, cycles: 6, unofficial: false }),
        0x2f => Some(Instruction { mnemonic: Mnemonic::Rla, addressing_mode: AddressingMode::Absolute, bytes: 3, cycles: 6, unofficial: true }),
        0x30 => Some(Instruction { mnemonic: Mnemonic::Bmi, addressing_mode: AddressingMode::Relative, bytes: 2, cycles: 2, unofficial: false }),
        0x31 => Some(Instruction { mnemonic: Mnemonic::And, addressing_mode: AddressingMode::ZeroPageIndirectIndexedY, bytes: 2, cycles: 5, unofficial: false }),
        0x32 => None,
        0x33 => Some(Instruction { mnemonic: Mnemonic::Rla, addressing_mode: AddressingMode::ZeroPageIndirectIndexedY, bytes: 2, cycles: 8, unofficial: true }),
        0x34 => Some(Instruction { mnemonic: Mnemonic::Nop, addressing_mode: AddressingMode::ZeroPageIndexedX, bytes: 2, cycles: 4, unofficial: true }),
        0x35 => Some(Instruction { mnemonic: Mnemonic::And, addressing_mode: AddressingMode::ZeroPageIndexedX, bytes: 2, cycles: 4, unofficial: false }),
        0x36 => Some(Instruction { mnemonic: Mnemonic::Rol, addressing_mode: AddressingMode::ZeroPageIndexedX, bytes: 2, cycles: 6, unofficial: false }),
        0x37 => Some(Instruction { mnemonic: Mnemonic::Rla, addressing_mode: AddressingMode::ZeroPageIndexedX, bytes: 2, cycles: 6, unofficial: true }),
        0x38 => Some(Instruction { mnemonic: Mnemonic::Sec, addressing_mode: AddressingMode::Implied, bytes: 1, cycles: 2, unofficial: false }),
        0x39 => Some(Instruction { mnemonic: Mnemonic::And, addressing_mode: AddressingMode::AbsoluteIndexedY, bytes: 3, cycles: 4, unofficial: false }),
        0x3a => Some(Instruction { mnemonic: Mnemonic::Nop, addressing_mode: AddressingMode::Implied, bytes: 1, cycles: 2, unofficial: true }),
        0x3b => Some(Instruction { mnemonic: Mnemonic::Rla, addressing_mode: AddressingMode::AbsoluteIndexedY, bytes: 3, cycles: 7, unofficial: true }),
        0x3c => Some(Instruction { mnemonic: Mnemonic::Nop, addressing_mode: AddressingMode::AbsoluteIndexedX, bytes: 3, cycles: 4, unofficial: true }),
        0x3d => Some(Instruction { mnemonic: Mnemonic::And, addressing_mode: AddressingMode::AbsoluteIndexedX, bytes: 3, cycles: 4, unofficial: false }),
        0x3e => Some(Instruction { mnemonic: Mnemonic::Rol, addressing_mode: AddressingMode::AbsoluteIndexedX, bytes: 3, cycles: 7, unofficial: false }),
        0x3f => Some(Instruction { mnemonic: Mnemonic::Rla, addressing_mode: AddressingMode::AbsoluteIndexedX, bytes: 3, cycles: 7, unofficial: true }),
        _ => None,
    }
}

/// Looks up opcodes `0x40` to `0x7f`.
fn decode_q1(opcode: u8) -> (r: Option<Instruction>)
    requires
        0x40 <= opcode < 0x80,
    ensures
        r == spec_decode_q1(opcode),
{
    match opcode {
        0x40 => Some(Instruction { mnemonic: Mnemonic::Rti, addressing_mode: AddressingMode::Implied, bytes: 1, cycles: 6, unofficial: false }),
        0x41 => Some(Instruction { mnemonic: Mnemonic::Eor, addressing_mode: AddressingMode::ZeroPageIndexedXIndirect, bytes: 2, cycles: 6, unofficial: false }),
        0x42 => None,
        0x43 => Some(Instruction { mnemonic: Mnemonic::Sre, addressing_mode: AddressingMode::ZeroPageIndexedXIndirect, bytes: 2, cycles: 8, unofficial: true }),
        0x44 => Some(Instruction { mnemonic: Mnemonic::Nop, addressing_mode: AddressingMode::ZeroPage, bytes: 2, cycles: 3, unofficial: true }),
        0x45 => Some(Instruction { mnemonic: Mnemonic::Eor, addressing_mode: AddressingMode::ZeroPage, bytes: 2, cycles: 3, unofficial: false }),
        0x46 => Some(Instruction { mnemonic: Mnemonic::Lsr, addressing_mode: AddressingMode::ZeroPage, bytes: 2, cycles: 5, unofficial: false }),
        0x47 => Some(Instruction { mnemonic: Mnemonic::Sre, addressing_mode: AddressingMode::ZeroPage, bytes: 2, cycles: 5, unofficial: true }),
        0x48 => Some(Instruction { mnemonic: Mnemonic::Pha, addressing_mode: AddressingMode::Implied, bytes: 1, cycles: 3, unofficial: false }),
        0x49 => Some(Instruction { mnemonic: Mnemonic::Eor, addressing_mode: AddressingMode::Immediate, bytes: 2, cycles: 2, unofficial: false }),
        0x4a => Some(Instruction { mnemonic: Mnemonic::Lsr, addressing_mode: AddressingMode::Accumulator, bytes: 1, cycles: 2, unofficial: false }),
        0x4b => None,
        0x4c => Some(Instruction { mnemonic: Mnemonic::Jmp, addressing_mode: AddressingMode::Absolute, bytes: 3, cycles: 3, unofficial: false }),
        0x4d => Some(Instruction { mnemonic: Mnemonic::Eor, addressing_mode: AddressingMode::Absolute, bytes: 3, cycles: 4, unofficial: false }),
        0x4e => Some(Instruction { mnemonic: Mnemonic::Lsr, addressing_mode: AddressingMode::Absolute, bytes: 3, cycles: 6, unofficial: false }),
        0x4f => Some(Instruction { mnemonic: Mnemonic::Sre, addressing_mode: AddressingMode::Absolute, bytes: 3, cycles: 6, unofficial: true }),
        0x50 => Some(Instruction { mnemonic: Mnemonic::Bvc, addressing_mode: AddressingMode::Relative, bytes: 2, cycles: 2, unofficial: false }),
        0x51 => Some(Instruction { mnemonic: Mnemonic::Eor, addressing_mode: AddressingMode::ZeroPageIndirectIndexedY, bytes: 2, cycles: 5, unofficial: false }),
        0x52 => None,
        0x53 => Some(Instruction { mnemonic: Mnemonic::Sre, addressing_mode: AddressingMode::ZeroPageIndirectIndexedY, bytes: 2, cycles: 8, unofficial: true }),
        0x54 => Some(Instruction { mnemonic: Mnemonic::Nop, addressing_mode: AddressingMode::ZeroPageIndexedX, bytes: 2, cycles: 4, unofficial: true }),
        0x55 => Some(Instruction { mnemonic: Mnemonic::Eor, addressing_mode: AddressingMode::ZeroPageIndexedX, bytes: 2, cycles: 4, unofficial: false }),
        0x56 => Some(Instruction { mnemonic: Mnemonic::Lsr, addressing_mode: AddressingMode::ZeroPageIndexedX, bytes: 2, cycles: 6, unofficial: false }),
        0x57 => Some(Instruction { mnemonic: Mnemonic::Sre, addressing_mode: AddressingMode::ZeroPageIndexedX, bytes: 2, cycles: 6, unofficial: true }),
        0x58 => Some(Instruction { mnemonic: Mnemonic::Cli, addressing_mode: AddressingMode::Implied, bytes: 1, cycles: 2, unofficial: false }),
        0x59 => Some(Instruction { mnemonic: Mnemonic::Eor, addressing_mode: AddressingMode::AbsoluteIndexedY, bytes: 3, cycles: 4, unofficial: false }),
        0x5a => Some(Instruction { mnemonic: Mnemonic::Nop, addressing_mode: AddressingMode::Implied, bytes: 1, cycles: 2, unofficial: true }),
        0x5b => Some(Instruction { mnemonic: Mnemonic::Sre, addressing_mode: AddressingMode::AbsoluteIndexedY, bytes: 3, cycles: 7, unofficial: true }),
        0x5c => Some(Instruction { mnemonic: Mnemonic::Nop, addressing_mode: AddressingMode::AbsoluteIndexedX, bytes: 3, cycles: 4, unofficial: true }),
        0x5d => Some(Instruction { mnemonic: Mnemonic::Eor, addressing_mode: AddressingMode::AbsoluteIndexedX, bytes: 3, cycles: 4, unofficial: false }),
        0x5e => Some(Instruction { mnemonic: Mnemonic::Lsr, addressing_mode: AddressingMode::AbsoluteIndexedX, bytes: 3, cycles: 7, unofficial: false }),
        0x5f => Some(Instruction { mnemonic: Mnemonic::Sre, addressing_mode: AddressingMode::AbsoluteIndexedX, bytes: 3, cycles: 7, unofficial: true }),
        0x60 => Some(Instruction { mnemonic: Mnemonic::Rts, addressing_mode: AddressingMode::Implied, bytes: 1, cycles: 6, unofficial: false }),
        0x61 => Some(Instruction { mnemonic: Mnemonic::Adc, addressing_mode: AddressingMode::ZeroPageIndexedXIndirect, bytes: 2, cycles: 6, unofficial: false }),
        0x62 => None,
        0x63 => Some(Instruction { mnemonic: Mnemonic::Rra, addressing_mode: AddressingMode::ZeroPageIndexedXIndirect, bytes: 2, cycles: 8, unofficial: true }),
        0x64 => Some(Instruction { mnemonic: Mnemonic::Nop, addressing_mode: AddressingMode::ZeroPage, bytes: 2, cycles: 3, unofficial: true }),
        0x65 => Some(Instruction { mnemonic: Mnemonic::Adc, addressing_mode: AddressingMode::ZeroPage, bytes: 2, cycles: 3, unofficial: false }),
        0x66 => Some(Instruction { mnemonic: Mnemonic::Ror, addressing_mode: AddressingMode::ZeroPage, bytes: 2, cycles: 5, unofficial: false }),
        0x67 => Some(Instruction { mnemonic: Mnemonic::Rra, addressing_mode: AddressingMode::ZeroPage, bytes: 2, cycles: 5, unofficial: true }),
        0x68 => Some(Instruction { mnemonic: Mnemonic::Pla, addressing_mode: AddressingMode::Implied, bytes: 1, cycles: 4, unofficial: false }),
        0x69 => Some(Instruction { mnemonic: Mnemonic::Adc, addressing_mode: AddressingMode::Immediate, bytes: 2, cycles: 2, unofficial: false }),
        0x6a => Some(Instruction { mnemonic: Mnemonic::Ror, addressing_mode: AddressingMode::Accumulator, bytes: 1, cycles: 2, unofficial: false }),
        0x6b => None,
        0x6c => Some(Instruction { mnemonic: Mnemonic::Jmp, addressing_mode: AddressingMode::AbsoluteIndirect, bytes: 3, cycles: 5, unofficial: false }),
        0x6d => Some(Instruction { mnemonic: Mnemonic::Adc, addressing_mode: AddressingMode::Absolute, bytes: 3, cycles: 4, unofficial: false }),
        0x6e => Some(Instruction { mnemonic: Mnemonic::Ror, addressing_mode: AddressingMode::Absolute, bytes: 3, cycles: 6, unofficial: false }),
        0x6f => Some(Instruction { mnemonic: Mnemonic::Rra, addressing_mode: AddressingMode::Absolute, bytes: 3, cycles: 6, unofficial: true }),
        0x70 => Some(Instruction { mnemonic: Mnemonic::Bvs, addressing_mode: AddressingMode::Relative, bytes: 2, cycles: 2, unofficial: false }),
        0x71 => Some(Instruction { mnemonic: Mnemonic::Adc, addressing_mode: AddressingMode::ZeroPageIndirectIndexedY, bytes: 2, cycles: 5, unofficial: false }),
        0x72 => None,
        0x73 => Some(Instruction { mnemonic: Mnemonic::Rra, addressing_mode: AddressingMode::ZeroPageIndirectIndexedY, bytes: 2, cycles: 8, unofficial: true }),
        0x74 => Some(Instruction { mnemonic: Mnemonic::Nop, addressing_mode: AddressingMode::ZeroPageIndexedX, bytes: 2, cycles: 4, unofficial: true }),
        0x75 => Some(Instruction { mnemonic: Mnemonic::Adc, addressing_mode: AddressingMode::ZeroPageIndexedX, bytes: 2, cycles: 4, unofficial: false }),
        0x76 => Some(Instruction { mnemonic: Mnemonic::Ror, addressing_mode: AddressingMode::ZeroPageIndexedX, bytes: 2, cycles: 6, unofficial: false }),
        0x77 => Some(Instruction { mnemonic: Mnemonic::Rra, addressing_mode: AddressingMode::ZeroPageIndexedX, bytes: 2, cycles: 6, unofficial: true }),
        0x78 => Some(Instruction { mnemonic: Mnemonic::Sei, addressing_mode: AddressingMode::Implied, bytes: 1, cycles: 2, unofficial: false }),
        0x79 => Some(Instruction { mnemonic: Mnemonic::Adc, addressing_mode: AddressingMode::AbsoluteIndexedY, bytes: 3, cycles: 4, unofficial: false }),
        0x7a => Some(Instruction { mnemonic: Mnemonic::Nop, addressing_mode: AddressingMode::Implied, bytes: 1, cycles: 2, unofficial: true }),
        0x7b => Some(Instruction { mnemonic: Mnemonic::Rra, addressing_mode: AddressingMode::AbsoluteIndexedY, bytes: 3, cycles: 7, unofficial: true }),
        0x7c => Some(Instruction { mnemonic: Mnemonic::Nop, addressing_mode: AddressingMode::AbsoluteIndexedX, bytes: 3, cycles: 4, unofficial: true }),
        0x7d => Some(Instruction { mnemonic: Mnemonic::Adc, addressing_mode: AddressingMode::AbsoluteIndexedX, bytes: 3, cycles: 4, unofficial: false }),
        0x7e => Some(Instruction { mnemonic: Mnemonic::Ror, addressing_mode: AddressingMode::AbsoluteIndexedX, bytes: 3, cycles: 7, unofficial: false }),
        0x7f => Some(Instruction { mnemonic: Mnemonic::Rra, addressing_mode: AddressingMode::AbsoluteIndexedX, bytes: 3, cycles: 7, unofficial: true }),
        _ => None,
    }
}

/// Looks up opcodes `0x80` to `0xbf`.
fn decode_q2(opcode: u8) -> (r: Option<Instruction>)
    requires
        0x80 <= opcode < 0xc0,
    ensures
        r == spec_decode_q2(opcode),
{
    match opcode {
        0x80 => Some(Instruction { mnemonic: Mnemonic::Nop, addressing_mode: AddressingMode::Absolute, bytes: 2, cycles: 2, unofficial: true }),
        0x81 => Some(Instruction { mnemonic: Mnemonic::Sta, addressing_mode: AddressingMode::ZeroPageIndexedXIndirect, bytes: 2, cycles: 6, unofficial: false }),
        0x82 => Some(Instruction { mnemonic: Mnemonic::Nop, addressing_mode: AddressingMode::Absolute, bytes: 2, cycles: 2, unofficial: true }),
        0x83 => Some(Instruction { mnemonic: Mnemonic::Sax, addressing_mode: AddressingMode::ZeroPageIndexedXIndirect, bytes: 2, cycles: 6, unofficial: true }),
        0x84 => Some(Instruction { mnemonic: Mnemonic::Sty, addressing_mode: AddressingMode::ZeroPage, bytes: 2, cycles: 3, unofficial: false }),
        0x85 => Some(Instruction { mnemonic: Mnemonic::Sta, addressing_mode: AddressingMode::ZeroPage, bytes: 2, cycles: 3, unofficial: false }),
        0x86 => Some(Instruction { mnemonic: Mnemonic::Stx, addressing_mode: AddressingMode::ZeroPage, bytes: 2, cycles: 3, unofficial: false }),
        0x87 => Some(Instruction { mnemonic: Mnemonic::Sax, addressing_mode: AddressingMode::ZeroPage, bytes: 2, cycles: 3, unofficial: true }),
        0x88 => Some(Instruction { mnemonic: Mnemonic::Dey, addressing_mode: AddressingMode::Implied, bytes: 1, cycles: 2, unofficial: false }),
        0x89 => Some(Instruction { mnemonic: Mnemonic::Nop, addressing_mode: AddressingMode::Absolute, bytes: 2, cycles: 2, unofficial: true }),
        0x8a => Some(Instruction { mnemonic: Mnemonic::Txa, addressing_mode: AddressingMode::Implied, bytes: 1, cycles: 2, unofficial: false }),
        0x8b => None,
        0x8c => Some(Instruction { mnemonic: Mnemonic::Sty, addressing_mode: AddressingMode::Absolute, bytes: 3, cycles: 4, unofficial: false }),
        0x8d => Some(Instruction { mnemonic: Mnemonic::Sta, addressing_mode: AddressingMode::Absolute, bytes: 3, cycles: 4, unofficial: false }),
        0x8e => Some(Instruction { mnemonic: Mnemonic::Stx, addressing_mode: AddressingMode::Absolute, bytes: 3, cycles: 4, unofficial: false }),
        0x8f => Some(Instruction { mnemonic: Mnemonic::Sax, addressing_mode: AddressingMode::Absolute, bytes: 3, cycles: 4, unofficial: true }),
        0x90 => Some(Instruction { mnemonic: Mnemonic::Bcc, addressing_mode: AddressingMode::Relative, bytes: 2, cycles: 2, unofficial: false }),
        0x91 => Some(Instruction { mnemonic: Mnemonic::Sta, addressing_mode: AddressingMode::ZeroPageIndirectIndexedY, bytes: 2, cycles: 6, unofficial: false }),
        0x92 => None,
        0x93 => None,
        0x94 => Some(Instruction { mnemonic: Mnemonic::Sty, addressing_mode: AddressingMode::ZeroPageIndexedX, bytes: 2, cycles: 4, unofficial: false }),
        0x95 => Some(Instruction { mnemonic: Mnemonic::Sta, addressing_mode: AddressingMode::ZeroPageIndexedX, bytes: 2, cycles: 4, unofficial: false }),
        0x96 => Some(Instruction { mnemonic: Mnemonic::Stx, addressing_mode: AddressingMode::ZeroPageIndexedY, bytes: 2, cycles: 4, unofficial: false }),
        0x97 => Some(Instruction { mnemonic: Mnemonic::Sax, addressing_mode: AddressingMode::ZeroPageIndexedY, bytes: 2, cycles: 4, unofficial: true }),
        0x98 => Some(Instruction { mnemonic: Mnemonic::Tya, addressing_mode: AddressingMode::Implied, bytes: 1, cycles: 2, unofficial: false }),
        0x99 => Some(Instruction { mnemonic: Mnemonic::Sta, addressing_mode: AddressingMode::AbsoluteIndexedY, bytes: 3, cycles: 5, unofficial: false }),
        0x9a => Some(Instruction { mnemonic: Mnemonic::Txs, addressing_mode: AddressingMode::Implied, bytes: 1, cycles: 2, unofficial: false }),
        0x9b => None,
        0x9c => None,
        0x9d => Some(Instruction { mnemonic: Mnemonic::Sta, addressing_mode: AddressingMode::AbsoluteIndexedX, bytes: 3, cycles: 5, unofficial: false }),
        0x9e => None,
        0x9f => None,
        0xa0 => Some(Instruction { mnemonic: Mnemonic::Ldy, addressing_mode: AddressingMode::Immediate, bytes: 2, cycles: 2, unofficial: false }),
        0xa1 => Some(Instruction { mnemonic: Mnemonic::Lda, addressing_mode: AddressingMode::ZeroPageIndexedXIndirect, bytes: 2, cycles: 6, unofficial: false }),
        0xa2 => Some(Instruction { mnemonic: Mnemonic::Ldx, addressing_mode: AddressingMode::Immediate, bytes: 2, cycles: 2, unofficial: false }),
        0xa3 => Some(Instruction { mnemonic: Mnemonic::Lax, addressing_mode: AddressingMode::ZeroPageIndexedXIndirect, bytes: 2, cycles: 6, unofficial: true }),
        0xa4 => Some(Instruction { mnemonic: Mnemonic::Ldy, addressing_mode: AddressingMode::ZeroPage, bytes: 2, cycles: 3, unofficial: false }),
        0xa5 => Some(Instruction { mnemonic: Mnemonic::Lda, addressing_mode: AddressingMode::ZeroPage, bytes: 2, cycles: 3, unofficial: false }),
        0xa6 => Some(Instruction { mnemonic: Mnemonic::Ldx, addressing_mode: AddressingMode::ZeroPage, bytes: 2, cycles: 3, unofficial: false }),
        0xa7 => Some(Instruction { mnemonic: Mnemonic::Lax, addressing_mode: AddressingMode::ZeroPage, bytes: 2, cycles: 3, unofficial: true }),
        0xa8 => Some(Instruction { mnemonic: Mnemonic::Tay, addressing_mode: AddressingMode::Implied, bytes: 1, cycles: 2, unofficial: false }),
        0xa9 => Some(Instruction { mnemonic: Mnemonic::Lda, addressing_mode: AddressingMode::Immediate, bytes: 2, cycles: 2, unofficial: false }),
        0xaa => Some(Instruction { mnemonic: Mnemonic::Tax, addressing_mode: AddressingMode::Implied, bytes: 1, cycles: 2, unofficial: false }),
        0xab => Some(Instruction { mnemonic: Mnemonic::Lax, addressing_mode: AddressingMode::Immediate, bytes: 2, cycles: 2, unofficial: true }),
        0xac => Some(Instruction { mnemonic: Mnemonic::Ldy, addressing_mode: AddressingMode::Absolute, bytes: 3, cycles: 4, unofficial: false }),
        0xad => Some(Instruction { mnemonic: Mnemonic::Lda, addressing_mode: AddressingMode::Absolute, bytes: 3, cycles: 4, unofficial: false }),
        0xae => Some(Instruction { mnemonic: Mnemonic::Ldx, addressing_mode: AddressingMode::Absolute, bytes: 3, cycles: 4, unofficial: false }),
        0xaf => Some(Instruction { mnemonic: Mnemonic::Lax, addressing_mode: AddressingMode::Absolute, bytes: 3, cycles: 4, unofficial: true }),
        0xb0 => Some(Instruction { mnemonic: Mnemonic::Bcs, addressing_mode: AddressingMode::Relative, bytes: 2, cycles: 2, unofficial: false }),
        0xb1 => Some(Instruction { mnemonic: Mnemonic::Lda, addressing_mode: AddressingMode::ZeroPageIndirectIndexedY, bytes: 2, cycles: 5, unofficial: false }),
        0xb2 => None,
        0xb3 => Some(Instruction { mnemonic: Mnemonic::Lax, addressing_mode: AddressingMode::ZeroPageIndirectIndexedY, bytes: 2, cycles: 5, unofficial: true }),
        0xb4 => Some(Instruction { mnemonic: Mnemonic::Ldy, addressing_mode: AddressingMode::ZeroPageIndexedX, bytes: 2, cycles: 4, unofficial: false }),
        0xb5 => Some(Instruction { mnemonic: Mnemonic::Lda, addressing_mode: AddressingMode::ZeroPageIndexedX, bytes: 2, cycles: 4, unofficial: false }),
        0xb6 => Some(Instruction { mnemonic: Mnemonic::Ldx, addressing_mode: AddressingMode::ZeroPageIndexedY, bytes: 2, cycles: 4, unofficial: false }),
        0xb7 => Some(Instruction { mnemonic: Mnemonic::Lax, addressing_mode: AddressingMode::ZeroPageIndexedY, bytes: 2, cycles: 4, unofficial: true }),
        0xb8 => Some(Instruction { mnemonic: Mnemonic::Clv, addressing_mode: AddressingMode::Implied, bytes: 1, cycles: 2, unofficial: false }),
        0xb9 => Some(Instruction { mnemonic: Mnemonic::Lda, addressing_mode: AddressingMode::AbsoluteIndexedY, bytes: 3, cycles: 4, unofficial: false }),
        0xba => Some(Instruction { mnemonic: Mnemonic::Tsx, addressing_mode: AddressingMode::Implied, bytes: 1, cycles: 2, unofficial: false }),
        0xbb => None,
        0xbc => Some(Instruction { mnemonic: Mnemonic::Ldy, addressing_mode: AddressingMode::AbsoluteIndexedX, bytes: 3, cycles: 4, unofficial: false }),
        0xbd => Some(Instruction { mnemonic: Mnemonic::Lda, addressing_mode: AddressingMode::AbsoluteIndexedX, bytes: 3, cycles: 4, unofficial: false }),
        0xbe => Some(Instruction { mnemonic: Mnemonic::Ldx, addressing_mode: AddressingMode::AbsoluteIndexedY, bytes: 3, cycles: 4, unofficial: false }),
        0xbf => Some(Instruction { mnemonic: Mnemonic::Lax, addressing_mode: AddressingMode::AbsoluteIndexedY, bytes: 3, cycles: 4, unofficial: true }),
        _ => None,
    }
}

/// Looks up opcodes `0xc0` to `0xff`.
fn decode_q3(opcode: u8) -> (r: Option<Instruction>)
    requires
        0xc0 <= opcode < 0x100,
    ensures
        r == spec_decode_q3(opcode),
{
    match opcode {
        0xc0 => Some(Instruction { mnemonic: Mnemonic::Cpy, addressing_mode: AddressingMode::Immediate, bytes: 2, cycles: 2, unofficial: false }),
        0xc1 => Some(Instruction { mnemonic: Mnemonic::Cmp, addressing_mode: AddressingMode::ZeroPageIndexedXIndirect, bytes: 2, cycles: 6, unofficial: false }),
        0xc2 => Some(Instruction { mnemonic: Mnemonic::Nop, addressing_mode: AddressingMode::Absolute, bytes: 2, cycles: 2, unofficial: true }),
        0xc3 => Some(Instruction { mnemonic: Mnemonic::Dcp, addressing_mode: AddressingMode::ZeroPageIndexedXIndirect, bytes: 2, cycles: 8, unofficial: true }),
        0xc4 => Some(Instruction { mnemonic: Mnemonic::Cpy, addressing_mode: AddressingMode::ZeroPage, bytes: 2, cycles: 3, unofficial: false }),
        0xc5 => Some(Instruction { mnemonic: Mnemonic::Cmp, addressing_mode: AddressingMode::ZeroPage, bytes: 2, cycles: 3, unofficial: false }),
        0xc6 => Some(Instruction { mnemonic: Mnemonic::Dec, addressing_mode: AddressingMode::ZeroPage, bytes: 2, cycles: 5, unofficial: false }),
        0xc7 => Some(Instruction { mnemonic: Mnemonic::Dcp, addressing_mode: AddressingMode::ZeroPage, bytes: 2, cycles: 5, unofficial: true }),
        0xc8 => Some(Instruction { mnemonic: Mnemonic::Iny, addressing_mode: AddressingMode::Implied, bytes: 1, cycles: 2, unofficial: false }),
        0xc9 => Some(Instruction { mnemonic: Mnemonic::Cmp, addressing_mode: AddressingMode::Immediate, bytes: 2, cycles: 2, unofficial: false }),
        0xca => Some(Instruction { mnemonic: Mnemonic::Dex, addressing_mode: AddressingMode::Implied, bytes: 1, cycles: 2, unofficial: false }),
        0xcb => None,
        0xcc => Some(Instruction { mnemonic: Mnemonic::Cpy, addressing_mode: AddressingMode::Absolute, bytes: 3, cycles: 4, unofficial: false }),
        0xcd => Some(Instruction { mnemonic: Mnemonic::Cmp, addressing_mode: AddressingMode::Absolute, bytes: 3, cycles: 4, unofficial: false }),
        0xce => Some(Instruction { mnemonic: Mnemonic::Dec, addressing_mode: AddressingMode::Absolute, bytes: 3, cycles: 6, unofficial: false }),
        0xcf => Some(Instruction { mnemonic: Mnemonic::Dcp, addressing_mode: AddressingMode::Absolute, bytes: 3, cycles: 6, unofficial: true }),
        0xd0 => Some(Instruction { mnemonic: Mnemonic::Bne, addressing_mode: AddressingMode::Relative, bytes: 2, cycles: 2, unofficial: false }),
        0xd1 => Some(Instruction { mnemonic: Mnemonic::Cmp, addressing_mode: AddressingMode::ZeroPageIndirectIndexedY, bytes: 2, cycles: 5, unofficial: false }),
        0xd2 => None,
        0xd3 => Some(Instruction { mnemonic: Mnemonic::Dcp, addressing_mode: AddressingMode::ZeroPageIndirectIndexedY, bytes: 2, cycles: 8, unofficial: true }),
        0xd4 => Some(Instruction { mnemonic: Mnemonic::Nop, addressing_mode: AddressingMode::ZeroPageIndexedX, bytes: 2, cycles: 4, unofficial: true }),
        0xd5 => Some(Instruction { mnemonic: Mnemonic::Cmp, addressing_mode: AddressingMode::ZeroPageIndexedX, bytes: 2, cycles: 4, unofficial: false }),
        0xd6 => Some(Instruction { mnemonic: Mnemonic::Dec, addressing_mode: AddressingMode::ZeroPageIndexedX, bytes: 2, cycles: 6, unofficial: false }),
        0xd7 => Some(Instruction { mnemonic: Mnemonic::Dcp, addressing_mode: AddressingMode::ZeroPageIndexedX, bytes: 2, cycles: 6, unofficial: true }),
        0xd8 => Some(Instruction { mnemonic: Mnemonic::Cld, addressing_mode: AddressingMode::Implied, bytes: 1, cycles: 2, unofficial: false }),
        0xd9 => Some(Instruction { mnemonic: Mnemonic::Cmp, addressing_mode: AddressingMode::AbsoluteIndexedY, bytes: 3, cycles: 4, unofficial: false }),
        0xda => Some(Instruction { mnemonic: Mnemonic::Nop, addressing_mode: AddressingMode::Implied, bytes: 1, cycles: 2, unofficial: true }),
        0xdb => Some(Instruction { mnemonic: Mnemonic::Dcp, addressing_mode: AddressingMode::AbsoluteIndexedY, bytes: 3, cycles: 7, unofficial: true }),
        0xdc => Some(Instruction { mnemonic: Mnemonic::Nop, addressing_mode: AddressingMode::AbsoluteIndexedX, bytes: 3, cycles: 4, unofficial: true }),
        0xdd => Some(Instruction { mnemonic: Mnemonic::Cmp, addressing_mode: AddressingMode::AbsoluteIndexedX, bytes: 3, cycles: 4, unofficial: false }),
        0xde => Some(Instruction { mnemonic: Mnemonic::Dec, addressing_mode: AddressingMode::AbsoluteIndexedX, bytes: 3, cycles: 7, unofficial: false }),
        0xdf => Some(Instruction { mnemonic: Mnemonic::Dcp, addressing_mode: AddressingMode::AbsoluteIndexedX, bytes: 3, cycles: 7, unofficial: true }),
        0xe0 => Some(Instruction { mnemonic: Mnemonic::Cpx, addressing_mode: AddressingMode::Immediate, bytes: 2, cycles: 2, unofficial: false }),
        0xe1 => Some(Instruction { mnemonic: Mnemonic::Sbc, addressing_mode: AddressingMode::ZeroPageIndexedXIndirect, bytes: 2, cycles: 6, unofficial: false }),
        0xe2 => Some(Instruction { mnemonic: Mnemonic::Nop, addressing_mode: AddressingMode::Absolute, bytes: 2, cycles: 2, unofficial: true }),
        0xe3 => Some(Instruction { mnemonic: Mnemonic::Isc, addressing_mode: AddressingMode::ZeroPageIndexedXIndirect, bytes: 2, cycles: 8, unofficial: true }),
        0xe4 => Some(Instruction { mnemonic: Mnemonic::Cpx, addressing_mode: AddressingMode::ZeroPage, bytes: 2, cycles: 3, unofficial: false }),
        0xe5 => Some(Instruction { mnemonic: Mnemonic::Sbc, addressing_mode: AddressingMode::ZeroPage, bytes: 2, cycles: 3, unofficial: false }),
        0xe6 => Some(Instruction { mnemonic: Mnemonic::Inc, addressing_mode: AddressingMode::ZeroPage, bytes: 2, cycles: 5, unofficial: false }),
        0xe7 => Some(Instruction { mnemonic: Mnemonic::Isc, addressing_mode: AddressingMode::ZeroPage, bytes: 2, cycles: 5, unofficial: true }),
        0xe8 => Some(Instruction { mnemonic: Mnemonic::Inx, addressing_mode: AddressingMode::Implied, bytes: 1, cycles: 2, unofficial: false }),
        0xe9 => Some(Instruction { mnemonic: Mnemonic::Sbc, addressing_mode: AddressingMode::Immediate, bytes: 2, cycles: 2, unofficial: false }),
        0xea => Some(Instruction { mnemonic: Mnemonic::Nop, addressing_mode: AddressingMode::Implied, bytes: 1, cycles: 2, unofficial: false }),
        0xeb => Some(Instruction { mnemonic: Mnemonic::Sbc, addressing_mode: AddressingMode::Immediate, bytes: 2, cycles: 2, unofficial: true }),
        0xec => Some(Instruction { mnemonic: Mnemonic::Cpx, addressing_mode: AddressingMode::Absolute, bytes: 3, cycles: 4, unofficial: false }),
        0xed => Some(Instruction { mnemonic: Mnemonic::Sbc, addressing_mode: AddressingMode::Absolute, bytes: 3, cycles: 4, unofficial: false }),
        0xee => Some(Instruction { mnemonic: Mnemonic::Inc, addressing_mode: AddressingMode::Absolute, bytes: 3, cycles: 6, unofficial: false }),
        0xef => Some(Instruction { mnemonic: Mnemonic::Isc, addressing_mode: AddressingMode::Absolute, bytes: 3, cycles: 6, unofficial: true }),
        0xf0 => Some(Instruction { mnemonic: Mnemonic::Beq, addressing_mode: AddressingMode::Relative, bytes: 2, cycles: 2, unofficial: false }),
        0xf1 => Some(Instruction { mnemonic: Mnemonic::Sbc, addressing_mode: AddressingMode::ZeroPageIndirectIndexedY, bytes: 2, cycles: 5, unofficial: false }),
        0xf2 => None,
        0xf3 => Some(Instruction { mnemonic: Mnemonic::Isc, addressing_mode: AddressingMode::ZeroPageIndirectIndexedY, bytes: 2, cycles: 8, unofficial: true }),
        0xf4 => Some(Instruction { mnemonic: Mnemonic::Nop, addressing_mode: AddressingMode::ZeroPageIndexedX, bytes: 2, cycles: 4, unofficial: true }),
        0xf5 => Some(Instruction { mnemonic: Mnemonic::Sbc, addressing_mode: AddressingMode::ZeroPageIndexedX, bytes: 2, cycles: 4, unofficial: false }),
        0xf6 => Some(Instruction { mnemonic: Mnemonic::Inc, addressing_mode: AddressingMode::ZeroPageIndexedX, bytes: 2, cycles: 6, unofficial: false }),
        0xf7 => Some(Instruction { mnemonic: Mnemonic::Isc, addressing_mode: AddressingMode::ZeroPageIndexedX, bytes: 2, cycles: 6, unofficial: true }),
        0xf8 => Some(Instruction { mnemonic: Mnemonic::Sed, addressing_mode: AddressingMode::Implied, bytes: 1, cycles: 2, unofficial: false }),
        0xf9 => Some(Instruction { mnemonic: Mnemonic::Sbc, addressing_mode: AddressingMode::AbsoluteIndexedY, bytes: 3, cycles: 4, unofficial: false }),
        0xfa => Some(Instruction { mnemonic: Mnemonic::Nop, addressing_mode: AddressingMode::Implied, bytes: 1, cycles: 2, unofficial: true }),
        0xfb => Some(Instruction { mnemonic: Mnemonic::Isc, addressing_mode: AddressingMode::AbsoluteIndexedY, bytes: 3, cycles: 7, unofficial: true }),
        0xfc => Some(Instruction { mnemonic: Mnemonic::Nop, addressing_mode: AddressingMode::AbsoluteIndexedX, bytes: 3, cycles: 4, unofficial: true }),
        0xfd => Some(Instruction { mnemonic: Mnemonic::Sbc, addressing_mode: AddressingMode::AbsoluteIndexedX, bytes: 3, cycles: 4, unofficial: false }),
        0xfe => Some(Instruction { mnemonic: Mnemonic::Inc, addressing_mode: AddressingMode::AbsoluteIndexedX, bytes: 3, cycles: 7, unofficial: false }),
        0xff => Some(Instruction { mnemonic: Mnemonic::Isc, addressing_mode: AddressingMode::AbsoluteIndexedX, bytes: 3, cycles: 7, unofficial: true }),
        _ => None,
    }
}

/// Looks an opcode up in the dispatch table.
pub fn decode(opcode: u8) -> (r: Option<Instruction>)
    ensures
        r == spec_decode(opcode),
{
    proof {
        reveal(spec_decode);
    }
    if opcode < 0x40 {
        decode_q0(opcode)
    } else if opcode < 0x80 {
        decode_q1(opcode)
    } else if opcode < 0xC0 {
        decode_q2(opcode)
    } else {
        decode_q3(opcode)
    }
}


/// The operand shapes a handler accepts: reads for the value family, a
/// memory location for stores and read-modify-writes, accumulator or memory
/// for shifts, a displacement for branches, jump targets for JMP/JSR,
/// nothing for the implied family; NOP swallows anything the table pairs it
/// with.
pub open spec fn spec_operand_ok(m: Mnemonic, op: Operand) -> bool {
    match m {
        Mnemonic::Adc | Mnemonic::And | Mnemonic::Bit | Mnemonic::Cmp | Mnemonic::Cpx
            | Mnemonic::Cpy | Mnemonic::Eor | Mnemonic::Lax | Mnemonic::Lda | Mnemonic::Ldx
            | Mnemonic::Ldy | Mnemonic::Ora | Mnemonic::Sbc => op.spec_has_value(),
        Mnemonic::Sta | Mnemonic::Stx | Mnemonic::Sty | Mnemonic::Sax | Mnemonic::Dec
            | Mnemonic::Inc | Mnemonic::Dcp | Mnemonic::Isc | Mnemonic::Slo | Mnemonic::Sre
            | Mnemonic::Rla | Mnemonic::Rra => op.spec_has_address(),
        Mnemonic::Asl | Mnemonic::Lsr | Mnemonic::Rol | Mnemonic::Ror => op is Accumulator
            || op.spec_has_address(),
        Mnemonic::Bcc | Mnemonic::Bcs | Mnemonic::Beq | Mnemonic::Bmi | Mnemonic::Bne
            | Mnemonic::Bpl | Mnemonic::Bvc | Mnemonic::Bvs => op is Relative,
        Mnemonic::Jmp => op is Absolute || op is AbsoluteIndirect,
        Mnemonic::Jsr => op is Absolute,
        Mnemonic::Nop => true,
        _ => op is Implied,
    }
}

/// The addressing modes whose decoded operand carries a value.
pub open spec fn spec_value_mode(mode: AddressingMode) -> bool {
    match mode {
        AddressingMode::Immediate => true,
        _ => spec_address_mode(mode),
    }
}

/// The addressing modes whose decoded operand names a memory location.
pub open spec fn spec_address_mode(mode: AddressingMode) -> bool {
    match mode {
        AddressingMode::Absolute | AddressingMode::ZeroPage | AddressingMode::AbsoluteIndexedX
            | AddressingMode::AbsoluteIndexedY | AddressingMode::ZeroPageIndexedX
            | AddressingMode::ZeroPageIndexedY | AddressingMode::ZeroPageIndexedXIndirect
            | AddressingMode::ZeroPageIndirectIndexedY => true,
        _ => false,
    }
}

/// The mode pairings the table is allowed to contain for each mnemonic,
/// matching what its handler accepts.
pub open spec fn spec_mode_ok(m: Mnemonic, mode: AddressingMode) -> bool {
    match m {
        Mnemonic::Adc | Mnemonic::And | Mnemonic::Bit | Mnemonic::Cmp | Mnemonic::Cpx
            | Mnemonic::Cpy | Mnemonic::Eor | Mnemonic::Lax | Mnemonic::Lda | Mnemonic::Ldx
            | Mnemonic::Ldy | Mnemonic::Ora | Mnemonic::Sbc => spec_value_mode(mode),
        Mnemonic::Sta | Mnemonic::Stx | Mnemonic::Sty | Mnemonic::Sax | Mnemonic::Dec
            | Mnemonic::Inc | Mnemonic::Dcp | Mnemonic::Isc | Mnemonic::Slo | Mnemonic::Sre
            | Mnemonic::Rla | Mnemonic::Rra => spec_address_mode(mode),
        Mnemonic::Asl | Mnemonic::Lsr | Mnemonic::Rol | Mnemonic::Ror => mode
            is Accumulator || spec_address_mode(mode),
        Mnemonic::Bcc | Mnemonic::Bcs | Mnemonic::Beq | Mnemonic::Bmi | Mnemonic::Bne
            | Mnemonic::Bpl | Mnemonic::Bvc | Mnemonic::Bvs => mode is Relative,
        Mnemonic::Jmp => mode is Absolute || mode is AbsoluteIndirect,
        Mnemonic::Jsr => mode is Absolute,
        Mnemonic::Nop => true,
        _ => mode is Implied,
    }
}

/// Every populated table entry pairs its mnemonic with a mode its handler
/// accepts, runs 2 to 8 base cycles, and is 1 to 3 bytes long.
pub open spec fn spec_entry_ok(e: Option<Instruction>) -> bool {
    match e {
        Some(i) => spec_mode_ok(i.mnemonic, i.addressing_mode) && 2 <= i.cycles <= 8 && 1
            <= i.bytes <= 3,
        None => true,
    }
}

/// The table property over opcodes `0x0` to `0x3f`.
proof fn lemma_decode_q0_ok(opcode: u8)
    ensures
        spec_entry_ok(spec_decode_q0(opcode)),
{
}

/// The table property over opcodes `0x40` to `0x7f`.
proof fn lemma_decode_q1_ok(opcode: u8)
    ensures
        spec_entry_ok(spec_decode_q1(opcode)),
{
}

/// The table property over opcodes `0x80` to `0xbf`.
proof fn lemma_decode_q2_ok(opcode: u8)
    ensures
        spec_entry_ok(spec_decode_q2(opcode)),
{
}

/// The table property over opcodes `0xc0` to `0xff`.
proof fn lemma_decode_q3_ok(opcode: u8)
    ensures
        spec_entry_ok(spec_decode_q3(opcode)),
{
}

/// The table property over the whole dispatch table.
pub proof fn lemma_decode_ok(opcode: u8)
    ensures
        spec_entry_ok(spec_decode(opcode)),
{
    reveal(spec_decode);
    lemma_decode_q0_ok(opcode);
    lemma_decode_q1_ok(opcode);
    lemma_decode_q2_ok(opcode);
    lemma_decode_q3_ok(opcode);
}

} // verus!
