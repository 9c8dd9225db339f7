//! CPU plumbing: flag updates, the stack discipline, and the addressing
//! modes.
//!
//! Every operation is written twice: as a spec function on the machine view
//! — composed from the bus transitions, so a fetch that lands on a PPU
//! register carries its side effect — and as executable code proved equal to
//! it.  Zero-page pointer fetches wrap within the zero page, and the
//! absolute-indirect fetch reproduces the 6502 page-wrap bug.

use vstd::prelude::*;

use crate::emu::{CPUData, EmuError, EmuView, Emulator, Registers};
use crate::instructions::{decode, spec_decode, spec_operand_ok, AddressingMode, Mnemonic, Operand};
use crate::status::StatusRegister;

verus! {

/// A `u8` stepped forward by one, wrapping at 256.
pub open spec fn spec_inc8(v: u8) -> u8 {
    ((v as int + 1) % 256) as u8
}

/// A `u8` stepped back by one, wrapping at 256.
pub open spec fn spec_dec8(v: u8) -> u8 {
    ((v as int + 255) % 256) as u8
}

/// A nonnegative integer folded into the 16-bit address space.
pub open spec fn spec_w16(a: int) -> u16 {
    (a % 0x10000) as u16
}

/// The status register with `Z` and `N` set from `val`: `Z` exactly when
/// `val` is zero, `N` exactly when bit 7 is set.
pub open spec fn spec_zn(f: StatusRegister, val: u8) -> StatusRegister {
    StatusRegister { zero: val == 0, negative: val >= 128, ..f }
}

impl Operand {
    /// The operand kinds that name a memory location.
    pub open spec fn spec_has_address(self) -> bool {
        match self {
            Operand::Absolute(_) => true,
            Operand::AbsoluteIndexedX(_) => true,
            Operand::AbsoluteIndexedY(_) => true,
            Operand::ZeroPage(_) => true,
            Operand::ZeroPageIndexedX(_) => true,
            Operand::ZeroPageIndexedY(_) => true,
            Operand::ZeroPageIndexedXIndirect(_) => true,
            Operand::ZeroPageIndirectIndexedY(_) => true,
            _ => false,
        }
    }

    /// The operand kinds a value can be read through.
    pub open spec fn spec_has_value(self) -> bool {
        self is Immediate || self.spec_has_address()
    }
}

impl EmuView {
    /// The 16-bit pointer at zero-page offset `off`: low byte at `off`, high
    /// byte at `(off + 1) mod 256` — the fetch never leaves the zero page.
    pub open spec fn zp_pointer(self, off: u8) -> u16 {
        (self.ram[off as int] as int + 256 * self.ram[(off as int + 1) % 256] as int) as u16
    }

    /// A push: the byte lands at `0x0100 | sp`, then `sp` steps down.
    pub open spec fn pushed(self, val: u8) -> EmuView {
        let s1 = self.bus_written((0x100 + self.regs.sp as int) as u16, val);
        EmuView { regs: Registers { sp: spec_dec8(self.regs.sp), ..s1.regs }, ..s1 }
    }

    /// A pull: `sp` steps up, then the byte at `0x0100 | sp` is read.
    pub open spec fn popped(self) -> (u8, EmuView) {
        let sp1 = spec_inc8(self.regs.sp);
        let s1 = EmuView { regs: Registers { sp: sp1, ..self.regs }, ..self };
        (self.ram[0x100 + sp1 as int], s1)
    }

    /// The absolute-indirect fetch with the 6502 page-wrap bug: the high
    /// byte comes from `(addr & 0xFF00) | ((addr + 1) & 0x00FF)`, never from
    /// the next page.
    pub open spec fn indirect_wrapped(self, addr: u16) -> (u16, EmuView) {
        let (low, s1) = self.bus_read(addr);
        let high_addr = ((addr as int / 256) * 256 + (addr as int + 1) % 256) as u16;
        let (high, s2) = s1.bus_read(high_addr);
        ((low as int + 256 * high as int) as u16, s2)
    }

    /// The effective address an operand names.  Zero-page forms stay within
    /// `0x0000-0x00FF` before any indirection; absolute indexed forms wrap
    /// in 16 bits; `(zp),Y` adds `Y` to the full 16-bit pointer.
    pub open spec fn operand_address(self, op: Operand) -> u16 {
        match op {
            Operand::Absolute(addr) => addr,
            Operand::AbsoluteIndexedX(addr) => spec_w16(addr as int + self.regs.x as int),
            Operand::AbsoluteIndexedY(addr) => spec_w16(addr as int + self.regs.y as int),
            Operand::ZeroPage(off) => off as u16,
            Operand::ZeroPageIndexedX(off) => ((off as int + self.regs.x as int) % 256) as u16,
            Operand::ZeroPageIndexedY(off) => ((off as int + self.regs.y as int) % 256) as u16,
            Operand::ZeroPageIndexedXIndirect(off) => self.zp_pointer(
                (((off as int) + self.regs.x as int) % 256) as u8,
            ),
            Operand::ZeroPageIndirectIndexedY(off) => spec_w16(
                self.zp_pointer(off) as int + self.regs.y as int,
            ),
            _ => 0,
        }
    }

    /// The value an operand yields, with the machine after the read.
    pub open spec fn operand_value(self, op: Operand) -> (u8, EmuView) {
        match op {
            Operand::Immediate(val) => (val, self),
            _ => self.bus_read(self.operand_address(op)),
        }
    }

    /// Whether a read through the operand crosses a page: only the indexed
    /// forms that charge the extra cycle report it.
    pub open spec fn operand_page_crossed(self, op: Operand) -> bool {
        match op {
            Operand::AbsoluteIndexedX(addr) => spec_w16(addr as int + self.regs.x as int) as int
                / 256 != addr as int / 256,
            Operand::AbsoluteIndexedY(addr) => spec_w16(addr as int + self.regs.y as int) as int
                / 256 != addr as int / 256,
            Operand::ZeroPageIndirectIndexedY(off) => spec_w16(
                self.zp_pointer(off) as int + self.regs.y as int,
            ) as int / 256 != self.zp_pointer(off) as int / 256,
            _ => false,
        }
    }

    /// The machine with `Z` and `N` set from `val`.
    pub open spec fn zn_set(self, val: u8) -> EmuView {
        EmuView {
            regs: Registers { flags: spec_zn(self.regs.flags, val), ..self.regs },
            ..self
        }
    }

    /// The machine after loading `val` into `A`: `Z` and `N` follow.
    pub open spec fn a_set(self, val: u8) -> EmuView {
        EmuView {
            regs: Registers { a: val, flags: spec_zn(self.regs.flags, val), ..self.regs },
            ..self
        }
    }

    /// The machine after loading `val` into `X`: `Z` and `N` follow.
    pub open spec fn x_set(self, val: u8) -> EmuView {
        EmuView {
            regs: Registers { x: val, flags: spec_zn(self.regs.flags, val), ..self.regs },
            ..self
        }
    }

    /// The machine after loading `val` into `Y`: `Z` and `N` follow.
    pub open spec fn y_set(self, val: u8) -> EmuView {
        EmuView {
            regs: Registers { y: val, flags: spec_zn(self.regs.flags, val), ..self.regs },
            ..self
        }
    }
}

impl Emulator {
    /// Loads `val` into `A` and sets `Z`/`N` from it.
    pub fn set_a(&mut self, val: u8)
        requires
            old(self).wf(),
        ensures
            final(self).wf(),
            final(self)@ == old(self)@.a_set(val),
    {
        self.regs.a = val;
        self.set_zero_and_negative_flags(val);
    }

    /// Loads `val` into `X` and sets `Z`/`N` from it.
    pub fn set_x(&mut self, val: u8)
        requires
            old(self).wf(),
        ensures
            final(self).wf(),
            final(self)@ == old(self)@.x_set(val),
    {
        self.regs.x = val;
        self.set_zero_and_negative_flags(val);
    }

    /// Loads `val` into `Y` and sets `Z`/`N` from it.
    pub fn set_y(&mut self, val: u8)
        requires
            old(self).wf(),
        ensures
            final(self).wf(),
            final(self)@ == old(self)@.y_set(val),
    {
        self.regs.y = val;
        self.set_zero_and_negative_flags(val);
    }

    /// Sets `Z` and `N` from `val`.
    pub fn set_zero_and_negative_flags(&mut self, val: u8)
        requires
            old(self).wf(),
        ensures
            final(self).wf(),
            final(self)@ == old(self)@.zn_set(val),
    {
        self.regs.flags.zero = val == 0;
        self.regs.flags.negative = val >= 128;
    }

    /// Pushes `val` onto the stack at `0x0100 | sp`, stepping `sp` down.
    pub fn push_on_stack(&mut self, val: u8)
        requires
            old(self).wf(),
        ensures
            final(self).wf(),
            final(self)@ == old(self)@.pushed(val),
    {
        let addr = 0x100 + self.regs.sp as u16;
        self.write(addr, val);
        self.regs.sp = self.regs.sp.wrapping_sub(1);
    }

    /// Steps `sp` up and pulls the byte at `0x0100 | sp`.
    pub fn pop_stack(&mut self) -> (r: u8)
        requires
            old(self).wf(),
        ensures
            final(self).wf(),
            r == old(self)@.popped().0,
            final(self)@ == old(self)@.popped().1,
    {
        self.regs.sp = self.regs.sp.wrapping_add(1);
        let addr = 0x100 + self.regs.sp as u16;
        self.read(addr)
    }

    /// Fetches the 16-bit pointer at zero-page offset `off`; both byte
    /// fetches wrap within the zero page.
    fn get_zero_page_indirect_address(&mut self, off: u8) -> (r: u16)
        requires
            old(self).wf(),
        ensures
            final(self).wf(),
            final(self)@ == old(self)@,
            r == old(self)@.zp_pointer(off),
    {
        let low = self.read(off as u16);
        let high = self.read(off.wrapping_add(1) as u16);
        low as u16 + 256 * high as u16
    }

    /// The absolute-indirect fetch used by indirect `JMP`, reproducing the
    /// 6502 page-wrap bug for the high byte.
    pub fn get_indirect_address_wrapping(&mut self, addr: u16) -> (r: u16)
        requires
            old(self).wf(),
        ensures
            final(self).wf(),
            r == old(self)@.indirect_wrapped(addr).0,
            final(self)@ == old(self)@.indirect_wrapped(addr).1,
    {
        let low = self.read(addr);
        let high_addr = (addr / 256) * 256 + (addr % 0x100 + 1) % 0x100;
        let high = self.read(high_addr);
        low as u16 + 256 * high as u16
    }

    /// The effective address `op` names.
    pub fn get_addr_from_operand(&mut self, op: Operand) -> (r: u16)
        requires
            old(self).wf(),
            op.spec_has_address(),
        ensures
            final(self).wf(),
            final(self)@ == old(self)@,
            r == old(self)@.operand_address(op),
    {
        match op {
            Operand::Absolute(addr) => addr,
            Operand::AbsoluteIndexedX(addr) => addr.wrapping_add(self.regs.x as u16),
            Operand::AbsoluteIndexedY(addr) => addr.wrapping_add(self.regs.y as u16),
            Operand::ZeroPage(off) => off as u16,
            Operand::ZeroPageIndexedX(off) => off.wrapping_add(self.regs.x) as u16,
            Operand::ZeroPageIndexedY(off) => off.wrapping_add(self.regs.y) as u16,
            Operand::ZeroPageIndexedXIndirect(off) => {
                let zp_off = off.wrapping_add(self.regs.x);
                self.get_zero_page_indirect_address(zp_off)
            },
            Operand::ZeroPageIndirectIndexedY(off) => {
                let addr = self.get_zero_page_indirect_address(off);
                addr.wrapping_add(self.regs.y as u16)
            },
            _ => 0,
        }
    }

    /// The value `op` yields: the immediate byte, or the byte at its
    /// effective address.
    pub fn get_val_from_operand(&mut self, op: Operand) -> (r: u8)
        requires
            old(self).wf(),
            op.spec_has_value(),
        ensures
            final(self).wf(),
            r == old(self)@.operand_value(op).0,
            final(self)@ == old(self)@.operand_value(op).1,
    {
        if let Operand::Immediate(val) = op {
            val
        } else {
            let addr = self.get_addr_from_operand(op);
            self.read(addr)
        }
    }

    /// The value `op` yields together with the page-cross marker that
    /// charges read-style indexed addressing its extra cycle.
    #[verifier::rlimit(100)]
    pub fn get_val_from_operand_cross(&mut self, op: Operand) -> (r: (u8, bool))
        requires
            old(self).wf(),
            op.spec_has_value(),
        ensures
            final(self).wf(),
            r.0 == old(self)@.operand_value(op).0,
            r.1 == old(self)@.operand_page_crossed(op),
            final(self)@ == old(self)@.operand_value(op).1,
    {
        match op {
            Operand::AbsoluteIndexedX(addr) => {
                let final_addr = addr.wrapping_add(self.regs.x as u16);
                let crossed = final_addr / 256 != addr / 256;
                (self.read(final_addr), crossed)
            },
            Operand::AbsoluteIndexedY(addr) => {
                let final_addr = addr.wrapping_add(self.regs.y as u16);
                let crossed = final_addr / 256 != addr / 256;
                (self.read(final_addr), crossed)
            },
            Operand::ZeroPageIndirectIndexedY(off) => {
                let addr = self.get_zero_page_indirect_address(off);
                let final_addr = addr.wrapping_add(self.regs.y as u16);
                let crossed = final_addr / 256 != addr / 256;
                (self.read(final_addr), crossed)
            },
            _ => (self.get_val_from_operand(op), false),
        }
    }
}

impl EmuView {
    /// The NMI entry sequence: push `pc` high then low, push the status
    /// with `B` cleared (bit 5 set as always), set `I`, and enter through
    /// the vector at `0xFFFA`.  The sequence consumes 7 cycles, charged as
    /// debt the scheduler withholds from the next CPU ticks.
    #[verifier::opaque]
    pub open spec fn nmi_entered(self) -> EmuView {
        let s1 = self.pushed((self.regs.pc as int / 256) as u8);
        let s2 = s1.pushed((self.regs.pc as int % 256) as u8);
        let s3 = s2.pushed(
            StatusRegister { break_command: false, ..s2.regs.flags }.spec_bits(),
        );
        let s4 = EmuView {
            regs: Registers {
                flags: StatusRegister { interrupt_disable: true, ..s3.regs.flags },
                ..s3.regs
            },
            nmi_count: if s3.nmi_count == u64::MAX {
                0u64
            } else {
                (s3.nmi_count + 1) as u64
            },
            cpu: CPUData {
                cycle_debt: if s3.cpu.cycle_debt + 7 <= usize::MAX {
                    (s3.cpu.cycle_debt + 7) as usize
                } else {
                    usize::MAX
                },
            },
            ..s3
        };
        let (lo, s5) = s4.bus_read(0xFFFA);
        let (hi, s6) = s5.bus_read(0xFFFB);
        EmuView {
            regs: Registers { pc: (hi as int * 256 + lo as int) as u16, ..s6.regs },
            ..s6
        }
    }

    /// The RESET sequence: `A`, `X`, `Y` clear, `sp` to `0xFD`, the status
    /// reduced to `I` and the always-set bit, `pc` loaded from the vector at
    /// `0xFFFC`.  Memory is untouched.  The sequence consumes 7 cycles,
    /// charged as debt the scheduler withholds from the first CPU ticks.
    pub open spec fn reset_applied(self) -> EmuView {
        let s1 = EmuView {
            regs: Registers {
                a: 0,
                x: 0,
                y: 0,
                sp: 0xFD,
                flags: StatusRegister {
                    carry: false,
                    zero: false,
                    interrupt_disable: true,
                    decimal: false,
                    break_command: false,
                    overflow: false,
                    negative: false,
                },
                ..self.regs
            },
            cpu: CPUData { cycle_debt: 7 },
            ..self
        };
        let (lo, s2) = s1.bus_read(0xFFFC);
        let (hi, s3) = s2.bus_read(0xFFFD);
        EmuView {
            regs: Registers { pc: (hi as int * 256 + lo as int) as u16, ..s3.regs },
            ..s3
        }
    }
}

impl Emulator {
    /// Services a non-maskable interrupt (raised by the PPU at the start of
    /// vertical blanking), counts it, and charges its 7 cycles as debt.
    #[verifier::rlimit(100)]
    pub fn nmi(&mut self)
        requires
            old(self).wf(),
        ensures
            final(self).wf(),
            final(self)@ == old(self)@.nmi_entered(),
            final(self).ppu@ == old(self).ppu@,
    {
        proof {
            reveal(EmuView::nmi_entered);
        }
        let ret = self.regs.pc;
        self.push_on_stack((ret / 256) as u8);
        self.push_on_stack((ret % 256) as u8);
        let pushed = StatusRegister { break_command: false, ..self.regs.flags }.to_byte();
        self.push_on_stack(pushed);
        self.regs.flags.interrupt_disable = true;
        self.nmi_count = self.nmi_count.wrapping_add(1);
        self.cpu.cycle_debt = if self.cpu.cycle_debt <= usize::MAX - 7 {
            self.cpu.cycle_debt + 7
        } else {
            usize::MAX
        };
        let lo = self.read(0xFFFA);
        let hi = self.read(0xFFFB);
        self.regs.pc = hi as u16 * 256 + lo as u16;
    }

    /// RESET: re-initializes the register file, charges the sequence's 7
    /// cycles as debt, and enters through the vector at `0xFFFC`; RAM and
    /// the PPU are left as they are.
    pub fn reset(&mut self)
        requires
            old(self).wf(),
        ensures
            final(self).wf(),
            final(self)@ == old(self)@.reset_applied(),
    {
        self.regs.a = 0;
        self.regs.x = 0;
        self.regs.y = 0;
        self.regs.sp = 0xFD;
        self.regs.flags = StatusRegister {
            carry: false,
            zero: false,
            interrupt_disable: true,
            decimal: false,
            break_command: false,
            overflow: false,
            negative: false,
        };
        self.cpu.cycle_debt = 7;
        let lo = self.read(0xFFFC);
        let hi = self.read(0xFFFD);
        self.regs.pc = hi as u16 * 256 + lo as u16;
    }
}


impl EmuView {
    /// The operand the decode step fetches for `mode`: nothing for the
    /// implied and accumulator forms, the byte after the opcode for the
    /// one-byte forms, the little-endian word after it for the two-byte
    /// forms.
    pub open spec fn spec_operand(self, mode: AddressingMode) -> (Operand, EmuView) {
        let pc = self.regs.pc;
        match mode {
            AddressingMode::Accumulator => (Operand::Accumulator, self),
            AddressingMode::Implied => (Operand::Implied, self),
            AddressingMode::Immediate => {
                let (b, s1) = self.bus_read(spec_w16(pc as int + 1));
                (Operand::Immediate(b), s1)
            },
            AddressingMode::ZeroPage => {
                let (b, s1) = self.bus_read(spec_w16(pc as int + 1));
                (Operand::ZeroPage(b), s1)
            },
            AddressingMode::Relative => {
                let (b, s1) = self.bus_read(spec_w16(pc as int + 1));
                (Operand::Relative(b), s1)
            },
            AddressingMode::ZeroPageIndexedX => {
                let (b, s1) = self.bus_read(spec_w16(pc as int + 1));
                (Operand::ZeroPageIndexedX(b), s1)
            },
            AddressingMode::ZeroPageIndexedY => {
                let (b, s1) = self.bus_read(spec_w16(pc as int + 1));
                (Operand::ZeroPageIndexedY(b), s1)
            },
            AddressingMode::ZeroPageIndexedXIndirect => {
                let (b, s1) = self.bus_read(spec_w16(pc as int + 1));
                (Operand::ZeroPageIndexedXIndirect(b), s1)
            },
            AddressingMode::ZeroPageIndirectIndexedY => {
                let (b, s1) = self.bus_read(spec_w16(pc as int + 1));
                (Operand::ZeroPageIndirectIndexedY(b), s1)
            },
            AddressingMode::Absolute => {
                let (lo, s1) = self.bus_read(spec_w16(pc as int + 1));
                let (hi, s2) = s1.bus_read(spec_w16(pc as int + 2));
                (Operand::Absolute((lo as int + 256 * hi as int) as u16), s2)
            },
            AddressingMode::AbsoluteIndirect => {
                let (lo, s1) = self.bus_read(spec_w16(pc as int + 1));
                let (hi, s2) = s1.bus_read(spec_w16(pc as int + 2));
                (Operand::AbsoluteIndirect((lo as int + 256 * hi as int) as u16), s2)
            },
            AddressingMode::AbsoluteIndexedX => {
                let (lo, s1) = self.bus_read(spec_w16(pc as int + 1));
                let (hi, s2) = s1.bus_read(spec_w16(pc as int + 2));
                (Operand::AbsoluteIndexedX((lo as int + 256 * hi as int) as u16), s2)
            },
            AddressingMode::AbsoluteIndexedY => {
                let (lo, s1) = self.bus_read(spec_w16(pc as int + 1));
                let (hi, s2) = s1.bus_read(spec_w16(pc as int + 2));
                (Operand::AbsoluteIndexedY((lo as int + 256 * hi as int) as u16), s2)
            },
        }
    }

    /// The per-mnemonic transition each table entry dispatches to.
    #[verifier::opaque]
    pub open spec fn executed(self, m: Mnemonic, op: Operand) -> (EmuView, usize) {
        match m {
            Mnemonic::Adc => crate::arithmetic::spec_adc(self, op),
            Mnemonic::And => crate::logic::spec_and(self, op),
            Mnemonic::Asl => crate::logic::spec_asl(self, op),
            Mnemonic::Bcc => crate::branch::spec_branch(self, op->Relative_0, crate::branch::spec_bcc_taken(self)),
            Mnemonic::Bcs => crate::branch::spec_branch(self, op->Relative_0, crate::branch::spec_bcs_taken(self)),
            Mnemonic::Beq => crate::branch::spec_branch(self, op->Relative_0, crate::branch::spec_beq_taken(self)),
            Mnemonic::Bit => crate::logic::spec_bit(self, op),
            Mnemonic::Bmi => crate::branch::spec_branch(self, op->Relative_0, crate::branch::spec_bmi_taken(self)),
            Mnemonic::Bne => crate::branch::spec_branch(self, op->Relative_0, crate::branch::spec_bne_taken(self)),
            Mnemonic::Bpl => crate::branch::spec_branch(self, op->Relative_0, crate::branch::spec_bpl_taken(self)),
            Mnemonic::Brk => crate::control::spec_brk(self, op),
            Mnemonic::Bvc => crate::branch::spec_branch(self, op->Relative_0, crate::branch::spec_bvc_taken(self)),
            Mnemonic::Bvs => crate::branch::spec_branch(self, op->Relative_0, crate::branch::spec_bvs_taken(self)),
            Mnemonic::Clc => crate::flags::spec_clc(self, op),
            Mnemonic::Cld => crate::flags::spec_cld(self, op),
            Mnemonic::Cli => crate::flags::spec_cli(self, op),
            Mnemonic::Clv => crate::flags::spec_clv(self, op),
            Mnemonic::Cmp => crate::arithmetic::spec_cmp(self, op),
            Mnemonic::Cpx => crate::arithmetic::spec_cpx(self, op),
            Mnemonic::Cpy => crate::arithmetic::spec_cpy(self, op),
            Mnemonic::Dcp => crate::arithmetic::spec_dcp(self, op),
            Mnemonic::Dec => crate::arithmetic::spec_dec(self, op),
            Mnemonic::Dex => crate::arithmetic::spec_dex(self, op),
            Mnemonic::Dey => crate::arithmetic::spec_dey(self, op),
            Mnemonic::Eor => crate::logic::spec_eor(self, op),
            Mnemonic::Inc => crate::arithmetic::spec_inc(self, op),
            Mnemonic::Inx => crate::arithmetic::spec_inx(self, op),
            Mnemonic::Iny => crate::arithmetic::spec_iny(self, op),
            Mnemonic::Isc => crate::arithmetic::spec_isc(self, op),
            Mnemonic::Jmp => crate::control::spec_jmp(self, op),
            Mnemonic::Jsr => crate::control::spec_jsr(self, op),
            Mnemonic::Lax => crate::load::spec_lax(self, op),
            Mnemonic::Lda => crate::load::spec_lda(self, op),
            Mnemonic::Ldx => crate::load::spec_ldx(self, op),
            Mnemonic::Ldy => crate::load::spec_ldy(self, op),
            Mnemonic::Lsr => crate::logic::spec_lsr(self, op),
            Mnemonic::Nop => crate::misc::spec_nop(self, op),
            Mnemonic::Ora => crate::logic::spec_ora(self, op),
            Mnemonic::Pha => crate::stack::spec_pha(self, op),
            Mnemonic::Php => crate::stack::spec_php(self, op),
            Mnemonic::Pla => crate::stack::spec_pla(self, op),
            Mnemonic::Plp => crate::stack::spec_plp(self, op),
            Mnemonic::Rla => crate::logic::spec_rla(self, op),
            Mnemonic::Rol => crate::logic::spec_rol(self, op),
            Mnemonic::Ror => crate::logic::spec_ror(self, op),
            Mnemonic::Rra => crate::logic::spec_rra(self, op),
            Mnemonic::Rti => crate::control::spec_rti(self, op),
            Mnemonic::Rts => crate::control::spec_rts(self, op),
            Mnemonic::Sax => crate::load::spec_sax(self, op),
            Mnemonic::Sbc => crate::arithmetic::spec_sbc(self, op),
            Mnemonic::Sec => crate::flags::spec_sec(self, op),
            Mnemonic::Sed => crate::flags::spec_sed(self, op),
            Mnemonic::Sei => crate::flags::spec_sei(self, op),
            Mnemonic::Slo => crate::logic::spec_slo(self, op),
            Mnemonic::Sre => crate::logic::spec_sre(self, op),
            Mnemonic::Sta => crate::load::spec_sta(self, op),
            Mnemonic::Stx => crate::load::spec_stx(self, op),
            Mnemonic::Sty => crate::load::spec_sty(self, op),
            Mnemonic::Tax => crate::trans::spec_tax(self, op),
            Mnemonic::Tay => crate::trans::spec_tay(self, op),
            Mnemonic::Tsx => crate::trans::spec_tsx(self, op),
            Mnemonic::Txa => crate::trans::spec_txa(self, op),
            Mnemonic::Txs => crate::trans::spec_txs(self, op),
            Mnemonic::Tya => crate::trans::spec_tya(self, op),
        }
    }

    /// One whole instruction: the opcode fetch at `pc`, the table lookup
    /// (nothing decodes to the illegal-opcode error), the operand fetch, the
    /// advance of `pc` by the instruction length, and the mnemonic's
    /// transition; the cycle count is the table's base plus the handler's
    /// extra.
    pub open spec fn stepped(self) -> (Result<usize, EmuError>, EmuView) {
        let (opcode, s1) = self.bus_read(self.regs.pc);
        match spec_decode(opcode) {
            None => (Err(EmuError::IllegalOpcode(opcode)), s1),
            Some(ins) => {
                let (op, s2) = s1.spec_operand(ins.addressing_mode);
                let s3 = EmuView {
                    regs: Registers {
                        pc: spec_w16(s2.regs.pc as int + ins.bytes as int),
                        ..s2.regs
                    },
                    ..s2
                };
                let (s4, extra) = s3.executed(ins.mnemonic, op);
                (Ok((ins.cycles + extra) as usize), s4)
            },
        }
    }

    /// One CPU tick of the master clock: an outstanding cycle debt absorbs
    /// the tick; otherwise one whole instruction runs and its remaining
    /// cycles become the new debt.
    pub open spec fn cpu_clocked(self) -> (Result<(), EmuError>, EmuView) {
        if self.cpu.cycle_debt > 0 {
            (
                Ok(()),
                EmuView {
                    cpu: CPUData { cycle_debt: (self.cpu.cycle_debt - 1) as usize },
                    ..self
                },
            )
        } else {
            let (r, s1) = self.stepped();
            match r {
                Err(e) => (Err(e), s1),
                Ok(cycles) => (
                    Ok(()),
                    EmuView { cpu: CPUData { cycle_debt: (cycles - 1) as usize }, ..s1 },
                ),
            }
        }
    }
}

/// Dispatches one decoded instruction to its handler.
fn execute_instruction(emu: &mut Emulator, m: Mnemonic, op: Operand) -> (extra: usize)
    requires
        old(emu).wf(),
        spec_operand_ok(m, op),
    ensures
        final(emu).wf(),
        final(emu)@ == old(emu)@.executed(m, op).0,
        extra == old(emu)@.executed(m, op).1,
        extra <= 2,
{
    proof {
        reveal(EmuView::executed);
    }
    match m {
        Mnemonic::Adc => crate::arithmetic::adc(emu, op),
        Mnemonic::And => crate::logic::and(emu, op),
        Mnemonic::Asl => crate::logic::asl(emu, op),
        Mnemonic::Bcc => crate::branch::bcc(emu, op),
        Mnemonic::Bcs => crate::branch::bcs(emu, op),
        Mnemonic::Beq => crate::branch::beq(emu, op),
        Mnemonic::Bit => crate::logic::bit(emu, op),
        Mnemonic::Bmi => crate::branch::bmi(emu, op),
        Mnemonic::Bne => crate::branch::bne(emu, op),
        Mnemonic::Bpl => crate::branch::bpl(emu, op),
        Mnemonic::Brk => crate::control::brk(emu, op),
        Mnemonic::Bvc => crate::branch::bvc(emu, op),
        Mnemonic::Bvs => crate::branch::bvs(emu, op),
        Mnemonic::Clc => crate::flags::clc(emu, op),
        Mnemonic::Cld => crate::flags::cld(emu, op),
        Mnemonic::Cli => crate::flags::cli(emu, op),
        Mnemonic::Clv => crate::flags::clv(emu, op),
        Mnemonic::Cmp => crate::arithmetic::cmp(emu, op),
        Mnemonic::Cpx => crate::arithmetic::cpx(emu, op),
        Mnemonic::Cpy => crate::arithmetic::cpy(emu, op),
        Mnemonic::Dcp => crate::arithmetic::dcp(emu, op),
        Mnemonic::Dec => crate::arithmetic::dec(emu, op),
        Mnemonic::Dex => crate::arithmetic::dex(emu, op),
        Mnemonic::Dey => crate::arithmetic::dey(emu, op),
        Mnemonic::Eor => crate::logic::eor(emu, op),
        Mnemonic::Inc => crate::arithmetic::inc(emu, op),
        Mnemonic::Inx => crate::arithmetic::inx(emu, op),
        Mnemonic::Iny => crate::arithmetic::iny(emu, op),
        Mnemonic::Isc => crate::arithmetic::isc(emu, op),
        Mnemonic::Jmp => crate::control::jmp(emu, op),
        Mnemonic::Jsr => crate::control::jsr(emu, op),
        Mnemonic::Lax => crate::load::lax(emu, op),
        Mnemonic::Lda => crate::load::lda(emu, op),
        Mnemonic::Ldx => crate::load::ldx(emu, op),
        Mnemonic::Ldy => crate::load::ldy(emu, op),
        Mnemonic::Lsr => crate::logic::lsr(emu, op),
        Mnemonic::Nop => crate::misc::nop(emu, op),
        Mnemonic::Ora => crate::logic::ora(emu, op),
        Mnemonic::Pha => crate::stack::pha(emu, op),
        Mnemonic::Php => crate::stack::php(emu, op),
        Mnemonic::Pla => crate::stack::pla(emu, op),
        Mnemonic::Plp => crate::stack::plp(emu, op),
        Mnemonic::Rla => crate::logic::rla(emu, op),
        Mnemonic::Rol => crate::logic::rol(emu, op),
        Mnemonic::Ror => crate::logic::ror(emu, op),
        Mnemonic::Rra => crate::logic::rra(emu, op),
        Mnemonic::Rti => crate::control::rti(emu, op),
        Mnemonic::Rts => crate::control::rts(emu, op),
        Mnemonic::Sax => crate::load::sax(emu, op),
        Mnemonic::Sbc => crate::arithmetic::sbc(emu, op),
        Mnemonic::Sec => crate::flags::sec(emu, op),
        Mnemonic::Sed => crate::flags::sed(emu, op),
        Mnemonic::Sei => crate::flags::sei(emu, op),
        Mnemonic::Slo => crate::logic::slo(emu, op),
        Mnemonic::Sre => crate::logic::sre(emu, op),
        Mnemonic::Sta => crate::load::sta(emu, op),
        Mnemonic::Stx => crate::load::stx(emu, op),
        Mnemonic::Sty => crate::load::sty(emu, op),
        Mnemonic::Tax => crate::trans::tax(emu, op),
        Mnemonic::Tay => crate::trans::tay(emu, op),
        Mnemonic::Tsx => crate::trans::tsx(emu, op),
        Mnemonic::Txa => crate::trans::txa(emu, op),
        Mnemonic::Txs => crate::trans::txs(emu, op),
        Mnemonic::Tya => crate::trans::tya(emu, op),
    }
}

impl Emulator {
    /// Fetches the operand bytes for `mode` from behind the opcode.
    fn get_operand(&mut self, mode: AddressingMode) -> (op: Operand)
        requires
            old(self).wf(),
        ensures
            final(self).wf(),
            op == old(self)@.spec_operand(mode).0,
            final(self)@ == old(self)@.spec_operand(mode).1,
    {
        let pc = self.regs.pc;
        match mode {
            AddressingMode::Accumulator => Operand::Accumulator,
            AddressingMode::Implied => Operand::Implied,
            AddressingMode::Immediate => Operand::Immediate(self.read(pc.wrapping_add(1))),
            AddressingMode::ZeroPage => Operand::ZeroPage(self.read(pc.wrapping_add(1))),
            AddressingMode::Relative => Operand::Relative(self.read(pc.wrapping_add(1))),
            AddressingMode::ZeroPageIndexedX => Operand::ZeroPageIndexedX(
                self.read(pc.wrapping_add(1)),
            ),
            AddressingMode::ZeroPageIndexedY => Operand::ZeroPageIndexedY(
                self.read(pc.wrapping_add(1)),
            ),
            AddressingMode::ZeroPageIndexedXIndirect => Operand::ZeroPageIndexedXIndirect(
                self.read(pc.wrapping_add(1)),
            ),
            AddressingMode::ZeroPageIndirectIndexedY => Operand::ZeroPageIndirectIndexedY(
                self.read(pc.wrapping_add(1)),
            ),
            AddressingMode::Absolute => {
                let lo = self.read(pc.wrapping_add(1));
                let hi = self.read(pc.wrapping_add(2));
                Operand::Absolute(lo as u16 + 256 * hi as u16)
            },
            AddressingMode::AbsoluteIndirect => {
                let lo = self.read(pc.wrapping_add(1));
                let hi = self.read(pc.wrapping_add(2));
                Operand::AbsoluteIndirect(lo as u16 + 256 * hi as u16)
            },
            AddressingMode::AbsoluteIndexedX => {
                let lo = self.read(pc.wrapping_add(1));
                let hi = self.read(pc.wrapping_add(2));
                Operand::AbsoluteIndexedX(lo as u16 + 256 * hi as u16)
            },
            AddressingMode::AbsoluteIndexedY => {
                let lo = self.read(pc.wrapping_add(1));
                let hi = self.read(pc.wrapping_add(2));
                Operand::AbsoluteIndexedY(lo as u16 + 256 * hi as u16)
            },
        }
    }

    /// Executes one whole instruction and reports the cycles it consumed;
    /// an opcode outside the table is the fatal illegal-opcode error.
    pub fn step(&mut self) -> (r: Result<usize, EmuError>)
        requires
            old(self).wf(),
        ensures
            final(self).wf(),
            r == old(self)@.stepped().0,
            final(self)@ == old(self)@.stepped().1,
            r matches Ok(c) ==> 2 <= c <= 10,
    {
        let pc = self.regs.pc;
        let opcode = self.read(pc);
        let ins = match decode(opcode) {
            Some(i) => i,
            None => {
                return Err(EmuError::IllegalOpcode(opcode));
            },
        };
        proof {
            crate::instructions::lemma_decode_ok(opcode);
        }
        let op = self.get_operand(ins.addressing_mode);
        self.regs.pc = self.regs.pc.wrapping_add(ins.bytes);
        let extra = execute_instruction(self, ins.mnemonic, op);
        Ok(ins.cycles + extra)
    }

    /// One CPU tick: pays a cycle of debt, or runs the next instruction and
    /// records its remaining cycles as debt.
    pub fn clock_cpu(&mut self) -> (r: Result<(), EmuError>)
        requires
            old(self).wf(),
        ensures
            final(self).wf(),
            r == old(self)@.cpu_clocked().0,
            final(self)@ == old(self)@.cpu_clocked().1,
    {
        if self.cpu.cycle_debt > 0 {
            self.cpu.cycle_debt = self.cpu.cycle_debt - 1;
            return Ok(());
        }
        let cycles = match self.step() {
            Ok(c) => c,
            Err(e) => {
                return Err(e);
            },
        };
        self.cpu.cycle_debt = cycles - 1;
        Ok(())
    }
}

} // verus!
