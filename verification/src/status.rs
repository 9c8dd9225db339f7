//! The 6502 status register `P`.
//!
//! The byte layout is `N V 1 B D I Z C` from bit 7 down to bit 0.  Bit 5 is
//! hard-wired and always observed as 1, so it is not stored; bit 4 (`B`) is a
//! stack marker only.  The register is kept as one `bool` per flag, and the
//! packed byte exists only at the moments the hardware makes it observable:
//! pushes onto the stack (`to_byte`) and pulls from it (`from_byte`).

use vstd::prelude::*;

verus! {

/// CPU status flags, one field per bit of `P` (bit 5 is implicit).
#[derive(Clone, Copy, Debug, PartialEq, Eq, Structural)]
pub struct StatusRegister {
    pub carry: bool,
    pub zero: bool,
    pub interrupt_disable: bool,
    pub decimal: bool,
    pub break_command: bool,
    pub overflow: bool,
    pub negative: bool,
}

impl StatusRegister {
    /// The packed byte: `C` in bit 0 up to `N` in bit 7, with bit 5 always 1.
    pub open spec fn spec_bits(self) -> u8 {
        ((if self.carry { 1int } else { 0int })
            + (if self.zero { 2int } else { 0int })
            + (if self.interrupt_disable { 4int } else { 0int })
            + (if self.decimal { 8int } else { 0int })
            + (if self.break_command { 16int } else { 0int })
            + 32int
            + (if self.overflow { 64int } else { 0int })
            + (if self.negative { 128int } else { 0int })) as u8
    }

    /// The flags observed when a byte is pulled from the stack: `B` is
    /// cleared and bit 5 discarded; every user-visible flag comes from its bit.
    pub open spec fn spec_from_byte(v: u8) -> StatusRegister {
        StatusRegister {
            carry: v % 2 == 1,
            zero: (v / 2) % 2 == 1,
            interrupt_disable: (v / 4) % 2 == 1,
            decimal: (v / 8) % 2 == 1,
            break_command: false,
            overflow: (v / 64) % 2 == 1,
            negative: v / 128 == 1,
        }
    }

    /// All flags clear (the packed byte then reads `0x20`).
    pub fn new() -> (r: StatusRegister)
        ensures
            r == (StatusRegister {
                carry: false,
                zero: false,
                interrupt_disable: false,
                decimal: false,
                break_command: false,
                overflow: false,
                negative: false,
            }),
    {
        StatusRegister {
            carry: false,
            zero: false,
            interrupt_disable: false,
            decimal: false,
            break_command: false,
            overflow: false,
            negative: false,
        }
    }

    /// Packs the flags into the byte the hardware pushes on the stack.
    pub fn to_byte(&self) -> (r: u8)
        ensures
            r == self.spec_bits(),
    {
        let mut r: u8 = 32;
        if self.carry {
            r += 1;
        }
        if self.zero {
            r += 2;
        }
        if self.interrupt_disable {
            r += 4;
        }
        if self.decimal {
            r += 8;
        }
        if self.break_command {
            r += 16;
        }
        if self.overflow {
            r += 64;
        }
        if self.negative {
            r += 128;
        }
        r
    }

    /// Unpacks a byte pulled from the stack; `B` is forced clear and bit 5
    /// ignored, as the hardware does on every pull.
    pub fn from_byte(v: u8) -> (r: StatusRegister)
        ensures
            r == Self::spec_from_byte(v),
    {
        StatusRegister {
            carry: v % 2 == 1,
            zero: (v / 2) % 2 == 1,
            interrupt_disable: (v / 4) % 2 == 1,
            decimal: (v / 8) % 2 == 1,
            break_command: false,
            overflow: (v / 64) % 2 == 1,
            negative: v / 128 == 1,
        }
    }
}

/// Unpacking the pushed byte restores every user-visible flag; only `B` is
/// forced to its canonical cleared value.
pub proof fn lemma_status_round_trip(p: StatusRegister)
    ensures
        StatusRegister::spec_from_byte(p.spec_bits()) == (StatusRegister {
            break_command: false,
            ..p
        }),
{
}

} // verus!
