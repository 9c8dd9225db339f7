//! The PPU's 15-bit VRAM address registers `v` and `t`.
//!
//! The bit layout is `0 yyy NN YYYYY XXXXX`: coarse X in bits 0-4, coarse Y
//! in bits 5-9, the two nametable selects in bits 10 and 11, fine Y in bits
//! 12-14.  The register is kept in its decomposed form, so the scroll
//! arithmetic (wrap of coarse X at 32, of coarse Y at 30, the nametable
//! toggles) is plain arithmetic on small fields; the packed form appears
//! only where the address bus needs it.

use vstd::prelude::*;

verus! {

/// A decomposed 15-bit VRAM address.
#[derive(Clone, Copy, Debug, PartialEq, Eq, Structural)]
pub struct VRAMAddress {
    /// Coarse X scroll, 5 bits.
    pub coarse_x: u8,
    /// Coarse Y scroll, 5 bits.
    pub coarse_y: u8,
    /// Horizontal nametable select, 1 bit.
    pub nametable_x: u8,
    /// Vertical nametable select, 1 bit.
    pub nametable_y: u8,
    /// Fine Y scroll, 3 bits.
    pub fine_y: u8,
}

impl VRAMAddress {
    /// Every field stays inside its bit width.
    pub open spec fn wf(self) -> bool {
        &&& self.coarse_x < 32
        &&& self.coarse_y < 32
        &&& self.nametable_x < 2
        &&& self.nametable_y < 2
        &&& self.fine_y < 8
    }

    /// The packed 15-bit value put on the PPU address bus.
    pub open spec fn spec_bits(self) -> u16 {
        (self.coarse_x as int + 32 * self.coarse_y as int + 1024 * self.nametable_x as int + 2048
            * self.nametable_y as int + 4096 * self.fine_y as int) as u16
    }

    /// The decomposition of a packed value; bit 15 is discarded.
    pub open spec fn spec_from_bits(v: u16) -> VRAMAddress {
        VRAMAddress {
            coarse_x: (v % 32) as u8,
            coarse_y: ((v as int / 32) % 32) as u8,
            nametable_x: ((v as int / 1024) % 2) as u8,
            nametable_y: ((v as int / 2048) % 2) as u8,
            fine_y: ((v as int / 4096) % 8) as u8,
        }
    }

    /// The all-zero address.
    pub fn new() -> (r: VRAMAddress)
        ensures
            r == (VRAMAddress { coarse_x: 0, coarse_y: 0, nametable_x: 0, nametable_y: 0, fine_y: 0 }),
            r.wf(),
    {
        VRAMAddress { coarse_x: 0, coarse_y: 0, nametable_x: 0, nametable_y: 0, fine_y: 0 }
    }

    /// Packs the fields into the 15-bit bus value.
    pub fn to_bits(&self) -> (r: u16)
        requires
            self.wf(),
        ensures
            r == self.spec_bits(),
            r < 0x8000,
    {
        self.coarse_x as u16 + 32 * self.coarse_y as u16 + 1024 * self.nametable_x as u16 + 2048
            * self.nametable_y as u16 + 4096 * self.fine_y as u16
    }

    /// Unpacks a bus value; bit 15 is discarded.
    pub fn from_bits(v: u16) -> (r: VRAMAddress)
        ensures
            r == Self::spec_from_bits(v),
            r.wf(),
    {
        VRAMAddress {
            coarse_x: (v % 32) as u8,
            coarse_y: ((v / 32) % 32) as u8,
            nametable_x: ((v / 1024) % 2) as u8,
            nametable_y: ((v / 2048) % 2) as u8,
            fine_y: ((v / 4096) % 8) as u8,
        }
    }
}

/// Unpacking the packed form restores every field: the decomposition really
/// is a bijection onto 15-bit values.
pub proof fn lemma_vram_address_round_trip(a: VRAMAddress)
    requires
        a.wf(),
    ensures
        VRAMAddress::spec_from_bits(a.spec_bits()) == a,
{
    let v = a.spec_bits();
    assert(v as int == a.coarse_x as int + 32 * a.coarse_y as int + 1024 * a.nametable_x as int
        + 2048 * a.nametable_y as int + 4096 * a.fine_y as int);
    assert(VRAMAddress::spec_from_bits(v).coarse_x == a.coarse_x) by (nonlinear_arith)
        requires
            a.wf(),
            v as int == a.coarse_x as int + 32 * a.coarse_y as int + 1024 * a.nametable_x as int
                + 2048 * a.nametable_y as int + 4096 * a.fine_y as int,
    ;
    assert(VRAMAddress::spec_from_bits(v).coarse_y == a.coarse_y) by (nonlinear_arith)
        requires
            a.wf(),
            v as int == a.coarse_x as int + 32 * a.coarse_y as int + 1024 * a.nametable_x as int
                + 2048 * a.nametable_y as int + 4096 * a.fine_y as int,
    ;
    assert(VRAMAddress::spec_from_bits(v).nametable_x == a.nametable_x) by (nonlinear_arith)
        requires
            a.wf(),
            v as int == a.coarse_x as int + 32 * a.coarse_y as int + 1024 * a.nametable_x as int
                + 2048 * a.nametable_y as int + 4096 * a.fine_y as int,
    ;
    assert(VRAMAddress::spec_from_bits(v).nametable_y == a.nametable_y) by (nonlinear_arith)
        requires
            a.wf(),
            v as int == a.coarse_x as int + 32 * a.coarse_y as int + 1024 * a.nametable_x as int
                + 2048 * a.nametable_y as int + 4096 * a.fine_y as int,
    ;
    assert(VRAMAddress::spec_from_bits(v).fine_y == a.fine_y) by (nonlinear_arith)
        requires
            a.wf(),
            v as int == a.coarse_x as int + 32 * a.coarse_y as int + 1024 * a.nametable_x as int
                + 2048 * a.nametable_y as int + 4096 * a.fine_y as int,
    ;
}

} // verus!
