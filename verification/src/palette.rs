//! The 64-entry master palette: the fixed mapping from a 6-bit NES color
//! number to an RGB triple.
//!
//! The exact triples are a display convention, not hardware truth; this is
//! the canonical set most emulators ship.

use vstd::prelude::*;

verus! {

/// The RGB triple of a 6-bit color number.
pub open spec fn spec_master_palette(idx: u8) -> (u8, u8, u8) {
    
    if idx == 0 {
        (84u8, 84u8, 84u8)
    } else if idx == 1 {
        (0u8, 30u8, 116u8)
    } else if idx == 2 {
        (8u8, 16u8, 144u8)
    } else if idx == 3 {
        (48u8, 0u8, 136u8)
    } else if idx == 4 {
        (68u8, 0u8, 100u8)
    } else if idx == 5 {
        (92u8, 0u8, 48u8)
    } else if idx == 6 {
        (84u8, 4u8, 0u8)
    } else if idx == 7 {
        (60u8, 24u8, 0u8)
    } else if idx == 8 {
        (32u8, 42u8, 0u8)
    } else if idx == 9 {
        (8u8, 58u8, 0u8)
    } else if idx == 10 {
        (0u8, 64u8, 0u8)
    } else if idx == 11 {
        (0u8, 60u8, 0u8)
    } else if idx == 12 {
        (0u8, 50u8, 60u8)
    } else if idx == 13 {
        (0u8, 0u8, 0u8)
    } else if idx == 14 {
        (0u8, 0u8, 0u8)
    } else if idx == 15 {
        (0u8, 0u8, 0u8)
    } else if idx == 16 {
        (152u8, 150u8, 152u8)
    } else if idx == 17 {
        (8u8, 76u8, 196u8)
    } else if idx == 18 {
        (48u8, 50u8, 236u8)
    } else if idx == 19 {
        (92u8, 30u8, 228u8)
    } else if idx == 20 {
        (136u8, 20u8, 176u8)
    } else if idx == 21 {
        (160u8, 20u8, 100u8)
    } else if idx == 22 {
        (152u8, 34u8, 32u8)
    } else if idx == 23 {
        (120u8, 60u8, 0u8)
    } else if idx == 24 {
        (84u8, 90u8, 0u8)
    } else if idx == 25 {
        (40u8, 114u8, 0u8)
    } else if idx == 26 {
        (8u8, 124u8, 0u8)
    } else if idx == 27 {
        (0u8, 118u8, 40u8)
    } else if idx == 28 {
        (0u8, 102u8, 120u8)
    } else if idx == 29 {
        (0u8, 0u8, 0u8)
    } else if idx == 30 {
        (0u8, 0u8, 0u8)
    } else if idx == 31 {
        (0u8, 0u8, 0u8)
    } else if idx == 32 {
        (236u8, 238u8, 236u8)
    } else if idx == 33 {
        (76u8, 154u8, 236u8)
    } else if idx == 34 {
        (120u8, 124u8, 236u8)
    } else if idx == 35 {
        (176u8, 98u8, 236u8)
    } else if idx == 36 {
        (228u8, 84u8, 236u8)
    } else if idx == 37 {
        (236u8, 88u8, 180u8)
    } else if idx == 38 {
        (236u8, 106u8, 100u8)
    } else if idx == 39 {
        (212u8, 136u8, 32u8)
    } else if idx == 40 {
        (160u8, 170u8, 0u8)
    } else if idx == 41 {
        (116u8, 196u8, 0u8)
    } else if idx == 42 {
        (76u8, 208u8, 32u8)
    } else if idx == 43 {
        (56u8, 204u8, 108u8)
    } else if idx == 44 {
        (56u8, 180u8, 204u8)
    } else if idx == 45 {
        (60u8, 60u8, 60u8)
    } else if idx == 46 {
        (0u8, 0u8, 0u8)
    } else if idx == 47 {
        (0u8, 0u8, 0u8)
    } else if idx == 48 {
        (236u8, 238u8, 236u8)
    } else if idx == 49 {
        (168u8, 204u8, 236u8)
    } else if idx == 50 {
        (188u8, 188u8, 236u8)
    } else if idx == 51 {
        (212u8, 178u8, 236u8)
    } else if idx == 52 {
        (236u8, 174u8, 236u8)
    } else if idx == 53 {
        (236u8, 174u8, 212u8)
    } else if idx == 54 {
        (236u8, 180u8, 176u8)
    } else if idx == 55 {
        (228u8, 196u8, 144u8)
    } else if idx == 56 {
        (204u8, 210u8, 120u8)
    } else if idx == 57 {
        (180u8, 222u8, 120u8)
    } else if idx == 58 {
        (168u8, 226u8, 144u8)
    } else if idx == 59 {
        (152u8, 226u8, 180u8)
    } else if idx == 60 {
        (160u8, 214u8, 228u8)
    } else if idx == 61 {
        (160u8, 162u8, 160u8)
    } else if idx == 62 {
        (0u8, 0u8, 0u8)
    } else if idx == 63 {
        (0u8, 0u8, 0u8)
    } else {
        (0u8, 0u8, 0u8)
    }
}

/// Looks a color number up in the master palette.
pub fn master_palette(idx: u8) -> (r: (u8, u8, u8))
    ensures
        r == spec_master_palette(idx),
{
    match idx {
        0 => (84, 84, 84),
        1 => (0, 30, 116),
        2 => (8, 16, 144),
        3 => (48, 0, 136),
        4 => (68, 0, 100),
        5 => (92, 0, 48),
        6 => (84, 4, 0),
        7 => (60, 24, 0),
        8 => (32, 42, 0),
        9 => (8, 58, 0),
        10 => (0, 64, 0),
        11 => (0, 60, 0),
        12 => (0, 50, 60),
        13 => (0, 0, 0),
        14 => (0, 0, 0),
        15 => (0, 0, 0),
        16 => (152, 150, 152),
        17 => (8, 76, 196),
        18 => (48, 50, 236),
        19 => (92, 30, 228),
        20 => (136, 20, 176),
        21 => (160, 20, 100),
        22 => (152, 34, 32),
        23 => (120, 60, 0),
        24 => (84, 90, 0),
        25 => (40, 114, 0),
        26 => (8, 124, 0),
        27 => (0, 118, 40),
        28 => (0, 102, 120),
        29 => (0, 0, 0),
        30 => (0, 0, 0),
        31 => (0, 0, 0),
        32 => (236, 238, 236),
        33 => (76, 154, 236),
        34 => (120, 124, 236),
        35 => (176, 98, 236),
        36 => (228, 84, 236),
        37 => (236, 88, 180),
        38 => (236, 106, 100),
        39 => (212, 136, 32),
        40 => (160, 170, 0),
        41 => (116, 196, 0),
        42 => (76, 208, 32),
        43 => (56, 204, 108),
        44 => (56, 180, 204),
        45 => (60, 60, 60),
        46 => (0, 0, 0),
        47 => (0, 0, 0),
        48 => (236, 238, 236),
        49 => (168, 204, 236),
        50 => (188, 188, 236),
        51 => (212, 178, 236),
        52 => (236, 174, 236),
        53 => (236, 174, 212),
        54 => (236, 180, 176),
        55 => (228, 196, 144),
        56 => (204, 210, 120),
        57 => (180, 222, 120),
        58 => (168, 226, 144),
        59 => (152, 226, 180),
        60 => (160, 214, 228),
        61 => (160, 162, 160),
        62 => (0, 0, 0),
        63 => (0, 0, 0),
        _ => (0, 0, 0),
    }
}

} // verus!
