//! Single-bit flags in a 16-bit register word, bit 0 being the lowest.

use vstd::prelude::*;

verus! {

/// The bits that a flag sets in a register word: its mask where the flag is
/// raised, nothing otherwise.
pub open spec fn flag_mask(flag: bool, mask: u16) -> u16 {
    if flag {
        mask
    } else {
        0
    }
}

/// Whether `word` has a bit of `mask` set.
pub open spec fn flag_at(word: u16, mask: u16) -> bool {
    word & mask != 0
}

/// The mask of a flag where it is raised, zero otherwise.
pub fn mask_if(flag: bool, mask: u16) -> (bits: u16)
    ensures
        bits == flag_mask(flag, mask),
{
    if flag {
        mask
    } else {
        0
    }
}

/// Tells whether `word` has a bit of `mask` set.
pub fn has_flag(word: u16, mask: u16) -> (set: bool)
    ensures
        set == flag_at(word, mask),
{
    word & mask != 0
}

} // verus!
