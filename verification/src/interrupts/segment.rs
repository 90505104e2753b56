//! Segment selectors, as the `x86_64` crate makes and reads them.

use vstd::prelude::*;
use x86_64::registers::segmentation::{Segment, SegmentSelector, CS};
use x86_64::PrivilegeLevel;

verus! {

/// The selector word for entry `index` of a descriptor table, asked for at
/// privilege level `rpl`.
pub open spec fn selector_word(index: u16, rpl: u16) -> u16 {
    (index << 3) | rpl
}

/// Calls `SegmentSelector::new` of `x86_64` and hands out the selector's
/// word. The crate puts the index above the three low bits and the level
/// into the lowest two; `PrivilegeLevel::from_u16` panics on a level above 3.
#[verifier::external_body]
fn make_selector(index: u16, rpl: u16) -> (word: u16)
    requires
        rpl <= 3,
    ensures
        word == selector_word(index, rpl),
{
    SegmentSelector::new(index, PrivilegeLevel::from_u16(rpl)).0
}

/// The selector for entry `index` of a descriptor table, asked for at
/// privilege level `privilege_level`: the level in the two lowest bits, the
/// index from bit 3 upwards.
pub fn selector(index: u16, privilege_level: u16) -> (word: u16)
    requires
        privilege_level <= 3,
    ensures
        word == selector_word(index, privilege_level),
        word & 3 == privilege_level,
        word & 4 == 0,
        index < 0x2000 ==> word >> 3 == index,
{
    proof {
        lemma_selector_fields(index, privilege_level);
    }
    make_selector(index, privilege_level)
}

/// The fields of a selector word are those it was made of.
proof fn lemma_selector_fields(index: u16, level: u16)
    by (bit_vector)
    requires
        level <= 3,
    ensures
        selector_word(index, level) & 3 == level,
        selector_word(index, level) & 4 == 0,
        index < 0x2000 ==> selector_word(index, level) >> 3 == index,
{
}

/// Calls `CS::get_reg` of `x86_64`, which reads the processor's code
/// segment register, and hands out the selector's word. Nothing is known
/// of it: it is whatever segment the processor runs in.
#[verifier::external_body]
pub(crate) fn current_code_segment() -> (word: u16) {
    CS::get_reg().0
}

} // verus!
