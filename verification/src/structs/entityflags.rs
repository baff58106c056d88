use vstd::prelude::*;

use crate::structs::cmdbutton::bits_contain;

verus! {

/// The `FL_ONGROUND` bit.
pub const FL_ONGROUND: i32 = 1;

/// The state flags of an entity (`m_fFlags`), as a set of bits.
#[derive(Clone, Copy, PartialEq, Eq, Structural, Debug)]
pub struct EntityFlags {
    bits: i32,
}

impl View for EntityFlags {
    type V = i32;

    open spec fn view(&self) -> i32 {
        self.spec_bits()
    }
}

impl EntityFlags {
    /// The raw bits.
    pub closed spec fn spec_bits(&self) -> i32 {
        self.bits
    }

    /// The flags as read from an entity, keeping every bit.
    pub fn from_raw(bits: i32) -> (f: EntityFlags)
        ensures
            f@ == bits,
    {
        EntityFlags { bits }
    }

    /// Standing on the ground.
    pub fn on_ground() -> (f: EntityFlags)
        ensures
            f@ == FL_ONGROUND,
    {
        EntityFlags { bits: FL_ONGROUND }
    }

    /// The raw bits.
    pub fn bits(&self) -> (bits: i32)
        ensures
            bits == self@,
    {
        self.bits
    }

    /// Whether every flag of `other` is set.
    pub fn contains(&self, other: EntityFlags) -> (set: bool)
        ensures
            set == bits_contain(self@, other@),
    {
        self.bits & other.bits == other.bits
    }
}

} // verus!
