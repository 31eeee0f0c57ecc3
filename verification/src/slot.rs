//! The slot enumeration persisted in the loader state, and its restriction
//! to the two real boot slots.

use vstd::prelude::*;

verus! {

/// Wire ordinal of the "no override staged" sentinel.
///
/// The three ordinals are an external contract shared with the updater that
/// writes the state file; they must never be renumbered.
pub const SLOT_NONE: i32 = 0;
/// Wire ordinal of boot slot A.
pub const SLOT_A: i32 = 1;
/// Wire ordinal of boot slot B.
pub const SLOT_B: i32 = 2;

/// The persisted slot enumeration: one of the two boot slots, or the
/// sentinel meaning "no one-shot override is staged".
#[derive(Clone, Copy, PartialEq, Eq, Structural, Debug)]
pub enum Slot {
    Unset,
    A,
    B,
}

impl Slot {
    /// The stable wire ordinal of this slot value.
    pub open spec fn spec_to_raw(self) -> i32 {
        match self {
            Slot::Unset => SLOT_NONE,
            Slot::A => SLOT_A,
            Slot::B => SLOT_B,
        }
    }

    /// Returns the stable wire ordinal of this slot value.
    pub fn to_raw(self) -> (r: i32)
        ensures
            r == self.spec_to_raw(),
    {
        match self {
            Slot::Unset => SLOT_NONE,
            Slot::A => SLOT_A,
            Slot::B => SLOT_B,
        }
    }

    /// Decodes a wire ordinal; the persisted format may carry integers
    /// outside the enumeration, which are rejected here.
    pub fn from_raw(raw: i32) -> (r: Option<Slot>)
        ensures
            raw == SLOT_NONE ==> r == Some(Slot::Unset),
            raw == SLOT_A ==> r == Some(Slot::A),
            raw == SLOT_B ==> r == Some(Slot::B),
            raw != SLOT_NONE && raw != SLOT_A && raw != SLOT_B ==> r is None,
    {
        if raw == SLOT_NONE {
            Some(Slot::Unset)
        } else if raw == SLOT_A {
            Some(Slot::A)
        } else if raw == SLOT_B {
            Some(Slot::B)
        } else {
            None
        }
    }
}

/// A slot that is certain to be one of the two real boot slots; "no
/// override" is unrepresentable here, so load and start logic can only be
/// handed a slot that actually exists.
#[derive(Clone, Copy, PartialEq, Eq, Structural, Debug)]
pub enum ValidSlot {
    A,
    B,
}

impl ValidSlot {
    /// The other slot: the fixed involution A <-> B.
    pub open spec fn spec_other(self) -> ValidSlot {
        match self {
            ValidSlot::A => ValidSlot::B,
            ValidSlot::B => ValidSlot::A,
        }
    }

    /// Returns B for A and A for B: the slot to fall back to when this one
    /// cannot be loaded.
    pub fn other(self) -> (r: ValidSlot)
        ensures
            r == self.spec_other(),
            r != self,
    {
        match self {
            ValidSlot::A => ValidSlot::B,
            ValidSlot::B => ValidSlot::A,
        }
    }

    /// The wire ordinal of this slot.
    pub open spec fn spec_to_raw(self) -> i32 {
        match self {
            ValidSlot::A => SLOT_A,
            ValidSlot::B => SLOT_B,
        }
    }

    /// Returns the stable wire ordinal of this slot.
    pub fn to_raw(self) -> (r: i32)
        ensures
            r == self.spec_to_raw(),
    {
        match self {
            ValidSlot::A => SLOT_A,
            ValidSlot::B => SLOT_B,
        }
    }
}

/// The fallible conversion from a raw wire ordinal to a real boot slot:
/// exactly the ordinals of A and B are accepted.
pub open spec fn spec_validate_slot(raw: i32) -> Option<ValidSlot> {
    if raw == SLOT_A {
        Some(ValidSlot::A)
    } else if raw == SLOT_B {
        Some(ValidSlot::B)
    } else {
        None
    }
}

/// Converts a raw wire ordinal into a real boot slot, rejecting the "no
/// override" sentinel and every out-of-range integer.
pub fn validate_slot(raw: i32) -> (r: Option<ValidSlot>)
    ensures
        r == spec_validate_slot(raw),
{
    if raw == SLOT_A {
        Some(ValidSlot::A)
    } else if raw == SLOT_B {
        Some(ValidSlot::B)
    } else {
        None
    }
}

} // verus!
