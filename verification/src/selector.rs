//! Pure slot selection: from the record that was read (or the failure to
//! read one), the target slot for this boot and the record to write back,
//! if any.

use vstd::prelude::*;
use crate::slot::{spec_validate_slot, validate_slot, ValidSlot, SLOT_NONE};
use crate::state::{LoaderState, StateReadError};

verus! {

/// The slot a raw ordinal selects: the slot it names, or slot A as the
/// safe default when the ordinal names no real slot.
pub open spec fn spec_slot_or_default(raw: i32) -> ValidSlot {
    match spec_validate_slot(raw) {
        Some(s) => s,
        None => ValidSlot::A,
    }
}

/// The target slot `decide` picks for a given read outcome.
pub open spec fn spec_decide_target(state: Result<LoaderState, StateReadError>) -> ValidSlot {
    match state {
        Err(_) => ValidSlot::A,
        Ok(st) => if st.next_slot == SLOT_NONE {
            spec_slot_or_default(st.active_slot)
        } else {
            spec_slot_or_default(st.next_slot)
        },
    }
}

/// The record `decide` demands be written back before boot proceeds, if
/// any: the read record with its one-shot override cleared.
pub open spec fn spec_decide_write_back(state: Result<LoaderState, StateReadError>) -> Option<
    LoaderState,
> {
    match state {
        Err(_) => None,
        Ok(st) => if st.next_slot == SLOT_NONE {
            None
        } else {
            Some(LoaderState { active_slot: st.active_slot, next_slot: SLOT_NONE })
        },
    }
}

/// Selects the boot target from the outcome of reading the state file.
///
/// When nothing could be read, slot A is the safe default and nothing is
/// written: persisting an invented record could mask future real reads.
/// When a one-shot override is staged, it is consumed: the target is the
/// override (slot A if the override names no real slot), and the record
/// must be rewritten with the override cleared — even when the override
/// was invalid, so a broken override is not retried next boot.  Otherwise
/// the target is the active slot (slot A if it names no real slot) and the
/// record, already correct, is left alone.
///
/// The caller must treat a returned record as mandatory and fatal on
/// failure: if the cleared override cannot be persisted, boot must not
/// proceed, or the override would fire again next boot.
pub fn decide(state: Result<LoaderState, StateReadError>) -> (r: (ValidSlot, Option<LoaderState>))
    ensures
        r.0 == spec_decide_target(state),
        r.1 == spec_decide_write_back(state),
        state is Err ==> r == (ValidSlot::A, None::<LoaderState>),
        state matches Ok(st) ==> (st.next_slot == SLOT_NONE ==> r.1 is None),
        state matches Ok(st) ==> (st.next_slot != SLOT_NONE ==> r.1 == Some(
            LoaderState { active_slot: st.active_slot, next_slot: SLOT_NONE },
        )),
        state matches Ok(st) ==> (spec_validate_slot(st.next_slot) matches Some(next) ==> r.0
            == next),
        state matches Ok(st) ==> (st.next_slot != SLOT_NONE && spec_validate_slot(st.next_slot)
            is None ==> r.0 == ValidSlot::A),
        state matches Ok(st) ==> (st.next_slot == SLOT_NONE ==> r.0 == spec_slot_or_default(
            st.active_slot,
        )),
{
    match state {
        Err(_) => (ValidSlot::A, None),
        Ok(st) => {
            if st.next_slot != SLOT_NONE {
                let target = match validate_slot(st.next_slot) {
                    Some(s) => s,
                    None => ValidSlot::A,
                };
                (target, Some(LoaderState { active_slot: st.active_slot, next_slot: SLOT_NONE }))
            } else {
                let target = match validate_slot(st.active_slot) {
                    Some(s) => s,
                    None => ValidSlot::A,
                };
                (target, None)
            }
        },
    }
}

/// The ordinal the selector consulted and found to name no real slot, if
/// any: the staged override when one is staged, else the active slot.  A
/// failed read carries its own diagnostic and reports nothing here.
pub open spec fn spec_defaulted_slot(state: Result<LoaderState, StateReadError>) -> Option<i32> {
    match state {
        Err(_) => None,
        Ok(st) => {
            let raw = if st.next_slot != SLOT_NONE {
                st.next_slot
            } else {
                st.active_slot
            };
            if spec_validate_slot(raw) is None {
                Some(raw)
            } else {
                None
            }
        },
    }
}

/// Reports the ordinal that forced the safe default, if the slot the
/// record put forward named no real slot, so a caller can log the invalid
/// value without re-deriving the selection.
pub fn defaulted_slot(state: &Result<LoaderState, StateReadError>) -> (r: Option<i32>)
    ensures
        r == spec_defaulted_slot(*state),
{
    match state {
        Err(_) => None,
        Ok(st) => {
            let raw: i32 = if st.next_slot != SLOT_NONE {
                st.next_slot
            } else {
                st.active_slot
            };
            match validate_slot(raw) {
                Some(_) => None,
                None => Some(raw),
            }
        },
    }
}

/// Whenever the consulted slot named no real slot, the decided target is
/// the safe default, slot A.
pub proof fn lemma_defaulted_slot_targets_a(state: Result<LoaderState, StateReadError>)
    requires
        spec_defaulted_slot(state) is Some,
    ensures
        spec_decide_target(state) == ValidSlot::A,
{
}

/// The one-shot override is consumed at most once: whatever record a
/// `decide` with a staged override demands be written back, a later boot
/// that reads that record back sees no override, targets the unchanged
/// active slot, and demands no further write.
pub proof fn lemma_override_consumed(st: LoaderState)
    requires
        st.next_slot != SLOT_NONE,
    ensures
        spec_decide_write_back(Ok(st)) matches Some(cleared) && cleared.spec_no_override()
            && spec_decide_write_back(Ok(cleared)) is None && spec_decide_target(Ok(cleared))
            == spec_slot_or_default(st.active_slot),
{
}

/// The consumption survives the storage boundary: once the demanded
/// record is encoded and persisted, the next boot decodes exactly that
/// record back, sees no override, and demands no write — the one-shot
/// override cannot fire twice.
pub proof fn lemma_persisted_override_consumed(st: LoaderState)
    requires
        st.next_slot != SLOT_NONE,
    ensures
        spec_decide_write_back(Ok(st)) matches Some(cleared)
            && crate::codec::spec_parse_state(crate::codec::spec_encode_state(cleared)) == Ok::<
            LoaderState,
            crate::state::DecodeError,
        >(cleared) && spec_decide_write_back(Ok(cleared)) is None && spec_decide_target(
            Ok(cleared),
        ) == spec_slot_or_default(st.active_slot),
{
    lemma_override_consumed(st);
    match spec_decide_write_back(Ok(st)) {
        Some(cleared) => {
            crate::codec::lemma_state_roundtrip(cleared);
        },
        None => {},
    }
}

} // verus!
