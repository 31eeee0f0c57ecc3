use abloader::selector::{decide, defaulted_slot};
use abloader::slot::{Slot, ValidSlot, validate_slot, SLOT_A, SLOT_B, SLOT_NONE};
use abloader::state::{DecodeError, LoaderState, StateReadError};

#[test]
fn default_on_unreadable_state() {
    let (target, write_back) =
        decide(Err(StateReadError::StorageUnreadable("no such file".to_string())));
    assert_eq!(target, ValidSlot::A);
    assert_eq!(write_back, None);
}

#[test]
fn default_on_undecodable_state() {
    let (target, write_back) = decide(Err(StateReadError::Undecodable(DecodeError::Truncated)));
    assert_eq!(target, ValidSlot::A);
    assert_eq!(write_back, None);
}

#[test]
fn override_a_consumed_once() {
    let state = LoaderState { active_slot: SLOT_B, next_slot: SLOT_A };
    let (target, write_back) = decide(Ok(state));
    assert_eq!(target, ValidSlot::A);
    assert_eq!(write_back, Some(LoaderState { active_slot: SLOT_B, next_slot: SLOT_NONE }));
}

#[test]
fn override_b_consumed_once() {
    let state = LoaderState { active_slot: SLOT_A, next_slot: SLOT_B };
    let (target, write_back) = decide(Ok(state));
    assert_eq!(target, ValidSlot::B);
    assert_eq!(write_back, Some(LoaderState { active_slot: SLOT_A, next_slot: SLOT_NONE }));
}

#[test]
fn invalid_override_defaults_to_a_and_is_cleared() {
    let state = LoaderState { active_slot: SLOT_B, next_slot: 7 };
    let (target, write_back) = decide(Ok(state));
    assert_eq!(target, ValidSlot::A);
    assert_eq!(write_back, Some(LoaderState { active_slot: SLOT_B, next_slot: SLOT_NONE }));
}

#[test]
fn negative_override_defaults_to_a_and_is_cleared() {
    let state = LoaderState { active_slot: SLOT_A, next_slot: -3 };
    let (target, write_back) = decide(Ok(state));
    assert_eq!(target, ValidSlot::A);
    assert_eq!(write_back, Some(LoaderState { active_slot: SLOT_A, next_slot: SLOT_NONE }));
}

#[test]
fn no_override_boots_active_without_write() {
    let state = LoaderState { active_slot: SLOT_B, next_slot: SLOT_NONE };
    let (target, write_back) = decide(Ok(state));
    assert_eq!(target, ValidSlot::B);
    assert_eq!(write_back, None);
}

#[test]
fn invalid_active_defaults_to_a_without_write() {
    let state = LoaderState { active_slot: 9, next_slot: SLOT_NONE };
    let (target, write_back) = decide(Ok(state));
    assert_eq!(target, ValidSlot::A);
    assert_eq!(write_back, None);
}

#[test]
fn defaulted_slot_reports_the_invalid_ordinal() {
    // The staged override is what the selector consults when present.
    assert_eq!(defaulted_slot(&Ok(LoaderState { active_slot: 1, next_slot: 7 })), Some(7));
    assert_eq!(defaulted_slot(&Ok(LoaderState { active_slot: 9, next_slot: 7 })), Some(7));
    // Otherwise the active slot is consulted; the zero ordinal names no
    // real slot either.
    assert_eq!(defaulted_slot(&Ok(LoaderState { active_slot: 9, next_slot: 0 })), Some(9));
    assert_eq!(defaulted_slot(&Ok(LoaderState { active_slot: 0, next_slot: 0 })), Some(0));
    // Valid selections and failed reads report nothing.
    assert_eq!(defaulted_slot(&Ok(LoaderState { active_slot: 1, next_slot: 0 })), None);
    assert_eq!(defaulted_slot(&Ok(LoaderState { active_slot: 9, next_slot: 2 })), None);
    assert_eq!(
        defaulted_slot(&Err(StateReadError::StorageUnreadable("gone".to_string()))),
        None
    );
}

#[test]
fn validate_slot_accepts_exactly_the_two_slots() {
    assert_eq!(validate_slot(SLOT_A), Some(ValidSlot::A));
    assert_eq!(validate_slot(SLOT_B), Some(ValidSlot::B));
    assert_eq!(validate_slot(SLOT_NONE), None);
    assert_eq!(validate_slot(3), None);
    assert_eq!(validate_slot(-1), None);
}

#[test]
fn slot_wire_ordinals_are_stable() {
    assert_eq!(Slot::Unset.to_raw(), 0);
    assert_eq!(Slot::A.to_raw(), 1);
    assert_eq!(Slot::B.to_raw(), 2);
    assert_eq!(Slot::from_raw(0), Some(Slot::Unset));
    assert_eq!(Slot::from_raw(1), Some(Slot::A));
    assert_eq!(Slot::from_raw(2), Some(Slot::B));
    assert_eq!(Slot::from_raw(3), None);
    assert_eq!(ValidSlot::A.to_raw(), 1);
    assert_eq!(ValidSlot::B.to_raw(), 2);
}

#[test]
fn other_is_the_involution() {
    assert_eq!(ValidSlot::A.other(), ValidSlot::B);
    assert_eq!(ValidSlot::B.other(), ValidSlot::A);
    assert_eq!(ValidSlot::A.other().other(), ValidSlot::A);
}
