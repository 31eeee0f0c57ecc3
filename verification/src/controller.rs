//! The load-with-fallback control flow, as decisions over plain outcomes.
//!
//! The caller performs each decided action through the firmware (write the
//! record, load an image, start it) and hands the outcome back; the
//! functions here decide what comes next.  Each load or start is attempted
//! exactly once: there is no retry of a slot and no third slot to try.

use vstd::prelude::*;
use crate::slot::ValidSlot;

verus! {

/// One attempt to load a slot's image: the boot target chosen by the
/// selector, or the other slot after the target failed to load.
#[derive(Clone, Copy, PartialEq, Eq, Structural, Debug)]
pub enum LoadAttempt {
    /// Loading the slot the selector chose.
    Primary(ValidSlot),
    /// Loading the other slot, after the chosen one could not be loaded.
    Fallback(ValidSlot),
}

impl LoadAttempt {
    /// The slot this attempt loads.
    pub open spec fn spec_slot(self) -> ValidSlot {
        match self {
            LoadAttempt::Primary(s) => s,
            LoadAttempt::Fallback(s) => s,
        }
    }

    /// Returns the slot this attempt loads.
    pub fn slot(&self) -> (r: ValidSlot)
        ensures
            r == self.spec_slot(),
    {
        match self {
            LoadAttempt::Primary(s) => *s,
            LoadAttempt::Fallback(s) => *s,
        }
    }
}

/// What to do once the outcome of a load attempt is known.
#[derive(Clone, Copy, PartialEq, Eq, Structural, Debug)]
pub enum AfterLoad {
    /// The image loaded: transfer control to it.  A failure to start is
    /// fatal; no further fallback exists once an image has begun loading.
    Start,
    /// The chosen slot could not be loaded: attempt the contained fallback
    /// after emitting a diagnostic with the primary error.
    TryOther(LoadAttempt),
    /// Both slots failed to load: halt, with a diagnostic that carries the
    /// second attempt's error.
    HaltBothFailed,
}

/// What to do after the mandatory write-back of the consumed override.
#[derive(Clone, Copy, PartialEq, Eq, Structural, Debug)]
pub enum AfterWrite {
    /// The cleared override was persisted: boot may proceed to loading.
    Proceed,
    /// Persisting failed: halt before any load is attempted, or the
    /// override would fire again identically on the next boot.
    HaltWriteFailed,
}

/// The first load attempt of a boot pass: the selector's target.
pub fn begin_boot(target: ValidSlot) -> (r: LoadAttempt)
    ensures
        r == LoadAttempt::Primary(target),
{
    LoadAttempt::Primary(target)
}

/// The decision `after_load` takes for an attempt and its outcome.
pub open spec fn spec_after_load(attempt: LoadAttempt, loaded: bool) -> AfterLoad {
    if loaded {
        AfterLoad::Start
    } else {
        match attempt {
            LoadAttempt::Primary(s) => AfterLoad::TryOther(LoadAttempt::Fallback(s.spec_other())),
            LoadAttempt::Fallback(_) => AfterLoad::HaltBothFailed,
        }
    }
}

/// Decides what follows a load attempt whose outcome is `loaded`: start
/// the image on success; on a primary failure, fall back to the other
/// slot; on a fallback failure, halt — both slots have failed.
pub fn after_load(attempt: LoadAttempt, loaded: bool) -> (r: AfterLoad)
    ensures
        r == spec_after_load(attempt, loaded),
        loaded ==> r == AfterLoad::Start,
        attempt matches LoadAttempt::Primary(s) ==> (!loaded ==> r == AfterLoad::TryOther(
            LoadAttempt::Fallback(s.spec_other()),
        )),
        attempt is Fallback && !loaded ==> r == AfterLoad::HaltBothFailed,
{
    if loaded {
        AfterLoad::Start
    } else {
        match attempt {
            LoadAttempt::Primary(s) => AfterLoad::TryOther(LoadAttempt::Fallback(s.other())),
            LoadAttempt::Fallback(_) => AfterLoad::HaltBothFailed,
        }
    }
}

/// Decides what follows the mandatory write-back of a consumed override:
/// proceed only if the write succeeded, halt before any load otherwise.
pub fn after_state_write(write_ok: bool) -> (r: AfterWrite)
    ensures
        write_ok ==> r == AfterWrite::Proceed,
        !write_ok ==> r == AfterWrite::HaltWriteFailed,
{
    if write_ok {
        AfterWrite::Proceed
    } else {
        AfterWrite::HaltWriteFailed
    }
}

/// Fallback correctness: for any target, when the target's load fails the
/// controller moves to the other slot — never back to the target — and
/// when that fallback load succeeds it starts the fallback's image.
pub proof fn lemma_fallback_correctness(target: ValidSlot)
    ensures
        spec_after_load(LoadAttempt::Primary(target), false) == AfterLoad::TryOther(
            LoadAttempt::Fallback(target.spec_other()),
        ),
        target.spec_other() != target,
        spec_after_load(LoadAttempt::Fallback(target.spec_other()), true) == AfterLoad::Start,
{
}

/// Double-failure halt: when the fallback load fails too — both slots have
/// now failed — the decision is to halt, whatever slot was attempted.
pub proof fn lemma_double_failure_halt(slot: ValidSlot)
    ensures
        spec_after_load(LoadAttempt::Fallback(slot), false) == AfterLoad::HaltBothFailed,
{
}

} // verus!
