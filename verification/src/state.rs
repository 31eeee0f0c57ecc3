//! The persisted loader state record and the errors of reading it.

use vstd::prelude::*;
use crate::slot::SLOT_NONE;

verus! {

/// The two-field decision record persisted on the boot partition.
///
/// Both fields hold raw wire ordinals of the slot enumeration: the
/// persisted format may carry integers outside the enumeration, and nothing
/// here narrows them, so an invalid value can be seen, diagnosed and
/// defaulted by the selector instead of being silently reshaped.
#[derive(Clone, Copy, PartialEq, Eq, Structural, Debug)]
pub struct LoaderState {
    /// The slot used for normal boots.
    pub active_slot: i32,
    /// The one-shot override: a slot staged to be booted exactly once, or
    /// the "no override" sentinel in steady state.
    pub next_slot: i32,
}

impl LoaderState {
    /// Whether no one-shot override is staged.
    pub open spec fn spec_no_override(self) -> bool {
        self.next_slot == SLOT_NONE
    }

    /// Returns whether no one-shot override is staged.
    pub fn no_override(&self) -> (r: bool)
        ensures
            r == self.spec_no_override(),
    {
        self.next_slot == SLOT_NONE
    }
}

/// Why the bytes of the state file could not be decoded into a record.
#[derive(Clone, Copy, PartialEq, Eq, Structural, Debug)]
pub enum DecodeError {
    /// A variable-width integer ran past its ten-byte limit, overflowed
    /// sixty-four bits, or was cut short by the end of the input.
    InvalidVarint,
    /// A field key did not fit thirty-two bits, or its field number was
    /// zero.
    InvalidKey,
    /// A field carried a wire type this format does not accept: one of the
    /// two enumeration fields was not a variable-width integer, or the wire
    /// type was one of the reserved or deprecated group encodings.
    InvalidWireType,
    /// A fixed-width or length-delimited payload ran past the end of the
    /// input.
    Truncated,
}

impl DecodeError {
    /// The diagnostic text naming this decode failure kind.
    pub open spec fn spec_message(self) -> Seq<char> {
        match self {
            DecodeError::InvalidVarint => "malformed varint"@,
            DecodeError::InvalidKey => "invalid field key"@,
            DecodeError::InvalidWireType => "invalid wire type"@,
            DecodeError::Truncated => "truncated field payload"@,
        }
    }

    /// Returns the diagnostic text naming this decode failure kind.
    pub fn message(&self) -> (r: String)
        ensures
            r@ == self.spec_message(),
    {
        match self {
            DecodeError::InvalidVarint => String::from_str("malformed varint"),
            DecodeError::InvalidKey => String::from_str("invalid field key"),
            DecodeError::InvalidWireType => String::from_str("invalid wire type"),
            DecodeError::Truncated => String::from_str("truncated field payload"),
        }
    }
}

/// Why no loader state record could be obtained this boot.
#[derive(Clone, PartialEq, Eq, Debug)]
pub enum StateReadError {
    /// The storage collaborator could not read the state file at all; the
    /// payload is the collaborator's own account of the failure, rendered
    /// by the caller at the boundary so the cause reaches the boot log.
    StorageUnreadable(String),
    /// The file was read but its contents could not be decoded.
    Undecodable(DecodeError),
}

impl StateReadError {
    /// The full diagnostic for the boot log: the operation that failed,
    /// then the underlying cause.
    pub open spec fn spec_message(self) -> Seq<char> {
        match self {
            StateReadError::StorageUnreadable(cause) => "while reading state file: "@ + cause@,
            StateReadError::Undecodable(e) => "while decoding state file contents: "@
                + e.spec_message(),
        }
    }

    /// Returns the full diagnostic: the operation and the underlying
    /// cause, so no error is ever logged without its context.
    pub fn message(&self) -> (r: String)
        ensures
            r@ == self.spec_message(),
    {
        match self {
            StateReadError::StorageUnreadable(cause) => {
                let mut r = String::from_str("while reading state file: ");
                r.append(cause.as_str());
                r
            },
            StateReadError::Undecodable(e) => {
                let mut r = String::from_str("while decoding state file contents: ");
                let kind = e.message();
                r.append(kind.as_str());
                r
            },
        }
    }
}

/// Returns the fixed path of the persisted state file on the boot
/// partition.
pub fn state_file_path() -> (r: String)
    ensures
        r@ == "\\EFI\\metropolis\\loader_state.pb"@,
{
    String::from_str("\\EFI\\metropolis\\loader_state.pb")
}

} // verus!
