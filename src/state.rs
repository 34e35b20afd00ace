//! The two-valued states published by the stateful actions, and their
//! lossless mapping to the one boolean that is exchanged with the outside.
use vstd::prelude::*;

verus! {

/// State of the snapshot action: idle, or a countdown is running.
#[derive(Debug, Copy, Clone, PartialEq, Eq, Structural)]
pub enum SnapshotState {
    Idle,
    TimerRunning,
}

/// State of the record action: idle, or a recording is being written.
#[derive(Debug, Copy, Clone, PartialEq, Eq, Structural)]
pub enum RecordState {
    Idle,
    Recording,
}

/// Why a serialized state payload was refused.
#[derive(Debug, Copy, Clone, PartialEq, Eq, Structural)]
pub enum StateError {
    /// The payload does not hold a boolean.
    InvalidPayload,
}

impl SnapshotState {
    pub open spec fn spec_from_bool(b: bool) -> SnapshotState {
        if b {
            SnapshotState::TimerRunning
        } else {
            SnapshotState::Idle
        }
    }

    pub open spec fn spec_to_bool(self) -> bool {
        self == SnapshotState::TimerRunning
    }

    /// `false` is `Idle`, `true` is `TimerRunning`.
    pub fn from_bool(b: bool) -> (r: SnapshotState)
        ensures
            r == Self::spec_from_bool(b),
    {
        if b {
            SnapshotState::TimerRunning
        } else {
            SnapshotState::Idle
        }
    }

    /// The boolean that stands for this state when it is exchanged.
    pub fn to_bool(self) -> (r: bool)
        ensures
            r == self.spec_to_bool(),
    {
        match self {
            SnapshotState::Idle => false,
            SnapshotState::TimerRunning => true,
        }
    }

    /// Reads a state from a serialized payload, given as the boolean it
    /// holds (`None` where the payload is not boolean-shaped).
    pub fn from_payload(payload: Option<bool>) -> (r: Result<SnapshotState, StateError>)
        ensures
            match payload {
                Some(b) => r == Ok::<SnapshotState, StateError>(Self::spec_from_bool(b)),
                None => r == Err::<SnapshotState, StateError>(StateError::InvalidPayload),
            },
    {
        match payload {
            Some(b) => Ok(Self::from_bool(b)),
            None => Err(StateError::InvalidPayload),
        }
    }
}

impl RecordState {
    pub open spec fn spec_from_bool(b: bool) -> RecordState {
        if b {
            RecordState::Recording
        } else {
            RecordState::Idle
        }
    }

    pub open spec fn spec_to_bool(self) -> bool {
        self == RecordState::Recording
    }

    /// `false` is `Idle`, `true` is `Recording`.
    pub fn from_bool(b: bool) -> (r: RecordState)
        ensures
            r == Self::spec_from_bool(b),
    {
        if b {
            RecordState::Recording
        } else {
            RecordState::Idle
        }
    }

    /// The boolean that stands for this state when it is exchanged.
    pub fn to_bool(self) -> (r: bool)
        ensures
            r == self.spec_to_bool(),
    {
        match self {
            RecordState::Idle => false,
            RecordState::Recording => true,
        }
    }

    /// Reads a state from a serialized payload, given as the boolean it
    /// holds (`None` where the payload is not boolean-shaped).
    pub fn from_payload(payload: Option<bool>) -> (r: Result<RecordState, StateError>)
        ensures
            match payload {
                Some(b) => r == Ok::<RecordState, StateError>(Self::spec_from_bool(b)),
                None => r == Err::<RecordState, StateError>(StateError::InvalidPayload),
            },
    {
        match payload {
            Some(b) => Ok(Self::from_bool(b)),
            None => Err(StateError::InvalidPayload),
        }
    }
}

impl From<bool> for SnapshotState {
    fn from(b: bool) -> (r: SnapshotState)
        ensures
            r == SnapshotState::spec_from_bool(b),
    {
        SnapshotState::from_bool(b)
    }
}

impl vstd::std_specs::convert::FromSpecImpl<bool> for SnapshotState {
    open spec fn obeys_from_spec() -> bool {
        true
    }

    open spec fn from_spec(b: bool) -> SnapshotState {
        SnapshotState::spec_from_bool(b)
    }
}

impl From<bool> for RecordState {
    fn from(b: bool) -> (r: RecordState)
        ensures
            r == RecordState::spec_from_bool(b),
    {
        RecordState::from_bool(b)
    }
}

impl vstd::std_specs::convert::FromSpecImpl<bool> for RecordState {
    open spec fn obeys_from_spec() -> bool {
        true
    }

    open spec fn from_spec(b: bool) -> RecordState {
        RecordState::spec_from_bool(b)
    }
}

/// Reading a snapshot state back from its boolean gives the boolean it was
/// read from, and the boolean of a state read back gives that state.
pub proof fn lemma_snapshot_state_round_trip(b: bool, s: SnapshotState)
    ensures
        SnapshotState::spec_from_bool(b).spec_to_bool() == b,
        SnapshotState::spec_from_bool(s.spec_to_bool()) == s,
{
}

/// Reading a record state back from its boolean gives the boolean it was
/// read from, and the boolean of a state read back gives that state.
pub proof fn lemma_record_state_round_trip(b: bool, s: RecordState)
    ensures
        RecordState::spec_from_bool(b).spec_to_bool() == b,
        RecordState::spec_from_bool(s.spec_to_bool()) == s,
{
}

} // verus!
