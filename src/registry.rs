//! The registry of application actions, addressed by their full names.
//!
//! It holds each of the five actions once, in a fixed order; the stateful
//! ones carry the state that the user interface and remote callers read and
//! set. Setting a state reports whether it changed, so that observers are
//! told exactly once per visible change and never for a set that keeps it.
use vstd::prelude::*;
use crate::action::{kind_of, lemma_full_names_distinct, Action};
use crate::state::{RecordState, SnapshotState};

verus! {

/// Why a state could not be set through the registry.
#[derive(Debug, Copy, Clone, PartialEq, Eq, Structural)]
pub enum RegistryError {
    /// No action has the given name.
    UnknownAction,
    /// The named action carries no state.
    Stateless,
}

/// The actions in the order the registry holds them, all states idle.
pub open spec fn initial_actions() -> Seq<Action> {
    seq![
        Action::Quit,
        Action::Settings,
        Action::About,
        Action::Snapshot(SnapshotState::Idle),
        Action::Record(RecordState::Idle),
    ]
}

/// The position of the action named `name` in `actions`, if any.
pub open spec fn named(actions: Seq<Action>, name: Seq<char>, i: int) -> bool {
    0 <= i < actions.len() && actions[i].spec_full_name() == name
}

pub struct ActionRegistry {
    actions: Vec<Action>,
}

impl View for ActionRegistry {
    type V = Seq<Action>;

    closed spec fn view(&self) -> Seq<Action> {
        self.actions@
    }
}

/// Whether two strings hold the same characters.
fn same_str(a: &str, b: &str) -> (r: bool)
    ensures
        r == (a@ == b@),
{
    let n = a.unicode_len();
    if n != b.unicode_len() {
        return false;
    }
    let mut i: usize = 0;
    while i < n
        invariant
            n == a@.len(),
            n == b@.len(),
            i <= n,
            forall|j: int| 0 <= j < i ==> a@[j] == b@[j],
        decreases n - i,
    {
        if a.get_char(i) != b.get_char(i) {
            return false;
        }
        i = i + 1;
    }
    assert(a@ =~= b@);
    true
}

impl ActionRegistry {
    /// Each action kind once, at the position of its kind.
    pub open spec fn wf(&self) -> bool {
        &&& self@.len() == 5
        &&& forall|i: int| 0 <= i < 5 ==> kind_of(#[trigger] self@[i]) == i
    }

    pub fn new() -> (r: ActionRegistry)
        ensures
            r.wf(),
            r@ == initial_actions(),
    {
        let actions = vec![
            Action::Quit,
            Action::Settings,
            Action::About,
            Action::Snapshot(SnapshotState::Idle),
            Action::Record(RecordState::Idle),
        ];
        let r = ActionRegistry { actions };
        assert(r@ =~= initial_actions());
        r
    }

    /// The position of the action named `name`, if there is one.
    fn position(&self, name: &str) -> (r: Option<usize>)
        ensures
            match r {
                Some(i) => named(self@, name@, i as int),
                None => forall|i: int| !named(self@, name@, i),
            },
    {
        let mut i: usize = 0;
        while i < self.actions.len()
            invariant
                i <= self@.len(),
                forall|j: int| 0 <= j < i ==> !named(self@, name@, j),
            decreases self@.len() - i,
        {
            if same_str(self.actions[i].full_name(), name) {
                return Some(i);
            }
            i = i + 1;
        }
        None
    }

    /// The action named `name`, with its current state.
    pub fn lookup(&self, name: &str) -> (r: Option<Action>)
        requires
            self.wf(),
        ensures
            match r {
                Some(a) => exists|i: int| named(self@, name@, i) && self@[i] == a,
                None => forall|i: int| !named(self@, name@, i),
            },
    {
        match self.position(name) {
            Some(i) => Some(self.actions[i]),
            None => None,
        }
    }

    /// Sets the state of the action named `name`, reporting whether it
    /// changed.
    pub fn set_state(&mut self, name: &str, value: bool) -> (r: Result<bool, RegistryError>)
        requires
            old(self).wf(),
        ensures
            final(self).wf(),
            (forall|i: int| !named(old(self)@, name@, i)) ==> r == Err::<bool, RegistryError>(
                RegistryError::UnknownAction,
            ) && final(self)@ == old(self)@,
            forall|i: int|
                named(old(self)@, name@, i) ==> {
                    let a = #[trigger] old(self)@[i];
                    match a.spec_state() {
                        None => r == Err::<bool, RegistryError>(RegistryError::Stateless)
                            && final(self)@ == old(self)@,
                        Some(s) => r == Ok::<bool, RegistryError>(s != value) && final(self)@
                            == old(self)@.update(i, a.spec_with_state(value)),
                    }
                },
    {
        let ghost pre = self@;
        match self.position(name) {
            None => Err(RegistryError::UnknownAction),
            Some(i) => {
                proof {
                    assert forall|j: int| named(pre, name@, j) implies j == i by {
                        lemma_full_names_distinct(pre[i as int], pre[j]);
                    }
                }
                let a = self.actions[i];
                match a.state() {
                    None => Err(RegistryError::Stateless),
                    Some(s) => {
                        self.actions.set(i, a.with_state(value));
                        Ok(s != value)
                    },
                }
            },
        }
    }

    /// Publishes the controller's states into the snapshot and record
    /// actions, reporting for each whether it changed.
    pub fn publish(&mut self, snapshot: SnapshotState, record: RecordState) -> (r: (bool, bool))
        requires
            old(self).wf(),
        ensures
            final(self).wf(),
            final(self)@ == old(self)@.update(3, Action::Snapshot(snapshot)).update(
                4,
                Action::Record(record),
            ),
            r.0 == (old(self)@[3] != Action::Snapshot(snapshot)),
            r.1 == (old(self)@[4] != Action::Record(record)),
    {
        let before_snapshot = self.snapshot_state();
        let before_record = self.record_state();
        self.actions.set(3, Action::Snapshot(snapshot));
        self.actions.set(4, Action::Record(record));
        proof {
            assert(kind_of(self@[3]) == 3);
            assert(kind_of(self@[4]) == 4);
        }
        (before_snapshot != snapshot, before_record != record)
    }

    /// The published state of the snapshot action.
    pub fn snapshot_state(&self) -> (r: SnapshotState)
        requires
            self.wf(),
        ensures
            self@[3] == Action::Snapshot(r),
    {
        match self.actions[3] {
            Action::Snapshot(s) => s,
            _ => {
                assert(kind_of(self@[3]) == 3);
                SnapshotState::Idle
            },
        }
    }

    /// The published state of the record action.
    pub fn record_state(&self) -> (r: RecordState)
        requires
            self.wf(),
        ensures
            self@[4] == Action::Record(r),
    {
        match self.actions[4] {
            Action::Record(s) => s,
            _ => {
                assert(kind_of(self@[4]) == 4);
                RecordState::Idle
            },
        }
    }
}

} // verus!
