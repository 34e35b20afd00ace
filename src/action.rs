//! The fixed set of application actions and the names they are addressed by.
use vstd::prelude::*;
use crate::state::{RecordState, SnapshotState};

verus! {

/// An application action; the stateful ones carry their current state.
#[derive(Debug, Copy, Clone, PartialEq, Eq, Structural)]
pub enum Action {
    Quit,
    Settings,
    About,
    Snapshot(SnapshotState),
    Record(RecordState),
}

/// The five kinds of action, without their state.
pub open spec fn kind_of(a: Action) -> int {
    match a {
        Action::Quit => 0,
        Action::Settings => 1,
        Action::About => 2,
        Action::Snapshot(_) => 3,
        Action::Record(_) => 4,
    }
}

impl Action {
    /// The full name by which an action is addressed from menus and from
    /// remote invocations.
    pub open spec fn spec_full_name(self) -> Seq<char> {
        match self {
            Action::Quit => "app.quit"@,
            Action::Settings => "app.settings"@,
            Action::About => "app.about"@,
            Action::Snapshot(_) => "app.snapshot"@,
            Action::Record(_) => "app.record"@,
        }
    }

    /// The boolean state an action carries, if it is stateful.
    pub open spec fn spec_state(self) -> Option<bool> {
        match self {
            Action::Snapshot(s) => Some(s.spec_to_bool()),
            Action::Record(s) => Some(s.spec_to_bool()),
            _ => None,
        }
    }

    /// The same action carrying the state that `b` stands for; a stateless
    /// action is returned as it is.
    pub open spec fn spec_with_state(self, b: bool) -> Action {
        match self {
            Action::Snapshot(_) => Action::Snapshot(SnapshotState::spec_from_bool(b)),
            Action::Record(_) => Action::Record(RecordState::spec_from_bool(b)),
            _ => self,
        }
    }

    pub fn full_name(self) -> (r: &'static str)
        ensures
            r@ == self.spec_full_name(),
    {
        match self {
            Action::Quit => "app.quit",
            Action::Settings => "app.settings",
            Action::About => "app.about",
            Action::Snapshot(_) => "app.snapshot",
            Action::Record(_) => "app.record",
        }
    }

    /// The action's state as a boolean, `None` for a stateless action.
    pub fn state(self) -> (r: Option<bool>)
        ensures
            r == self.spec_state(),
    {
        match self {
            Action::Snapshot(s) => Some(s.to_bool()),
            Action::Record(s) => Some(s.to_bool()),
            _ => None,
        }
    }

    pub fn with_state(self, b: bool) -> (r: Action)
        ensures
            r == self.spec_with_state(b),
    {
        match self {
            Action::Snapshot(_) => Action::Snapshot(SnapshotState::from_bool(b)),
            Action::Record(_) => Action::Record(RecordState::from_bool(b)),
            _ => self,
        }
    }
}

/// Two actions of different kinds never share a full name, so a name
/// addresses at most one kind of action.
pub proof fn lemma_full_names_distinct(a: Action, b: Action)
    ensures
        kind_of(a) != kind_of(b) ==> a.spec_full_name() != b.spec_full_name(),
        kind_of(a) == kind_of(b) ==> a.spec_full_name() == b.spec_full_name(),
{
    reveal_strlit("app.quit");
    reveal_strlit("app.settings");
    reveal_strlit("app.about");
    reveal_strlit("app.snapshot");
    reveal_strlit("app.record");
    if kind_of(a) != kind_of(b) {
        let (x, y) = (a.spec_full_name(), b.spec_full_name());
        if x.len() == y.len() {
            assert(x[4] != y[4] || x[5] != y[5]);
        }
    }
}

} // verus!
