use cameraview::action::Action;
use cameraview::state::{RecordState, SnapshotState, StateError};

#[test]
fn snapshot_state_round_trip() {
    for b in [false, true] {
        assert_eq!(SnapshotState::from_bool(b).to_bool(), b);
    }
    for s in [SnapshotState::Idle, SnapshotState::TimerRunning] {
        assert_eq!(SnapshotState::from_bool(s.to_bool()), s);
    }
}

#[test]
fn record_state_round_trip() {
    for b in [false, true] {
        assert_eq!(RecordState::from_bool(b).to_bool(), b);
    }
    for s in [RecordState::Idle, RecordState::Recording] {
        assert_eq!(RecordState::from_bool(s.to_bool()), s);
    }
}

#[test]
fn states_from_bool() {
    assert_eq!(SnapshotState::from(false), SnapshotState::Idle);
    assert_eq!(SnapshotState::from(true), SnapshotState::TimerRunning);
    assert_eq!(RecordState::from(false), RecordState::Idle);
    assert_eq!(RecordState::from(true), RecordState::Recording);
    assert!(!SnapshotState::Idle.to_bool());
    assert!(RecordState::Recording.to_bool());
}

#[test]
fn states_from_payload() {
    assert_eq!(SnapshotState::from_payload(Some(true)), Ok(SnapshotState::TimerRunning));
    assert_eq!(RecordState::from_payload(Some(false)), Ok(RecordState::Idle));
    assert_eq!(SnapshotState::from_payload(None), Err(StateError::InvalidPayload));
    assert_eq!(RecordState::from_payload(None), Err(StateError::InvalidPayload));
}

#[test]
fn action_full_names() {
    assert_eq!(Action::Quit.full_name(), "app.quit");
    assert_eq!(Action::Settings.full_name(), "app.settings");
    assert_eq!(Action::About.full_name(), "app.about");
    assert_eq!(Action::Snapshot(SnapshotState::Idle).full_name(), "app.snapshot");
    assert_eq!(Action::Snapshot(SnapshotState::TimerRunning).full_name(), "app.snapshot");
    assert_eq!(Action::Record(RecordState::Recording).full_name(), "app.record");
}

#[test]
fn action_states() {
    assert_eq!(Action::Quit.state(), None);
    assert_eq!(Action::Record(RecordState::Recording).state(), Some(true));
    assert_eq!(
        Action::Snapshot(SnapshotState::Idle).with_state(true),
        Action::Snapshot(SnapshotState::TimerRunning)
    );
    assert_eq!(Action::About.with_state(true), Action::About);
}
