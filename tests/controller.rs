use cameraview::app::{App, EngineOp, EngineState, ShutdownPlan, TickOutcome, Verdict, SNAPSHOT_COUNTDOWN_TICKS};
use cameraview::countdown::SnapshotTimer;
use cameraview::state::{RecordState, SnapshotState};

fn previewing() -> App<u32> {
    let mut app = App::<u32>::new();
    App::<u32>::on_startup();
    assert_eq!(app.activate_request(), Some(EngineOp::Start));
    assert_eq!(app.on_activate(true), Verdict::Continue);
    assert_eq!(app.engine_state(), EngineState::Previewing);
    app
}

#[test]
fn activate_failure_is_fatal() {
    let mut app = App::<u32>::new();
    assert_eq!(app.on_activate(false), Verdict::Fatal(EngineOp::Start));
    assert_eq!(app.engine_state(), EngineState::NotStarted);
}

#[test]
fn activate_twice_starts_once() {
    let mut app = previewing();
    assert_eq!(app.activate_request(), None);
    assert_eq!(app.on_activate(false), Verdict::Continue);
    assert_eq!(app.engine_state(), EngineState::Previewing);
}

#[test]
fn record_start_and_stop() {
    let mut app = previewing();
    assert_eq!(app.record_request(RecordState::Recording), Some(EngineOp::StartRecording));
    assert_eq!(app.on_record_state_changed(RecordState::Recording, true), Verdict::Continue);
    assert_eq!(app.record_state(), RecordState::Recording);
    assert_eq!(app.engine_state(), EngineState::PreviewingAndRecording);
    assert_eq!(app.record_request(RecordState::Idle), Some(EngineOp::StopRecording));
    assert_eq!(app.on_record_state_changed(RecordState::Idle, false), Verdict::Continue);
    assert_eq!(app.record_state(), RecordState::Idle);
    assert_eq!(app.engine_state(), EngineState::Previewing);
}

#[test]
fn record_when_already_recording_is_noop() {
    let mut app = previewing();
    app.on_record_state_changed(RecordState::Recording, true);
    assert_eq!(app.record_request(RecordState::Recording), None);
    assert_eq!(app.on_record_state_changed(RecordState::Recording, false), Verdict::Continue);
    assert_eq!(app.engine_state(), EngineState::PreviewingAndRecording);
    assert_eq!(app.record_state(), RecordState::Recording);
}

#[test]
fn record_idle_when_idle_is_noop() {
    let mut app = previewing();
    assert_eq!(app.record_request(RecordState::Idle), None);
    assert_eq!(app.on_record_state_changed(RecordState::Idle, true), Verdict::Continue);
    assert_eq!(app.engine_state(), EngineState::Previewing);
}

#[test]
fn record_start_failure_is_fatal() {
    let mut app = previewing();
    assert_eq!(
        app.on_record_state_changed(RecordState::Recording, false),
        Verdict::Fatal(EngineOp::StartRecording)
    );
    assert_eq!(app.engine_state(), EngineState::Previewing);
    assert_eq!(app.record_state(), RecordState::Idle);
}

#[test]
fn second_snapshot_trigger_keeps_countdown() {
    let mut app = previewing();
    assert!(app.snapshot_request());
    assert_eq!(app.on_snapshot_trigger(10), None);
    assert_eq!(app.on_timer_tick(), TickOutcome::CountingDown(2));
    assert!(!app.snapshot_request());
    assert_eq!(app.on_snapshot_trigger(11), Some(11));
    assert_eq!(app.countdown_remaining(), Some(2));
    assert_eq!(app.snapshot_state(), SnapshotState::TimerRunning);
    assert_eq!(app.on_timer_tick(), TickOutcome::CountingDown(1));
    assert_eq!(app.on_timer_tick(), TickOutcome::Capture(Some(10)));
}

#[test]
fn countdown_ticks_three_times() {
    let mut timer = SnapshotTimer::new(3, 5u32);
    assert!(timer.is_armed());
    assert_eq!(timer.tick(), 2);
    assert_eq!(timer.tick(), 1);
    assert_eq!(timer.tick(), 0);
    assert_eq!(timer.remaining(), 0);
    assert_eq!(timer.release(), Some(5));
}

#[test]
fn countdown_completes_with_one_capture() {
    let mut app = previewing();
    app.on_snapshot_trigger(4);
    let mut captures = 0;
    let mut released = Vec::new();
    for _ in 0..SNAPSHOT_COUNTDOWN_TICKS {
        match app.on_timer_tick() {
            TickOutcome::Capture(r) => {
                captures += 1;
                released.push(r);
            }
            TickOutcome::CountingDown(_) => {}
            TickOutcome::NoCountdown => panic!("countdown ended early"),
        }
    }
    assert_eq!(captures, 1);
    assert_eq!(released, vec![Some(4)]);
    assert_eq!(app.countdown_remaining(), None);
    assert_eq!(app.on_timer_tick(), TickOutcome::NoCountdown);
}

#[test]
fn early_shutdown_cancels_countdown() {
    let mut app = previewing();
    app.on_snapshot_trigger(9);
    assert_eq!(app.on_timer_tick(), TickOutcome::CountingDown(2));
    assert_eq!(app.countdown_remaining(), Some(2));
    let plan = app.on_shutdown();
    assert_eq!(plan, ShutdownPlan { stop_engine: true, release: Some(9) });
}

#[test]
fn early_release_of_countdown() {
    let mut timer = SnapshotTimer::new(3, 1u32);
    assert_eq!(timer.tick(), 2);
    assert_eq!(timer.release(), Some(1));
}

#[test]
fn snapshot_scenario() {
    let mut app = previewing();
    assert_eq!(app.snapshot_state(), SnapshotState::Idle);
    assert_eq!(app.on_snapshot_trigger(1), None);
    assert_eq!(app.snapshot_state(), SnapshotState::TimerRunning);
    let outcomes: Vec<TickOutcome<u32>> = (0..3).map(|_| app.on_timer_tick()).collect();
    assert_eq!(
        outcomes,
        vec![TickOutcome::CountingDown(2), TickOutcome::CountingDown(1), TickOutcome::Capture(Some(1))]
    );
    let captures = outcomes.iter().filter(|o| matches!(o, TickOutcome::Capture(_))).count();
    assert_eq!(captures, 1);
    assert_eq!(app.snapshot_state(), SnapshotState::Idle);
}

#[test]
fn shutdown_ignores_stop_failure() {
    let app = previewing();
    let plan = app.on_shutdown();
    assert_eq!(plan, ShutdownPlan { stop_engine: true, release: None });
}

#[test]
fn shutdown_before_start_stops_nothing() {
    let app = App::<u32>::new();
    assert_eq!(app.on_shutdown(), ShutdownPlan { stop_engine: false, release: None });
}
