//! The session controller.
//!
//! The controller decides; the shell around it acts. Each lifecycle hook and
//! user transition says which capture-engine operation it calls for, the
//! shell performs that operation, and the controller is told how it went.
//! Failures of starting the preview or a recording are fatal, a failure of
//! stopping the engine at shutdown is ignored.
use vstd::prelude::*;
use crate::countdown::SnapshotTimer;
use crate::state::{RecordState, SnapshotState};

verus! {

/// Number of one-second ticks before a snapshot is taken.
pub const SNAPSHOT_COUNTDOWN_TICKS: u32 = 3;

/// What the capture engine is doing, as far as the controller has started it.
#[derive(Debug, Copy, Clone, PartialEq, Eq, Structural)]
pub enum EngineState {
    NotStarted,
    Previewing,
    PreviewingAndRecording,
}

/// An operation of the capture engine that the shell is asked to perform.
#[derive(Debug, Copy, Clone, PartialEq, Eq, Structural)]
pub enum EngineOp {
    Start,
    Stop,
    StartRecording,
    StopRecording,
    CaptureStill,
}

/// How a transition ended: go on, or the failure of the named engine
/// operation is fatal and the process must end.
#[derive(Debug, Copy, Clone, PartialEq, Eq, Structural)]
pub enum Verdict {
    Continue,
    Fatal(EngineOp),
}

/// What a firing of the countdown timer calls for.
#[derive(Debug, Clone, PartialEq, Eq)]
pub enum TickOutcome<R> {
    /// No countdown is live: nothing to do.
    NoCountdown,
    /// The countdown goes on with this many ticks left.
    CountingDown(u32),
    /// The countdown ran out: capture a still image, and cancel the timer
    /// registration handed back here.
    Capture(Option<R>),
}

/// What the shell must do when the application shuts down: stop the engine
/// if it was started (its failure is of no consequence), and cancel the
/// registration of a countdown that was still live, without capturing.
#[derive(Debug, Clone, PartialEq, Eq)]
pub struct ShutdownPlan<R> {
    pub stop_engine: bool,
    pub release: Option<R>,
}

/// The controller: the state of the engine as it started it, and at most one
/// live snapshot countdown.
pub struct App<R> {
    engine: EngineState,
    timer: Option<SnapshotTimer<R>>,
}

/// The operation that activation calls for in a given engine state.
pub open spec fn activate_op(engine: EngineState) -> Option<EngineOp> {
    if engine == EngineState::NotStarted {
        Some(EngineOp::Start)
    } else {
        None
    }
}

/// The operation that a change of the record state to `target` calls for.
pub open spec fn record_op(engine: EngineState, target: RecordState) -> Option<EngineOp> {
    match (target, engine) {
        (RecordState::Recording, EngineState::Previewing) => Some(EngineOp::StartRecording),
        (RecordState::Idle, EngineState::PreviewingAndRecording) => Some(EngineOp::StopRecording),
        _ => None,
    }
}

/// The controller after `n` firings of the countdown timer.
pub open spec fn after_ticks<R>(app: App<R>, n: nat) -> App<R>
    decreases n,
{
    if n == 0 {
        app
    } else {
        after_ticks(app.spec_tick().0, (n - 1) as nat)
    }
}

/// How many of `n` firings of the countdown timer call for a capture.
pub open spec fn captures_in<R>(app: App<R>, n: nat) -> nat
    decreases n,
{
    if n == 0 {
        0
    } else {
        (if app.spec_tick().1 is Capture {
            1nat
        } else {
            0nat
        }) + captures_in(app.spec_tick().0, (n - 1) as nat)
    }
}

impl<R> App<R> {
    pub closed spec fn spec_engine(&self) -> EngineState {
        self.engine
    }

    /// The live countdown, if any.
    pub closed spec fn spec_timer(&self) -> Option<SnapshotTimer<R>> {
        self.timer
    }

    /// A live countdown has ticks left and holds its registration.
    pub open spec fn wf(&self) -> bool {
        match self.spec_timer() {
            Some(t) => t.spec_remaining() > 0 && t.spec_registration().is_some(),
            None => true,
        }
    }

    pub open spec fn spec_snapshot_state(&self) -> SnapshotState {
        if self.spec_timer().is_some() {
            SnapshotState::TimerRunning
        } else {
            SnapshotState::Idle
        }
    }

    pub open spec fn spec_record_state(&self) -> RecordState {
        if self.spec_engine() == EngineState::PreviewingAndRecording {
            RecordState::Recording
        } else {
            RecordState::Idle
        }
    }

    /// The controller and the outcome after one firing of the countdown timer.
    pub closed spec fn spec_tick(self) -> (App<R>, TickOutcome<R>) {
        match self.timer {
            None => (self, TickOutcome::NoCountdown),
            Some(t) => if t.spec_remaining() > 1 {
                (
                    App { engine: self.engine, timer: Some(t.spec_ticked()) },
                    TickOutcome::CountingDown((t.spec_remaining() - 1) as u32),
                )
            } else {
                (App { engine: self.engine, timer: None }, TickOutcome::Capture(t.spec_registration()))
            },
        }
    }

    /// A controller whose engine is not started and with no countdown.
    pub fn new() -> (r: App<R>)
        ensures
            r.wf(),
            r.spec_engine() == EngineState::NotStarted,
            r.spec_timer().is_none(),
    {
        App { engine: EngineState::NotStarted, timer: None }
    }

    /// One-time setup at process start belongs to the shell: nothing to do.
    pub fn on_startup() {
    }

    pub fn engine_state(&self) -> (r: EngineState)
        ensures
            r == self.spec_engine(),
    {
        self.engine
    }

    /// The published state of the snapshot action.
    pub fn snapshot_state(&self) -> (r: SnapshotState)
        ensures
            r == self.spec_snapshot_state(),
    {
        if self.timer.is_some() {
            SnapshotState::TimerRunning
        } else {
            SnapshotState::Idle
        }
    }

    /// The published state of the record action.
    pub fn record_state(&self) -> (r: RecordState)
        ensures
            r == self.spec_record_state(),
    {
        if self.engine == EngineState::PreviewingAndRecording {
            RecordState::Recording
        } else {
            RecordState::Idle
        }
    }

    /// Ticks left on the live countdown, if there is one.
    pub fn countdown_remaining(&self) -> (r: Option<u32>)
        ensures
            match self.spec_timer() {
                Some(t) => r == Some(t.spec_remaining() as u32),
                None => r.is_none(),
            },
    {
        match &self.timer {
            Some(t) => Some(t.remaining()),
            None => None,
        }
    }
    /// The engine operation that activation calls for: starting the
    /// preview, unless it was started already.
    pub fn activate_request(&self) -> (r: Option<EngineOp>)
        ensures
            r == activate_op(self.spec_engine()),
    {
        if self.engine == EngineState::NotStarted {
            Some(EngineOp::Start)
        } else {
            None
        }
    }

    /// Activation, told whether the start of the preview succeeded. Where
    /// it was called for and failed, the failure is fatal.
    pub fn on_activate(&mut self, succeeded: bool) -> (r: Verdict)
        ensures
            final(self).spec_timer() == old(self).spec_timer(),
            activate_op(old(self).spec_engine()).is_none() ==> r == Verdict::Continue
                && final(self).spec_engine() == old(self).spec_engine(),
            activate_op(old(self).spec_engine()).is_some() && succeeded ==> r == Verdict::Continue
                && final(self).spec_engine() == EngineState::Previewing,
            activate_op(old(self).spec_engine()).is_some() && !succeeded ==> r == Verdict::Fatal(
                EngineOp::Start,
            ) && final(self).spec_engine() == old(self).spec_engine(),
    {
        if self.engine != EngineState::NotStarted {
            Verdict::Continue
        } else if succeeded {
            self.engine = EngineState::Previewing;
            Verdict::Continue
        } else {
            Verdict::Fatal(EngineOp::Start)
        }
    }

    /// The engine operation that a change of the record state to `target`
    /// calls for; `None` where the engine is already where `target` says,
    /// or the preview is not running.
    pub fn record_request(&self, target: RecordState) -> (r: Option<EngineOp>)
        ensures
            r == record_op(self.spec_engine(), target),
    {
        match (target, self.engine) {
            (RecordState::Recording, EngineState::Previewing) => Some(EngineOp::StartRecording),
            (RecordState::Idle, EngineState::PreviewingAndRecording) => Some(EngineOp::StopRecording),
            _ => None,
        }
    }

    /// A change of the record state to `target`, told whether the operation
    /// that `record_request` named succeeded. A failed start of recording is
    /// fatal; stopping a recording cannot fail, so its outcome is not read.
    pub fn on_record_state_changed(&mut self, target: RecordState, succeeded: bool) -> (r: Verdict)
        ensures
            final(self).spec_timer() == old(self).spec_timer(),
            record_op(old(self).spec_engine(), target).is_none() ==> r == Verdict::Continue
                && final(self).spec_engine() == old(self).spec_engine(),
            record_op(old(self).spec_engine(), target) == Some(EngineOp::StartRecording) ==> if succeeded {
                r == Verdict::Continue && final(self).spec_engine()
                    == EngineState::PreviewingAndRecording
            } else {
                r == Verdict::Fatal(EngineOp::StartRecording) && final(self).spec_engine()
                    == old(self).spec_engine()
            },
            record_op(old(self).spec_engine(), target) == Some(EngineOp::StopRecording) ==> r
                == Verdict::Continue && final(self).spec_engine() == EngineState::Previewing,
    {
        match (target, self.engine) {
            (RecordState::Recording, EngineState::Previewing) => {
                if succeeded {
                    self.engine = EngineState::PreviewingAndRecording;
                    Verdict::Continue
                } else {
                    Verdict::Fatal(EngineOp::StartRecording)
                }
            },
            (RecordState::Idle, EngineState::PreviewingAndRecording) => {
                self.engine = EngineState::Previewing;
                Verdict::Continue
            },
            _ => Verdict::Continue,
        }
    }

    /// Whether a snapshot trigger would start a countdown now, so that the
    /// shell arms a timer only then.
    pub fn snapshot_request(&self) -> (r: bool)
        ensures
            r == self.spec_timer().is_none(),
    {
        self.timer.is_none()
    }

    /// A snapshot trigger, with the registration of a timer armed for it.
    /// Without a live countdown, one of `SNAPSHOT_COUNTDOWN_TICKS` ticks is
    /// started over that registration. With one, nothing changes and the
    /// registration is handed back to be cancelled.
    pub fn on_snapshot_trigger(&mut self, timeout_id: R) -> (r: Option<R>)
        requires
            old(self).wf(),
        ensures
            final(self).wf(),
            final(self).spec_engine() == old(self).spec_engine(),
            old(self).spec_timer().is_some() ==> r == Some(timeout_id) && final(self).spec_timer()
                == old(self).spec_timer(),
            old(self).spec_timer().is_none() ==> r.is_none() && final(self).spec_timer() is Some
                && final(self).spec_timer()->0.spec_remaining() == SNAPSHOT_COUNTDOWN_TICKS
                && final(self).spec_timer()->0.spec_registration() == Some(timeout_id),
    {
        if self.timer.is_some() {
            Some(timeout_id)
        } else {
            self.timer = Some(SnapshotTimer::new(SNAPSHOT_COUNTDOWN_TICKS, timeout_id));
            None
        }
    }

    /// A firing of the countdown timer. The last tick ends the countdown and
    /// calls for the capture; a tick with no live countdown does nothing.
    pub fn on_timer_tick(&mut self) -> (r: TickOutcome<R>)
        requires
            old(self).wf(),
        ensures
            final(self).wf(),
            (*final(self), r) == old(self).spec_tick(),
            final(self).spec_engine() == old(self).spec_engine(),
            match old(self).spec_timer() {
                None => r == TickOutcome::<R>::NoCountdown && final(self).spec_timer().is_none(),
                Some(t) => if t.spec_remaining() > 1 {
                    r == TickOutcome::<R>::CountingDown((t.spec_remaining() - 1) as u32)
                        && final(self).spec_timer() is Some
                        && final(self).spec_timer()->0.spec_remaining() == t.spec_remaining() - 1
                        && final(self).spec_timer()->0.spec_registration() == t.spec_registration()
                } else {
                    r == TickOutcome::<R>::Capture(t.spec_registration())
                        && final(self).spec_timer().is_none()
                },
            },
    {
        let t = self.timer.take();
        match t {
            None => TickOutcome::NoCountdown,
            Some(mut t) => {
                let left = t.tick();
                if left > 0 {
                    self.timer = Some(t);
                    TickOutcome::CountingDown(left)
                } else {
                    TickOutcome::Capture(t.release())
                }
            },
        }
    }

    /// Shutdown. The engine is to be stopped if it was started, and a live
    /// countdown is cancelled: its registration is handed back and no
    /// capture is called for.
    pub fn on_shutdown(self) -> (r: ShutdownPlan<R>)
        ensures
            r.stop_engine == (self.spec_engine() != EngineState::NotStarted),
            r.release == match self.spec_timer() {
                Some(t) => t.spec_registration(),
                None => None,
            },
    {
        let stop_engine = self.engine != EngineState::NotStarted;
        let release = match self.timer {
            Some(t) => t.release(),
            None => None,
        };
        ShutdownPlan { stop_engine, release }
    }
}

/// While a recording runs, a change of the record state to `Recording`
/// calls for no engine operation, and so (by `on_record_state_changed`)
/// leaves the controller as it was; the same holds of `Idle` while none runs.
pub proof fn lemma_record_same_state_is_noop<R>(app: App<R>, target: RecordState)
    requires
        app.spec_record_state() == target,
    ensures
        record_op(app.spec_engine(), target).is_none(),
{
}

/// A live countdown with `k` ticks left runs out after exactly `k` firings:
/// each earlier firing leaves it live with one tick less, exactly one of the
/// `k` firings calls for the capture, the last one, which hands back the
/// countdown's registration, and afterwards no countdown and so no
/// registration is held. The engine state is untouched throughout.
pub proof fn lemma_countdown_runs_out<R>(app: App<R>, k: nat)
    requires
        app.wf(),
        app.spec_timer() is Some,
        app.spec_timer()->0.spec_remaining() == k,
    ensures
        captures_in(app, k) == 1,
        after_ticks(app, k).spec_timer() is None,
        after_ticks(app, k).spec_engine() == app.spec_engine(),
        after_ticks(app, (k - 1) as nat).spec_tick().1 == TickOutcome::Capture(
            app.spec_timer()->0.spec_registration(),
        ),
        forall|j: nat|
            j < k ==> (#[trigger] after_ticks(app, j)).spec_timer() is Some && after_ticks(
                app,
                j,
            ).spec_timer()->0.spec_remaining() == k - j,
    decreases k,
{
    let t = app.spec_timer()->0;
    let next = app.spec_tick().0;
    t.lemma_ticked();
    assert(after_ticks(app, 0) == app);
    if k == 1 {
        assert(after_ticks(next, 0) == next);
        assert(captures_in(next, 0) == 0);
        assert forall|j: nat| j < k implies (#[trigger] after_ticks(app, j)).spec_timer() is Some
            && after_ticks(app, j).spec_timer()->0.spec_remaining() == k - j by {
            assert(j == 0);
        }
    } else {
        assert(next.spec_timer() == Some(t.spec_ticked()));
        lemma_countdown_runs_out(next, (k - 1) as nat);
        assert(after_ticks(app, (k - 1) as nat) == after_ticks(next, (k - 2) as nat));
        assert forall|j: nat| j < k implies (#[trigger] after_ticks(app, j)).spec_timer() is Some
            && after_ticks(app, j).spec_timer()->0.spec_remaining() == k - j by {
            if j > 0 {
                assert(after_ticks(app, j) == after_ticks(next, (j - 1) as nat));
            }
        }
    }
}

} // verus!
