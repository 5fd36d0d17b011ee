//! Safe-quit sequencing.
//!
//! Quit is irrevocable once routed.  Entering the sequence emits a
//! prepare-to-quit notification to the UI boundary; if the emission itself
//! fails there is nothing to wait for and the process terminates at once.
//! Otherwise a short grace wait gives the UI a chance to begin its export,
//! and an independent absolute deadline guarantees termination even if the
//! UI never reacts.  Every path ends in termination with exit status 0; the
//! host performs the actual waits and the process exit.

use vstd::prelude::*;

verus! {

/// The notification event that tells the UI boundary to begin its export.
pub const PREPARE_QUIT_EVENT: &'static str = "prepare-to-quit";

/// Milliseconds of the short grace wait after the notification is emitted.
pub const GRACE_WAIT_MS: u64 = 100;

/// Milliseconds of the absolute fail-safe deadline after quit is requested.
pub const FAILSAFE_DEADLINE_MS: u64 = 5000;

/// The exit status of a normal quit.
pub const QUIT_EXIT_STATUS: i32 = 0;

/// The state of the quit sequence.
#[derive(PartialEq, Eq, Structural, Clone, Copy, Debug)]
pub enum QuitState {
    /// No quit has been routed.
    Idle,
    /// The prepare-to-quit notification went out; waits are running.
    ExportRequested,
    /// The UI acknowledged the export before the waits ran out.
    ExportAcknowledged,
    /// The grace wait ran out without an acknowledgment.
    GraceExpired,
    /// The process is exiting.
    Terminated,
}

/// An event delivered to the sequencer.
#[derive(PartialEq, Eq, Structural, Clone, Copy, Debug)]
pub enum QuitEvent {
    /// The quit menu action was routed; the notification emission either
    /// succeeded or failed.
    Requested { emit_ok: bool },
    /// The UI boundary acknowledged that its export began.
    AckReceived,
    /// The short grace wait elapsed.
    GraceElapsed,
    /// The absolute fail-safe deadline elapsed.
    DeadlineElapsed,
}

/// What the host must do after a step.
#[derive(PartialEq, Eq, Structural, Clone, Copy, Debug)]
pub enum QuitCommand {
    /// Nothing to do.
    Stay,
    /// Start the grace wait and the fail-safe deadline timer, off the UI
    /// thread.
    StartTimers,
    /// Exit the process with the given status.
    Exit { status: i32 },
}

/// One step of the quit state machine.
///
/// Idle reacts only to a routed quit: a successful emission starts the
/// waits; a failed one terminates at once.  A running sequence terminates on
/// whichever of acknowledgment, grace expiry or deadline expiry comes first.
/// Terminated is absorbing, and quit cannot be cancelled: no event leads
/// from a running sequence back to Idle.
pub open spec fn step(s: QuitState, e: QuitEvent) -> (QuitState, QuitCommand) {
    match (s, e) {
        (QuitState::Idle, QuitEvent::Requested { emit_ok }) => if emit_ok {
            (QuitState::ExportRequested, QuitCommand::StartTimers)
        } else {
            (QuitState::Terminated, QuitCommand::Exit { status: QUIT_EXIT_STATUS })
        },
        (QuitState::Idle, _) => (QuitState::Idle, QuitCommand::Stay),
        (QuitState::ExportRequested, QuitEvent::AckReceived) => (
            QuitState::ExportAcknowledged,
            QuitCommand::Stay,
        ),
        (QuitState::ExportRequested, QuitEvent::GraceElapsed) => (
            QuitState::GraceExpired,
            QuitCommand::Exit { status: QUIT_EXIT_STATUS },
        ),
        (QuitState::ExportRequested, QuitEvent::DeadlineElapsed) => (
            QuitState::Terminated,
            QuitCommand::Exit { status: QUIT_EXIT_STATUS },
        ),
        (QuitState::ExportRequested, _) => (QuitState::ExportRequested, QuitCommand::Stay),
        (QuitState::ExportAcknowledged, QuitEvent::GraceElapsed) => (
            QuitState::Terminated,
            QuitCommand::Exit { status: QUIT_EXIT_STATUS },
        ),
        (QuitState::ExportAcknowledged, QuitEvent::DeadlineElapsed) => (
            QuitState::Terminated,
            QuitCommand::Exit { status: QUIT_EXIT_STATUS },
        ),
        (QuitState::ExportAcknowledged, _) => (QuitState::ExportAcknowledged, QuitCommand::Stay),
        (QuitState::GraceExpired, QuitEvent::DeadlineElapsed) => (
            QuitState::Terminated,
            QuitCommand::Exit { status: QUIT_EXIT_STATUS },
        ),
        (QuitState::GraceExpired, _) => (QuitState::GraceExpired, QuitCommand::Stay),
        (QuitState::Terminated, _) => (QuitState::Terminated, QuitCommand::Stay),
    }
}

/// The state after delivering the events of `evs` in order, starting at `s`.
pub open spec fn run(s: QuitState, evs: Seq<QuitEvent>) -> QuitState
    decreases evs.len(),
{
    if evs.len() == 0 {
        s
    } else {
        run(step(s, evs[0]).0, evs.drop_first())
    }
}

/// The quit sequencer: its state and, once quit is requested, the absolute
/// time by which the process must be gone.
pub struct QuitSequencer {
    pub state: QuitState,
    pub deadline_at: u64,
}

impl QuitSequencer {
    /// A sequencer that has seen no quit yet.
    pub fn new() -> (r: QuitSequencer)
        ensures
            r.state == QuitState::Idle,
    {
        QuitSequencer { state: QuitState::Idle, deadline_at: 0 }
    }

    /// Delivers one event at absolute time `now_ms`, returning what the host
    /// must do.  A quit routed at `now_ms` sets the fail-safe deadline
    /// `FAILSAFE_DEADLINE_MS` later.
    pub fn on_event(&mut self, e: QuitEvent, now_ms: u64) -> (cmd: QuitCommand)
        requires
            now_ms + FAILSAFE_DEADLINE_MS <= u64::MAX,
        ensures
            final(self).state == step(old(self).state, e).0,
            cmd == step(old(self).state, e).1,
            old(self).state == QuitState::Idle && e == (QuitEvent::Requested { emit_ok: true })
                ==> final(self).deadline_at == now_ms + FAILSAFE_DEADLINE_MS,
            old(self).state != QuitState::Idle ==> final(self).deadline_at == old(
                self,
            ).deadline_at,
    {
        match (self.state, e) {
            (QuitState::Idle, QuitEvent::Requested { emit_ok }) => {
                if emit_ok {
                    self.state = QuitState::ExportRequested;
                    self.deadline_at = now_ms + FAILSAFE_DEADLINE_MS;
                    QuitCommand::StartTimers
                } else {
                    self.state = QuitState::Terminated;
                    QuitCommand::Exit { status: QUIT_EXIT_STATUS }
                }
            },
            (QuitState::Idle, _) => QuitCommand::Stay,
            (QuitState::ExportRequested, QuitEvent::AckReceived) => {
                self.state = QuitState::ExportAcknowledged;
                QuitCommand::Stay
            },
            (QuitState::ExportRequested, QuitEvent::GraceElapsed) => {
                self.state = QuitState::GraceExpired;
                QuitCommand::Exit { status: QUIT_EXIT_STATUS }
            },
            (QuitState::ExportRequested, QuitEvent::DeadlineElapsed) => {
                self.state = QuitState::Terminated;
                QuitCommand::Exit { status: QUIT_EXIT_STATUS }
            },
            (QuitState::ExportRequested, _) => QuitCommand::Stay,
            (QuitState::ExportAcknowledged, QuitEvent::GraceElapsed) => {
                self.state = QuitState::Terminated;
                QuitCommand::Exit { status: QUIT_EXIT_STATUS }
            },
            (QuitState::ExportAcknowledged, QuitEvent::DeadlineElapsed) => {
                self.state = QuitState::Terminated;
                QuitCommand::Exit { status: QUIT_EXIT_STATUS }
            },
            (QuitState::ExportAcknowledged, _) => QuitCommand::Stay,
            (QuitState::GraceExpired, QuitEvent::DeadlineElapsed) => {
                self.state = QuitState::Terminated;
                QuitCommand::Exit { status: QUIT_EXIT_STATUS }
            },
            (QuitState::GraceExpired, _) => QuitCommand::Stay,
            (QuitState::Terminated, _) => QuitCommand::Stay,
        }
    }
}

/// Law: a routed quit whose notification emission fails terminates at once,
/// with exit status 0, waiting for nothing.
pub proof fn lemma_emit_failure_terminates()
    ensures
        step(QuitState::Idle, QuitEvent::Requested { emit_ok: false }) == (
            QuitState::Terminated,
            QuitCommand::Exit { status: 0 },
        ),
{
}

/// Law: the deadline event terminates from every state but Idle, with exit
/// status 0 unless the process is already exiting.
pub proof fn lemma_deadline_terminates(s: QuitState)
    ensures
        s != QuitState::Idle ==> step(s, QuitEvent::DeadlineElapsed).0 == QuitState::Terminated,
        !(s == QuitState::Idle || s == QuitState::Terminated) ==> step(
            s,
            QuitEvent::DeadlineElapsed,
        ).1 == (QuitCommand::Exit { status: 0 }),
{
}

/// Law: Terminated is absorbing — no later event leaves it.
pub proof fn lemma_terminated_absorbing(evs: Seq<QuitEvent>)
    ensures
        run(QuitState::Terminated, evs) == QuitState::Terminated,
    decreases evs.len(),
{
    if evs.len() > 0 {
        lemma_terminated_absorbing(evs.drop_first());
    }
}

/// Law: routing quit always eventually terminates the process within the
/// fail-safe deadline, whatever the UI does and even if the notification
/// emission fails.  Formally: from Idle, after a routed quit (with either
/// emission outcome) and then any events whatever up to and including the
/// deadline event — which the host's fail-safe timer delivers no later than
/// `FAILSAFE_DEADLINE_MS` after the request — the state is Terminated.
pub proof fn lemma_quit_always_terminates(emit_ok: bool, evs: Seq<QuitEvent>)
    ensures
        run(
            step(QuitState::Idle, QuitEvent::Requested { emit_ok }).0,
            evs.push(QuitEvent::DeadlineElapsed),
        ) == QuitState::Terminated,
    decreases evs.len(),
{
    let s0 = step(QuitState::Idle, QuitEvent::Requested { emit_ok }).0;
    lemma_run_to_deadline(s0, evs);
}

/// From any state a quit has left — every state but Idle — delivering any
/// events and then the deadline event ends in Terminated.
proof fn lemma_run_to_deadline(s: QuitState, evs: Seq<QuitEvent>)
    requires
        s != QuitState::Idle,
    ensures
        run(s, evs.push(QuitEvent::DeadlineElapsed)) == QuitState::Terminated,
    decreases evs.len(),
{
    let whole = evs.push(QuitEvent::DeadlineElapsed);
    assert(run(s, whole) == run(step(s, whole[0]).0, whole.drop_first()));
    if evs.len() == 0 {
        assert(whole[0] == QuitEvent::DeadlineElapsed);
        assert(step(s, QuitEvent::DeadlineElapsed).0 == QuitState::Terminated);
        assert(whole.drop_first().len() == 0);
        assert(run(step(s, whole[0]).0, whole.drop_first()) == step(s, whole[0]).0);
    } else {
        assert(whole[0] == evs[0]);
        assert(whole.drop_first() =~= evs.drop_first().push(QuitEvent::DeadlineElapsed));
        lemma_run_to_deadline(step(s, evs[0]).0, evs.drop_first());
    }
}

} // verus!
