//! The process teardown state machine.
//!
//! Tearing down a process-backed session follows a fixed sequence: a
//! cancellation signal is raised, the background service loop observes it
//! and closes the child's input stream, a bounded grace window begins, and
//! the child either exits on its own or is forcibly terminated once the
//! window elapses. On every path the child's exit status is consumed, so no
//! defunct process entry is left behind.
//!
//! The driver that performs the I/O lives outside this library; it feeds
//! observed events into [`ProcessTeardown::step`] and performs the action
//! each transition asks for.

use vstd::prelude::*;

verus! {

/// How long a well-behaved child is given to exit on its own after its
/// input stream closes, in seconds.
pub const GRACE_WINDOW_SECS: u64 = 3;

/// Where a teardown stands.
#[derive(Clone, Copy, Debug, PartialEq, Eq, Structural)]
pub enum TeardownPhase {
    /// The session is live; no teardown has been requested.
    Running,
    /// A cancellation signal has been raised for the service loop.
    Cancelling,
    /// The service loop observed the cancellation and closed the child's
    /// input stream.
    StdinClosed,
    /// The bounded wait for a natural exit is under way.
    WaitingGraceful,
    /// The grace window elapsed and the child was forcibly terminated.
    ForceKilled,
    /// The child is gone and its exit status has been consumed.
    Terminated,
}

/// What the teardown driver observes.
#[derive(Clone, Copy, Debug, PartialEq, Eq, Structural)]
pub enum TeardownEvent {
    /// Teardown was requested, by an explicit close or by the session
    /// falling out of scope.
    CancelRequested,
    /// The service loop reached a suspension point and saw the signal.
    CancellationObserved,
    /// The bounded wait for a natural exit has started.
    WaitStarted,
    /// The child process exited.
    ProcessExited,
    /// The grace window elapsed without an exit.
    GraceExpired,
}

/// What the teardown driver must do next.
#[derive(Clone, Copy, Debug, PartialEq, Eq, Structural)]
pub enum TeardownAction {
    /// Raise the cancellation signal for the background service loop.
    SignalCancel,
    /// Close the child's input stream, the conventional signal for a
    /// well-behaved peer to exit.
    CloseStdin,
    /// Start the bounded grace timer of [`GRACE_WINDOW_SECS`] seconds.
    StartGraceTimer,
    /// Forcibly terminate the child with the platform kill signal.
    KillProcess,
    /// Consume the child's exit status.
    Reap,
    /// Nothing: the event does not advance this phase.
    Stay,
}

/// One teardown in progress.
#[derive(Clone, Copy, Debug, PartialEq, Eq, Structural)]
pub struct ProcessTeardown {
    /// Where the teardown stands.
    pub phase: TeardownPhase,
    /// Whether the child's exit status has been consumed.
    pub reaped: bool,
    /// Whether the child had to be forcibly terminated.
    pub forced: bool,
}

impl ProcessTeardown {
    /// The machine's invariant: a terminated teardown has always consumed
    /// the exit status, and only a terminated one has.
    pub open spec fn wf(self) -> bool {
        self.reaped <==> self.phase is Terminated
    }

    /// The transition table: the state and action that follow `self` on
    /// observing `ev`. An event that does not apply to the current phase
    /// leaves the state unchanged.
    pub open spec fn spec_step(self, ev: TeardownEvent) -> (ProcessTeardown, TeardownAction) {
        match (self.phase, ev) {
            (TeardownPhase::Running, TeardownEvent::CancelRequested) => (
                ProcessTeardown { phase: TeardownPhase::Cancelling, ..self },
                TeardownAction::SignalCancel,
            ),
            (TeardownPhase::Cancelling, TeardownEvent::CancellationObserved) => (
                ProcessTeardown { phase: TeardownPhase::StdinClosed, ..self },
                TeardownAction::CloseStdin,
            ),
            (TeardownPhase::StdinClosed, TeardownEvent::WaitStarted) => (
                ProcessTeardown { phase: TeardownPhase::WaitingGraceful, ..self },
                TeardownAction::StartGraceTimer,
            ),
            (TeardownPhase::WaitingGraceful, TeardownEvent::ProcessExited) => (
                ProcessTeardown { phase: TeardownPhase::Terminated, reaped: true, ..self },
                TeardownAction::Reap,
            ),
            (TeardownPhase::WaitingGraceful, TeardownEvent::GraceExpired) => (
                ProcessTeardown { phase: TeardownPhase::ForceKilled, forced: true, ..self },
                TeardownAction::KillProcess,
            ),
            (TeardownPhase::ForceKilled, TeardownEvent::ProcessExited) => (
                ProcessTeardown { phase: TeardownPhase::Terminated, reaped: true, ..self },
                TeardownAction::Reap,
            ),
            _ => (self, TeardownAction::Stay),
        }
    }

    /// A fresh teardown for a live session.
    pub fn new() -> (r: Self)
        ensures
            r.phase is Running,
            !r.reaped,
            !r.forced,
            r.wf(),
    {
        ProcessTeardown { phase: TeardownPhase::Running, reaped: false, forced: false }
    }

    /// Advance the machine on an observed event, returning the action the
    /// driver must perform.
    pub fn step(&mut self, ev: TeardownEvent) -> (a: TeardownAction)
        requires
            old(self).wf(),
        ensures
            (*final(self), a) == old(self).spec_step(ev),
            final(self).wf(),
    {
        let (next, action): (ProcessTeardown, TeardownAction) = match (self.phase, ev) {
            (TeardownPhase::Running, TeardownEvent::CancelRequested) => (
                ProcessTeardown { phase: TeardownPhase::Cancelling, ..*self },
                TeardownAction::SignalCancel,
            ),
            (TeardownPhase::Cancelling, TeardownEvent::CancellationObserved) => (
                ProcessTeardown { phase: TeardownPhase::StdinClosed, ..*self },
                TeardownAction::CloseStdin,
            ),
            (TeardownPhase::StdinClosed, TeardownEvent::WaitStarted) => (
                ProcessTeardown { phase: TeardownPhase::WaitingGraceful, ..*self },
                TeardownAction::StartGraceTimer,
            ),
            (TeardownPhase::WaitingGraceful, TeardownEvent::ProcessExited) => (
                ProcessTeardown { phase: TeardownPhase::Terminated, reaped: true, ..*self },
                TeardownAction::Reap,
            ),
            (TeardownPhase::WaitingGraceful, TeardownEvent::GraceExpired) => (
                ProcessTeardown { phase: TeardownPhase::ForceKilled, forced: true, ..*self },
                TeardownAction::KillProcess,
            ),
            (TeardownPhase::ForceKilled, TeardownEvent::ProcessExited) => (
                ProcessTeardown { phase: TeardownPhase::Terminated, reaped: true, ..*self },
                TeardownAction::Reap,
            ),
            _ => (*self, TeardownAction::Stay),
        };
        *self = next;
        action
    }

    /// The state after observing a whole sequence of events.
    pub open spec fn spec_run(self, evs: Seq<TeardownEvent>) -> ProcessTeardown
        decreases evs.len(),
    {
        if evs.len() == 0 {
            self
        } else {
            self.spec_step(evs[0]).0.spec_run(evs.drop_first())
        }
    }
}

/// Each transition preserves the machine's invariant.
pub proof fn lemma_step_preserves_wf(s: ProcessTeardown, ev: TeardownEvent)
    requires
        s.wf(),
    ensures
        s.spec_step(ev).0.wf(),
{
}

/// The teardown invariant holds after any sequence of observed events: in
/// particular, whenever a teardown reaches `Terminated` — by whichever path
/// — the child's exit status has been consumed, and it is never consumed
/// before that.
pub proof fn lemma_run_preserves_wf(s: ProcessTeardown, evs: Seq<TeardownEvent>)
    requires
        s.wf(),
    ensures
        s.spec_run(evs).wf(),
    decreases evs.len(),
{
    if evs.len() > 0 {
        lemma_step_preserves_wf(s, evs[0]);
        lemma_run_preserves_wf(s.spec_step(evs[0]).0, evs.drop_first());
    }
}

/// The clean path: a child that exits within the grace window leaves the
/// machine terminated and reaped, without force.
pub proof fn lemma_graceful_path(s: ProcessTeardown)
    requires
        s.phase is Running,
        !s.reaped,
        !s.forced,
    ensures
        ({
            let evs = seq![
                TeardownEvent::CancelRequested,
                TeardownEvent::CancellationObserved,
                TeardownEvent::WaitStarted,
                TeardownEvent::ProcessExited,
            ];
            let end = s.spec_run(evs);
            end.phase is Terminated && end.reaped && !end.forced
        }),
{
    reveal_with_fuel(ProcessTeardown::spec_run, 6);
    let evs = seq![
        TeardownEvent::CancelRequested,
        TeardownEvent::CancellationObserved,
        TeardownEvent::WaitStarted,
        TeardownEvent::ProcessExited,
    ];
    assert(evs.drop_first() =~= seq![
        TeardownEvent::CancellationObserved,
        TeardownEvent::WaitStarted,
        TeardownEvent::ProcessExited,
    ]);
    assert(evs.drop_first().drop_first() =~= seq![
        TeardownEvent::WaitStarted,
        TeardownEvent::ProcessExited,
    ]);
    assert(evs.drop_first().drop_first().drop_first() =~= seq![TeardownEvent::ProcessExited]);
    assert(evs.drop_first().drop_first().drop_first().drop_first() =~= Seq::<
        TeardownEvent,
    >::empty());
}

/// The timed escape: a child that outlives the grace window is forcibly
/// terminated, and the machine still ends terminated and reaped.
pub proof fn lemma_forced_path(s: ProcessTeardown)
    requires
        s.phase is Running,
        !s.reaped,
        !s.forced,
    ensures
        ({
            let evs = seq![
                TeardownEvent::CancelRequested,
                TeardownEvent::CancellationObserved,
                TeardownEvent::WaitStarted,
                TeardownEvent::GraceExpired,
                TeardownEvent::ProcessExited,
            ];
            let end = s.spec_run(evs);
            end.phase is Terminated && end.reaped && end.forced
        }),
{
    reveal_with_fuel(ProcessTeardown::spec_run, 7);
    let evs = seq![
        TeardownEvent::CancelRequested,
        TeardownEvent::CancellationObserved,
        TeardownEvent::WaitStarted,
        TeardownEvent::GraceExpired,
        TeardownEvent::ProcessExited,
    ];
    assert(evs.drop_first() =~= seq![
        TeardownEvent::CancellationObserved,
        TeardownEvent::WaitStarted,
        TeardownEvent::GraceExpired,
        TeardownEvent::ProcessExited,
    ]);
    assert(evs.drop_first().drop_first() =~= seq![
        TeardownEvent::WaitStarted,
        TeardownEvent::GraceExpired,
        TeardownEvent::ProcessExited,
    ]);
    assert(evs.drop_first().drop_first().drop_first() =~= seq![
        TeardownEvent::GraceExpired,
        TeardownEvent::ProcessExited,
    ]);
    assert(evs.drop_first().drop_first().drop_first().drop_first() =~= seq![
        TeardownEvent::ProcessExited,
    ]);
    assert(evs.drop_first().drop_first().drop_first().drop_first().drop_first() =~= Seq::<
        TeardownEvent,
    >::empty());
}

} // verus!
