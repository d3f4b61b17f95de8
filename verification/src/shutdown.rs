//! Stopping the server: after a termination signal no new work is taken,
//! work in flight gets a bounded time to finish, and the process ends in
//! one of three ways that can be told apart.

use vstd::prelude::*;
use vstd::string::*;
use crate::error::AppError;

verus! {

/// The time that work in flight gets to finish after the signal, in
/// milliseconds.
pub const GRACE_PERIOD_MS: u64 = 30_000;

/// How the process ended.
#[derive(Debug, Clone, Copy, PartialEq, Eq, Structural)]
pub enum ShutdownOutcome {
    /// All work finished in time.
    Clean,
    /// The grace period ran out with work still in flight.
    Forced,
    /// Serving or stopping failed.
    Failed,
}

/// Where the server stands.
#[derive(Debug, Clone, Copy, PartialEq, Eq, Structural)]
pub enum ShutdownPhase {
    /// Taking work.
    Serving,
    /// Taking no new work and waiting for work in flight, at the latest
    /// until the clock shows `deadline_ms`.
    Draining { deadline_ms: u64 },
    /// Ended. Nothing changes after this.
    Finished { outcome: ShutdownOutcome },
}

/// What can happen to the server.
#[derive(Debug, Clone, Copy, PartialEq, Eq, Structural)]
pub enum ShutdownEvent {
    /// A termination signal arrived.
    Signal,
    /// All work in flight has finished and the serving loop has returned.
    Drained,
    /// The serving loop returned an error.
    Failure,
    /// Time has passed.
    Tick,
}

/// What is to be done after an event.
#[derive(Debug, Clone, Copy, PartialEq, Eq, Structural)]
pub enum ShutdownAction {
    /// Nothing; go on as before.
    Continue,
    /// Stop taking new work, let work in flight run, and come back with a
    /// tick when the clock shows `deadline_ms`.
    StopAccepting { deadline_ms: u64 },
    /// End the process and report the outcome; where it is `Forced`, work
    /// in flight is cut off.
    Finish { outcome: ShutdownOutcome },
}

/// The end of a grace period of `grace_ms` that begins at `now_ms`, and the
/// largest clock value where that lies beyond it.
pub open spec fn deadline_after(now_ms: u64, grace_ms: u64) -> u64 {
    if now_ms + grace_ms <= u64::MAX {
        (now_ms + grace_ms) as u64
    } else {
        u64::MAX
    }
}

/// The phase that follows `phase` when `event` happens at `now_ms`, with a
/// grace period of `grace_ms`.
pub open spec fn next_phase(
    phase: ShutdownPhase,
    grace_ms: u64,
    event: ShutdownEvent,
    now_ms: u64,
) -> ShutdownPhase {
    match phase {
        ShutdownPhase::Serving => match event {
            ShutdownEvent::Signal => ShutdownPhase::Draining {
                deadline_ms: deadline_after(now_ms, grace_ms),
            },
            ShutdownEvent::Drained => ShutdownPhase::Finished { outcome: ShutdownOutcome::Clean },
            ShutdownEvent::Failure => ShutdownPhase::Finished { outcome: ShutdownOutcome::Failed },
            ShutdownEvent::Tick => phase,
        },
        ShutdownPhase::Draining { deadline_ms } => match event {
            ShutdownEvent::Signal => phase,
            ShutdownEvent::Drained => if now_ms <= deadline_ms {
                ShutdownPhase::Finished { outcome: ShutdownOutcome::Clean }
            } else {
                ShutdownPhase::Finished { outcome: ShutdownOutcome::Forced }
            },
            ShutdownEvent::Failure => ShutdownPhase::Finished { outcome: ShutdownOutcome::Failed },
            ShutdownEvent::Tick => if now_ms >= deadline_ms {
                ShutdownPhase::Finished { outcome: ShutdownOutcome::Forced }
            } else {
                phase
            },
        },
        ShutdownPhase::Finished { .. } => phase,
    }
}

/// What is to be done when `phase` is followed by `next`: where the server
/// begins to drain, stop accepting; where it ends, finish; else nothing.
pub open spec fn action_between(phase: ShutdownPhase, next: ShutdownPhase) -> ShutdownAction {
    match (phase, next) {
        (ShutdownPhase::Serving, ShutdownPhase::Draining { deadline_ms }) => {
            ShutdownAction::StopAccepting { deadline_ms }
        },
        (ShutdownPhase::Serving, ShutdownPhase::Finished { outcome }) => ShutdownAction::Finish {
            outcome,
        },
        (ShutdownPhase::Draining { .. }, ShutdownPhase::Finished { outcome }) => {
            ShutdownAction::Finish { outcome }
        },
        _ => ShutdownAction::Continue,
    }
}

/// The phase reached from `phase` after the events of `events`, each with
/// the clock value at which it happens, in their order.
pub open spec fn phase_after(
    phase: ShutdownPhase,
    grace_ms: u64,
    events: Seq<(ShutdownEvent, u64)>,
) -> ShutdownPhase
    decreases events.len(),
{
    if events.len() == 0 {
        phase
    } else {
        next_phase(
            phase_after(phase, grace_ms, events.drop_last()),
            grace_ms,
            events.last().0,
            events.last().1,
        )
    }
}

/// Message of the error with which new work is refused while the server
/// stops.
pub open spec fn shutting_down_message() -> Seq<char> {
    "Server is shutting down"@
}

impl ShutdownPhase {
    /// Decides on new work: it is taken while the server is serving, and
    /// refused as unavailable from the signal on.
    pub fn accept_work(&self) -> (r: Result<(), AppError>)
        ensures
            r is Ok <==> *self == ShutdownPhase::Serving,
            r is Err ==> r->Err_0 is UnavailableError && r->Err_0.message_text()
                == shutting_down_message(),
    {
        match self {
            ShutdownPhase::Serving => Ok(()),
            _ => Err(AppError::unavailable("Server is shutting down")),
        }
    }
}

/// Decides how the server stops.
#[derive(Debug)]
pub struct ShutdownCoordinator {
    phase: ShutdownPhase,
    grace_ms: u64,
}

impl ShutdownCoordinator {
    /// Where the server stands.
    pub closed spec fn phase_of(self) -> ShutdownPhase {
        self.phase
    }

    /// The grace period in milliseconds.
    pub closed spec fn grace_of(self) -> u64 {
        self.grace_ms
    }

    /// A coordinator for a server that is serving, with the grace period of
    /// 30 seconds.
    pub fn new() -> (c: ShutdownCoordinator)
        ensures
            c.phase_of() == ShutdownPhase::Serving,
            c.grace_of() == GRACE_PERIOD_MS,
    {
        ShutdownCoordinator { phase: ShutdownPhase::Serving, grace_ms: GRACE_PERIOD_MS }
    }

    /// A coordinator for a server that is serving, with a grace period of
    /// `grace_ms` milliseconds.
    pub fn with_grace_period(grace_ms: u64) -> (c: ShutdownCoordinator)
        ensures
            c.phase_of() == ShutdownPhase::Serving,
            c.grace_of() == grace_ms,
    {
        ShutdownCoordinator { phase: ShutdownPhase::Serving, grace_ms }
    }

    /// Where the server stands.
    pub fn phase(&self) -> (p: ShutdownPhase)
        ensures
            p == self.phase_of(),
    {
        self.phase
    }

    /// How the process ended, once it has.
    pub fn outcome(&self) -> (o: Option<ShutdownOutcome>)
        ensures
            o == match self.phase_of() {
                ShutdownPhase::Finished { outcome } => Some(outcome),
                _ => None::<ShutdownOutcome>,
            },
    {
        match self.phase {
            ShutdownPhase::Finished { outcome } => Some(outcome),
            _ => None,
        }
    }

    /// Decides on new work, by the phase in which the server stands.
    pub fn accept_work(&self) -> (r: Result<(), AppError>)
        ensures
            r is Ok <==> self.phase_of() == ShutdownPhase::Serving,
            r is Err ==> r->Err_0 is UnavailableError && r->Err_0.message_text()
                == shutting_down_message(),
    {
        self.phase.accept_work()
    }

    /// Takes in one event that happens when the clock shows `now_ms`
    /// milliseconds, moves to the phase that follows and says what is to be
    /// done.
    pub fn handle(&mut self, event: ShutdownEvent, now_ms: u64) -> (action: ShutdownAction)
        ensures
            final(self).grace_of() == old(self).grace_of(),
            final(self).phase_of() == next_phase(
                old(self).phase_of(),
                old(self).grace_of(),
                event,
                now_ms,
            ),
            action == action_between(old(self).phase_of(), final(self).phase_of()),
    {
        let before = self.phase;
        let next = match before {
            ShutdownPhase::Serving => match event {
                ShutdownEvent::Signal => {
                    let deadline_ms = if now_ms <= u64::MAX - self.grace_ms {
                        now_ms + self.grace_ms
                    } else {
                        u64::MAX
                    };
                    ShutdownPhase::Draining { deadline_ms }
                },
                ShutdownEvent::Drained => ShutdownPhase::Finished {
                    outcome: ShutdownOutcome::Clean,
                },
                ShutdownEvent::Failure => ShutdownPhase::Finished {
                    outcome: ShutdownOutcome::Failed,
                },
                ShutdownEvent::Tick => before,
            },
            ShutdownPhase::Draining { deadline_ms } => match event {
                ShutdownEvent::Signal => before,
                ShutdownEvent::Drained => if now_ms <= deadline_ms {
                    ShutdownPhase::Finished { outcome: ShutdownOutcome::Clean }
                } else {
                    ShutdownPhase::Finished { outcome: ShutdownOutcome::Forced }
                },
                ShutdownEvent::Failure => ShutdownPhase::Finished {
                    outcome: ShutdownOutcome::Failed,
                },
                ShutdownEvent::Tick => if now_ms >= deadline_ms {
                    ShutdownPhase::Finished { outcome: ShutdownOutcome::Forced }
                } else {
                    before
                },
            },
            ShutdownPhase::Finished { .. } => before,
        };
        self.phase = next;
        match (before, next) {
            (ShutdownPhase::Serving, ShutdownPhase::Draining { deadline_ms }) => {
                ShutdownAction::StopAccepting { deadline_ms }
            },
            (ShutdownPhase::Serving, ShutdownPhase::Finished { outcome }) => {
                ShutdownAction::Finish { outcome }
            },
            (ShutdownPhase::Draining { .. }, ShutdownPhase::Finished { outcome }) => {
                ShutdownAction::Finish { outcome }
            },
            _ => ShutdownAction::Continue,
        }
    }
}

/// Whether every event of `events` is a tick at a clock value before
/// `deadline_ms`.
pub open spec fn ticks_before(events: Seq<(ShutdownEvent, u64)>, deadline_ms: u64) -> bool {
    forall|i: int|
        0 <= i < events.len() ==> (#[trigger] events[i]).0 == ShutdownEvent::Tick && events[i].1
            < deadline_ms
}

/// One event alone leads to the phase that follows it.
pub proof fn lemma_phase_after_one(
    phase: ShutdownPhase,
    grace_ms: u64,
    event: ShutdownEvent,
    now_ms: u64,
)
    ensures
        phase_after(phase, grace_ms, seq![(event, now_ms)]) == next_phase(
            phase,
            grace_ms,
            event,
            now_ms,
        ),
{
    let one = seq![(event, now_ms)];
    assert(one.drop_last().len() == 0);
    assert(one.last() == (event, now_ms));
    assert(phase_after(phase, grace_ms, one.drop_last()) == phase);
}

/// Events that follow one another are taken in one after the other.
pub proof fn lemma_phase_after_concat(
    phase: ShutdownPhase,
    grace_ms: u64,
    first: Seq<(ShutdownEvent, u64)>,
    second: Seq<(ShutdownEvent, u64)>,
)
    ensures
        phase_after(phase, grace_ms, first + second) == phase_after(
            phase_after(phase, grace_ms, first),
            grace_ms,
            second,
        ),
    decreases second.len(),
{
    if second.len() == 0 {
        assert(first + second =~= first);
    } else {
        lemma_phase_after_concat(phase, grace_ms, first, second.drop_last());
        assert((first + second).drop_last() =~= first + second.drop_last());
        assert((first + second).last() == second.last());
    }
}

/// Once the process has ended, no event changes how it ended.
pub proof fn lemma_finished_is_final(
    outcome: ShutdownOutcome,
    grace_ms: u64,
    events: Seq<(ShutdownEvent, u64)>,
)
    ensures
        phase_after(ShutdownPhase::Finished { outcome }, grace_ms, events)
            == (ShutdownPhase::Finished { outcome }),
    decreases events.len(),
{
    if events.len() > 0 {
        lemma_finished_is_final(outcome, grace_ms, events.drop_last());
    }
}

/// While the server drains, ticks before the deadline change nothing.
pub proof fn lemma_early_ticks_wait(
    deadline_ms: u64,
    grace_ms: u64,
    ticks: Seq<(ShutdownEvent, u64)>,
)
    requires
        ticks_before(ticks, deadline_ms),
    ensures
        phase_after(ShutdownPhase::Draining { deadline_ms }, grace_ms, ticks)
            == (ShutdownPhase::Draining { deadline_ms }),
    decreases ticks.len(),
{
    if ticks.len() > 0 {
        let earlier = ticks.drop_last();
        assert forall|i: int| 0 <= i < earlier.len() implies (#[trigger] earlier[i]).0
            == ShutdownEvent::Tick && earlier[i].1 < deadline_ms by {
            assert(earlier[i] == ticks[i]);
        }
        lemma_early_ticks_wait(deadline_ms, grace_ms, earlier);
        assert(ticks.last() == ticks[ticks.len() - 1]);
    }
}

/// A shutdown in which the work in flight finishes in time is clean: after
/// a signal when the clock shows `signal_ms`, any number of ticks before the
/// deadline, and the end of all work no later than the deadline, the
/// process has ended cleanly, and no later event changes that.
pub proof fn lemma_prompt_drain_is_clean(
    grace_ms: u64,
    signal_ms: u64,
    ticks: Seq<(ShutdownEvent, u64)>,
    drained_ms: u64,
    later: Seq<(ShutdownEvent, u64)>,
)
    requires
        ticks_before(ticks, deadline_after(signal_ms, grace_ms)),
        drained_ms <= deadline_after(signal_ms, grace_ms),
    ensures
        phase_after(
            ShutdownPhase::Serving,
            grace_ms,
            seq![(ShutdownEvent::Signal, signal_ms)] + ticks + seq![
                (ShutdownEvent::Drained, drained_ms),
            ] + later,
        ) == (ShutdownPhase::Finished { outcome: ShutdownOutcome::Clean }),
{
    let deadline_ms = deadline_after(signal_ms, grace_ms);
    let signal = seq![(ShutdownEvent::Signal, signal_ms)];
    let drained = seq![(ShutdownEvent::Drained, drained_ms)];
    let draining = ShutdownPhase::Draining { deadline_ms };
    lemma_phase_after_one(ShutdownPhase::Serving, grace_ms, ShutdownEvent::Signal, signal_ms);
    lemma_early_ticks_wait(deadline_ms, grace_ms, ticks);
    lemma_phase_after_concat(ShutdownPhase::Serving, grace_ms, signal, ticks);
    lemma_phase_after_one(draining, grace_ms, ShutdownEvent::Drained, drained_ms);
    lemma_phase_after_concat(ShutdownPhase::Serving, grace_ms, signal + ticks, drained);
    lemma_finished_is_final(ShutdownOutcome::Clean, grace_ms, later);
    lemma_phase_after_concat(ShutdownPhase::Serving, grace_ms, signal + ticks + drained, later);
}

/// A shutdown in which the work in flight does not finish in time is
/// forced: after a signal when the clock shows `signal_ms`, any number of
/// ticks before the deadline, and a tick at the deadline or after it, the
/// process has ended as forced, and no later event changes that, not even
/// the end of the work.
pub proof fn lemma_overdue_drain_is_forced(
    grace_ms: u64,
    signal_ms: u64,
    ticks: Seq<(ShutdownEvent, u64)>,
    timeout_ms: u64,
    later: Seq<(ShutdownEvent, u64)>,
)
    requires
        ticks_before(ticks, deadline_after(signal_ms, grace_ms)),
        timeout_ms >= deadline_after(signal_ms, grace_ms),
    ensures
        phase_after(
            ShutdownPhase::Serving,
            grace_ms,
            seq![(ShutdownEvent::Signal, signal_ms)] + ticks + seq![
                (ShutdownEvent::Tick, timeout_ms),
            ] + later,
        ) == (ShutdownPhase::Finished { outcome: ShutdownOutcome::Forced }),
{
    let deadline_ms = deadline_after(signal_ms, grace_ms);
    let signal = seq![(ShutdownEvent::Signal, signal_ms)];
    let timeout = seq![(ShutdownEvent::Tick, timeout_ms)];
    let draining = ShutdownPhase::Draining { deadline_ms };
    lemma_phase_after_one(ShutdownPhase::Serving, grace_ms, ShutdownEvent::Signal, signal_ms);
    lemma_early_ticks_wait(deadline_ms, grace_ms, ticks);
    lemma_phase_after_concat(ShutdownPhase::Serving, grace_ms, signal, ticks);
    lemma_phase_after_one(draining, grace_ms, ShutdownEvent::Tick, timeout_ms);
    lemma_phase_after_concat(ShutdownPhase::Serving, grace_ms, signal + ticks, timeout);
    lemma_finished_is_final(ShutdownOutcome::Forced, grace_ms, later);
    lemma_phase_after_concat(ShutdownPhase::Serving, grace_ms, signal + ticks + timeout, later);
}

} // verus!
