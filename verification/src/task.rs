//! The deferred, cancellable task: a state machine polled by an external
//! driver, resolving exactly once to completion or cancellation.
//!
//! Each poll is decided in strict priority order: the cancellation listener
//! first, the deadline second, the inner operation third.  The driver reports
//! what it observed of the listener and the clock; when — and only when — the
//! task directs it to, it advances the inner operation and reports what that
//! yielded.

use vstd::prelude::*;

verus! {

use crate::signal::ListenerPoll;
use crate::signal::cancel_requested;

/// The terminal outcome of a task: the inner operation's value, or
/// cancellation — never both.
#[derive(PartialEq, Eq, Debug)]
pub enum TaskOutcome<T> {
    Completed(T),
    Cancelled,
}

/// The tag of a resolution, recorded so that a resolved task keeps reporting
/// the same outcome and never re-emits a different one.
#[derive(Clone, Copy, PartialEq, Eq, Structural, Debug)]
pub enum ResolutionKind {
    Completed,
    Cancelled,
}

/// What one non-blocking advance of the inner operation yielded.
#[derive(PartialEq, Eq, Debug)]
pub enum InnerPoll<T> {
    Pending,
    Ready(T),
}

/// What the driver must do next, decided by one poll of the task.
#[derive(Clone, Copy, PartialEq, Eq, Structural, Debug)]
pub enum PollDirective {
    /// A cancellation request was observed: the task is now resolved to
    /// `Cancelled`.
    Cancel,
    /// The deadline has not been reached: stay pending and try again later.
    Wait,
    /// The deadline has passed and no cancellation was observed: advance the
    /// inner operation and report the step to `finish_inner`.
    RunInner,
    /// The task had already resolved: nothing changed, and the recorded
    /// outcome is repeated.
    Done(ResolutionKind),
}

/// The strict-priority decision of one poll of a pending task: a cancellation
/// request wins outright; otherwise a deadline still ahead keeps the task
/// waiting; only then may the inner operation advance.
pub open spec fn spec_directive(deadline: u64, now: u64, listener: ListenerPoll) -> PollDirective {
    if cancel_requested(listener) {
        PollDirective::Cancel
    } else if now < deadline {
        PollDirective::Wait
    } else {
        PollDirective::RunInner
    }
}

/// How one guarding poll changes the resolution: a recorded resolution is
/// kept as it is, and an unresolved task resolves exactly when a cancellation
/// request is observed.  Completion is never reached this way: it takes a
/// step of the inner operation, and such a step must first be cleared.
pub open spec fn spec_gate_resolution(
    res: Option<ResolutionKind>,
    listener: ListenerPoll,
) -> Option<ResolutionKind> {
    match res {
        Some(k) => Some(k),
        None => if cancel_requested(listener) {
            Some(ResolutionKind::Cancelled)
        } else {
            None
        },
    }
}

/// The resolution after a whole run of guarding polls, each observing the
/// listener state of its moment.
pub open spec fn resolution_after_gates(
    res: Option<ResolutionKind>,
    observations: Seq<ListenerPoll>,
) -> Option<ResolutionKind>
    decreases observations.len(),
{
    if observations.len() == 0 {
        res
    } else {
        resolution_after_gates(
            spec_gate_resolution(res, observations[0]),
            observations.drop_first(),
        )
    }
}

/// A deferred, cancellable task.  It holds the absolute deadline before which
/// the inner operation must not run, the resolution once one is reached, and
/// whether the latest poll cleared the inner operation to advance.
pub struct Job {
    deadline: u64,
    resolved: Option<ResolutionKind>,
    inner_armed: bool,
}

impl Job {
    /// The absolute instant before which the inner operation must not run.
    pub closed spec fn spec_deadline(&self) -> u64 {
        self.deadline
    }

    /// The recorded resolution, if the task has resolved.
    pub closed spec fn resolution(&self) -> Option<ResolutionKind> {
        self.resolved
    }

    pub open spec fn is_resolved(&self) -> bool {
        self.resolution() is Some
    }

    /// Whether the latest poll cleared the inner operation to advance: true
    /// only when it saw the deadline passed and no cancellation request.
    pub closed spec fn inner_allowed(&self) -> bool {
        self.inner_armed
    }

    /// A fresh task: unresolved, its inner operation not yet cleared to run.
    pub fn new(deadline: u64) -> (j: Job)
        ensures
            j.spec_deadline() == deadline,
            !j.is_resolved(),
            !j.inner_allowed(),
    {
        Job { deadline, resolved: None, inner_armed: false }
    }

    /// One guarding poll of the task.  The driver reports the current instant
    /// and what it observed of the cancellation listener; the directive says
    /// what must happen next, under the strict priority order.
    pub fn poll_gate(&mut self, now: u64, listener: ListenerPoll) -> (d: PollDirective)
        ensures
            final(self).spec_deadline() == old(self).spec_deadline(),
            final(self).resolution() == spec_gate_resolution(old(self).resolution(), listener),
            (match old(self).resolution() {
                // Once resolved, polling changes nothing and repeats the
                // recorded outcome.
                Some(k) => *final(self) == *old(self) && d == PollDirective::Done(k),
                None => {
                    &&& d == spec_directive(old(self).spec_deadline(), now, listener)
                    &&& final(self).inner_allowed() == (d == PollDirective::RunInner)
                },
            }),
    {
        match self.resolved {
            Some(k) => PollDirective::Done(k),
            None => {
                match listener {
                    ListenerPoll::Notified | ListenerPoll::Abandoned => {
                        self.resolved = Some(ResolutionKind::Cancelled);
                        self.inner_armed = false;
                        PollDirective::Cancel
                    },
                    ListenerPoll::Pending => {
                        if now < self.deadline {
                            self.inner_armed = false;
                            PollDirective::Wait
                        } else {
                            self.inner_armed = true;
                            PollDirective::RunInner
                        }
                    },
                }
            },
        }
    }

    /// Reports what one advance of the inner operation yielded.  The driver
    /// may call this only right after a poll whose directive was `RunInner`:
    /// the inner operation never progresses before its scheduled start.
    pub fn finish_inner<T>(&mut self, step: InnerPoll<T>) -> (r: Option<TaskOutcome<T>>)
        requires
            !old(self).is_resolved(),
            old(self).inner_allowed(),
        ensures
            final(self).spec_deadline() == old(self).spec_deadline(),
            (match step {
                InnerPoll::Ready(v) => {
                    &&& r == Some(TaskOutcome::Completed(v))
                    &&& final(self).resolution() == Some(ResolutionKind::Completed)
                },
                InnerPoll::Pending => {
                    &&& r is None
                    &&& *final(self) == *old(self)
                },
            }),
    {
        match step {
            InnerPoll::Ready(v) => {
                self.resolved = Some(ResolutionKind::Completed);
                self.inner_armed = false;
                Some(TaskOutcome::Completed(v))
            },
            InnerPoll::Pending => None,
        }
    }

    /// Reads the deadline.
    pub fn deadline(&self) -> (d: u64)
        ensures
            d == self.spec_deadline(),
    {
        self.deadline
    }

    /// The recorded resolution, if any.
    pub fn resolution_kind(&self) -> (r: Option<ResolutionKind>)
        ensures
            r == self.resolution(),
    {
        self.resolved
    }

    /// Whether the task has resolved.
    pub fn is_done(&self) -> (b: bool)
        ensures
            b == self.is_resolved(),
    {
        self.resolved.is_some()
    }
}

/// Deadline gating: before the deadline, a poll never clears the inner
/// operation to advance — whatever the listener reports — so the task cannot
/// complete before its scheduled start.
pub proof fn lemma_deadline_gates_inner(deadline: u64, now: u64, listener: ListenerPoll)
    requires
        now < deadline,
    ensures
        spec_directive(deadline, now, listener) != PollDirective::RunInner,
{
}

/// Cancellation precedence: a poll that observes a cancellation request
/// resolves to cancellation, even when the deadline has passed and the inner
/// operation would have been ready on the very same poll.
pub proof fn lemma_cancellation_precedence(deadline: u64, now: u64, listener: ListenerPoll)
    requires
        cancel_requested(listener),
    ensures
        spec_directive(deadline, now, listener) == PollDirective::Cancel,
{
}

/// An early notification is never outranked: a cancellation observed strictly
/// before the deadline cancels the task; the deadline that later passes does
/// not turn it into a completion.
pub proof fn lemma_early_notice_cancels(deadline: u64, now: u64, listener: ListenerPoll)
    requires
        cancel_requested(listener),
        now < deadline,
    ensures
        spec_directive(deadline, now, listener) == PollDirective::Cancel,
{
}

/// Single resolution: once a task has resolved, no run of further guarding
/// polls — however long, and whatever they observe — changes the recorded
/// outcome.
pub proof fn lemma_resolution_stable(k: ResolutionKind, observations: Seq<ListenerPoll>)
    ensures
        resolution_after_gates(Some(k), observations) == Some(k),
    decreases observations.len(),
{
    if observations.len() > 0 {
        lemma_resolution_stable(k, observations.drop_first());
    }
}

/// Guarding polls alone never complete a task: a run of them in which no
/// cancellation is observed leaves an unresolved task unresolved.  Completion
/// can only enter through a step of the inner operation, and such a step is
/// cleared no earlier than the deadline.
pub proof fn lemma_gates_alone_never_complete(observations: Seq<ListenerPoll>)
    requires
        forall|i: int| 0 <= i < observations.len() ==> !cancel_requested(#[trigger] observations[i]),
    ensures
        resolution_after_gates(None, observations) is None,
    decreases observations.len(),
{
    if observations.len() > 0 {
        assert(!cancel_requested(observations[0]));
        assert forall|i: int|
            0 <= i < observations.drop_first().len() implies !cancel_requested(
            #[trigger] observations.drop_first()[i],
        ) by {
            assert(observations.drop_first()[i] == observations[i + 1]);
        }
        lemma_gates_alone_never_complete(observations.drop_first());
    }
}

/// Cancellation wins over any later history: if some poll of a run observes a
/// cancellation request while the task is unresolved, the run resolves the
/// task to `Cancelled`, whatever every other poll observes.
pub proof fn lemma_cancellation_resolves_run(observations: Seq<ListenerPoll>)
    requires
        exists|i: int| 0 <= i < observations.len() && cancel_requested(#[trigger] observations[i]),
    ensures
        resolution_after_gates(None, observations) == Some(ResolutionKind::Cancelled),
    decreases observations.len(),
{
    let i: int = choose|i: int| 0 <= i < observations.len() && cancel_requested(
        #[trigger] observations[i],
    );
    if cancel_requested(observations[0]) {
        lemma_resolution_stable(ResolutionKind::Cancelled, observations.drop_first());
    } else {
        assert(observations.drop_first()[i - 1] == observations[i]);
        lemma_cancellation_resolves_run(observations.drop_first());
    }
}

} // verus!
