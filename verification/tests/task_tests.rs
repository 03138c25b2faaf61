use cancellable_job::signal::{Canceller, ListenerPoll};
use cancellable_job::task::{InnerPoll, Job, PollDirective, ResolutionKind, TaskOutcome};

#[test]
fn new_job_is_unresolved() {
    let j = Job::new(5000);
    assert_eq!(j.deadline(), 5000);
    assert!(!j.is_done());
    assert_eq!(j.resolution_kind(), None);
}

#[test]
fn deadline_gates_even_a_ready_inner() {
    // An inner operation that would complete instantly once started still
    // may not run before the deadline: every earlier poll says Wait.
    let mut j = Job::new(5000);
    assert_eq!(j.poll_gate(0, ListenerPoll::Pending), PollDirective::Wait);
    assert_eq!(j.poll_gate(2500, ListenerPoll::Pending), PollDirective::Wait);
    assert_eq!(j.poll_gate(4999, ListenerPoll::Pending), PollDirective::Wait);
    assert!(!j.is_done());
}

#[test]
fn cancellation_beats_completion_on_the_same_poll() {
    // Deadline long passed and the inner operation ready, yet a notification
    // observed on the same poll still cancels.
    let mut j = Job::new(5000);
    assert_eq!(j.poll_gate(9000, ListenerPoll::Notified), PollDirective::Cancel);
    assert_eq!(j.resolution_kind(), Some(ResolutionKind::Cancelled));
}

#[test]
fn abandoned_sender_cancels_like_a_notification() {
    let mut j = Job::new(5000);
    assert_eq!(j.poll_gate(9000, ListenerPoll::Abandoned), PollDirective::Cancel);
    assert_eq!(j.resolution_kind(), Some(ResolutionKind::Cancelled));
}

#[test]
fn early_notification_cancels_before_the_deadline() {
    // A notification strictly before the deadline resolves the task then and
    // there; the deadline that would pass later changes nothing.
    let mut j = Job::new(5000);
    assert_eq!(j.poll_gate(1000, ListenerPoll::Notified), PollDirective::Cancel);
    assert_eq!(j.resolution_kind(), Some(ResolutionKind::Cancelled));
    assert_eq!(
        j.poll_gate(9000, ListenerPoll::Pending),
        PollDirective::Done(ResolutionKind::Cancelled)
    );
    assert_eq!(j.resolution_kind(), Some(ResolutionKind::Cancelled));
}

#[test]
fn resolution_is_single_and_stable() {
    // Once resolved, further polling repeats the recorded outcome and never
    // re-emits a different one, whatever the later polls observe.
    let mut j = Job::new(100);
    assert_eq!(j.poll_gate(100, ListenerPoll::Pending), PollDirective::RunInner);
    assert_eq!(
        j.finish_inner(InnerPoll::Ready(7u64)),
        Some(TaskOutcome::Completed(7))
    );
    assert_eq!(j.resolution_kind(), Some(ResolutionKind::Completed));
    assert_eq!(
        j.poll_gate(200, ListenerPoll::Notified),
        PollDirective::Done(ResolutionKind::Completed)
    );
    assert_eq!(
        j.poll_gate(300, ListenerPoll::Abandoned),
        PollDirective::Done(ResolutionKind::Completed)
    );
    assert_eq!(j.resolution_kind(), Some(ResolutionKind::Completed));
}

#[test]
fn pending_inner_keeps_the_task_pending() {
    let mut j = Job::new(100);
    assert_eq!(j.poll_gate(150, ListenerPoll::Pending), PollDirective::RunInner);
    assert_eq!(j.finish_inner::<u64>(InnerPoll::Pending), None);
    assert!(!j.is_done());
    assert_eq!(j.poll_gate(160, ListenerPoll::Pending), PollDirective::RunInner);
    assert_eq!(
        j.finish_inner(InnerPoll::Ready(1u64)),
        Some(TaskOutcome::Completed(1))
    );
}

#[test]
fn scenario_no_cancellation_completes_at_deadline() {
    // Deadline five seconds ahead, never cancelled: the task waits out the
    // deadline, then completes — and not a poll earlier.
    let (canceller, mut rx) = Canceller::new();
    let mut j = Job::new(5000);
    for now in [0u64, 1500, 3000, 4999] {
        let raw = match rx.try_recv() {
            Ok(()) => Some(Ok(())),
            Err(tokio::sync::oneshot::error::TryRecvError::Closed) => Some(Err(())),
            Err(tokio::sync::oneshot::error::TryRecvError::Empty) => None,
        };
        let listener = cancellable_job::signal::classify_listener(raw);
        assert_eq!(j.poll_gate(now, listener), PollDirective::Wait);
    }
    assert!(!j.is_done());
    assert_eq!(j.poll_gate(5000, ListenerPoll::Pending), PollDirective::RunInner);
    assert_eq!(
        j.finish_inner(InnerPoll::Ready("done")),
        Some(TaskOutcome::Completed("done"))
    );
    assert_eq!(j.resolution_kind(), Some(ResolutionKind::Completed));
    drop(canceller);
}

#[test]
fn scenario_cancelled_three_seconds_in() {
    // Deadline five seconds ahead, notified at three: the task resolves to
    // Cancelled at the next poll, well before the deadline.
    let (canceller, mut rx) = Canceller::new();
    let mut j = Job::new(5000);
    assert_eq!(j.poll_gate(1000, ListenerPoll::Pending), PollDirective::Wait);
    assert_eq!(canceller.cancel(), Ok(()));
    let raw = match rx.try_recv() {
        Ok(()) => Some(Ok(())),
        Err(tokio::sync::oneshot::error::TryRecvError::Closed) => Some(Err(())),
        Err(tokio::sync::oneshot::error::TryRecvError::Empty) => None,
    };
    let listener = cancellable_job::signal::classify_listener(raw);
    assert_eq!(listener, ListenerPoll::Notified);
    assert_eq!(j.poll_gate(3000, listener), PollDirective::Cancel);
    assert_eq!(j.resolution_kind(), Some(ResolutionKind::Cancelled));
}

#[test]
fn scenario_late_notice_finds_the_listener_gone() {
    // Deadline five seconds ahead, no notification by then: the poll at the
    // deadline completes the task.  The notice a second later finds the
    // listening half gone and is a harmless no-op.
    let (canceller, rx) = Canceller::new();
    let mut j = Job::new(5000);
    assert_eq!(j.poll_gate(5000, ListenerPoll::Pending), PollDirective::RunInner);
    assert_eq!(
        j.finish_inner(InnerPoll::Ready(42u64)),
        Some(TaskOutcome::Completed(42))
    );
    // The resolved task's listener is dropped with it.
    drop(rx);
    assert_eq!(
        canceller.cancel(),
        Err(cancellable_job::signal::NotifyError::ListenerGone)
    );
    assert_eq!(j.resolution_kind(), Some(ResolutionKind::Completed));
}
