//! The single-use cancellation signal: the states its listening half can
//! report, the one error its sending half can report, and the sending half
//! itself.

use vstd::prelude::*;

verus! {

/// The one error a cancellation request can report: the listening half of the
/// channel is gone, usually because the task it belonged to already resolved.
/// This is an expected, recoverable condition, not a fault.
#[derive(Clone, Copy, PartialEq, Eq, Structural, Debug)]
pub enum NotifyError {
    ListenerGone,
}

/// What one non-blocking check of the cancellation listener can observe.
#[derive(Clone, Copy, PartialEq, Eq, Structural, Debug)]
pub enum ListenerPoll {
    /// No notification yet, and the sending half is still alive.
    Pending,
    /// The sending half delivered its single notification.
    Notified,
    /// The sending half was dropped without notifying.
    Abandoned,
}

/// Whether a listener observation demands cancellation.  An explicit
/// notification and an abandoned sender are treated alike: the task cannot
/// tell intent apart and fails safe toward cancellation.
pub open spec fn cancel_requested(l: ListenerPoll) -> bool {
    l is Notified || l is Abandoned
}

/// The listener state read off a raw channel observation: `None` while
/// nothing has arrived, `Some(Ok(_))` once the notification was received,
/// `Some(Err(_))` once the sender is known to be gone.
pub open spec fn spec_classify(raw: Option<Result<(), ()>>) -> ListenerPoll {
    match raw {
        None => ListenerPoll::Pending,
        Some(Ok(_)) => ListenerPoll::Notified,
        Some(Err(_)) => ListenerPoll::Abandoned,
    }
}

/// Folds a raw channel observation into the listener state the task acts on.
pub fn classify_listener(raw: Option<Result<(), ()>>) -> (l: ListenerPoll)
    ensures
        l == spec_classify(raw),
{
    match raw {
        None => ListenerPoll::Pending,
        Some(Ok(())) => ListenerPoll::Notified,
        Some(Err(())) => ListenerPoll::Abandoned,
    }
}

/// The outcome of a cancellation request, read off the raw send result: every
/// channel anomaly is folded into the single recoverable error.
pub open spec fn spec_notify_outcome(sent: Result<(), ()>) -> Result<(), NotifyError> {
    match sent {
        Ok(_) => Ok(()),
        Err(_) => Err(NotifyError::ListenerGone),
    }
}

/// Maps a raw send result to the cancellation request's outcome: a send that
/// could not be delivered means the listener is gone, nothing worse.
pub fn notify_outcome(sent: Result<(), ()>) -> (r: Result<(), NotifyError>)
    ensures
        r == spec_notify_outcome(sent),
{
    match sent {
        Ok(()) => Ok(()),
        Err(()) => Err(NotifyError::ListenerGone),
    }
}

/// The sending half of tokio's one-shot channel, opaque here.
#[verifier::external_type_specification]
#[verifier::external_body]
#[verifier::reject_recursive_types(T)]
pub struct ExSender<T>(tokio::sync::oneshot::Sender<T>);

/// The receiving half of tokio's one-shot channel, opaque here; the driver
/// owns and polls it, and the task only acts on what it reports.
#[verifier::external_type_specification]
#[verifier::external_body]
#[verifier::reject_recursive_types(T)]
pub struct ExReceiver<T>(tokio::sync::oneshot::Receiver<T>);

/// The receiver's error, opaque here; it only means the sender went away.
#[verifier::external_type_specification]
#[verifier::external_body]
pub struct ExRecvError(tokio::sync::oneshot::error::RecvError);

/// Relies on tokio::sync::oneshot::channel: constructs the paired sending and
/// receiving halves of a fresh single-use channel; it always succeeds.
#[verifier::external_body]
fn oneshot_pair() -> (r: (tokio::sync::oneshot::Sender<()>, tokio::sync::oneshot::Receiver<()>)) {
    tokio::sync::oneshot::channel()
}

/// Relies on tokio::sync::oneshot::Sender::send: consuming the sender, it
/// delivers the value and returns `Ok`, or hands the value back as `Err` when
/// the receiving half is gone; it never blocks and never panics.
#[verifier::external_body]
fn send_unit(tx: tokio::sync::oneshot::Sender<()>) -> (r: Result<(), ()>) {
    tx.send(())
}

/// The sending half of a cancellation signal.  Exactly one exists per signal,
/// and the single cancellation request consumes it: at most one notification
/// is ever sent.
pub struct Canceller {
    tx: tokio::sync::oneshot::Sender<()>,
}

impl Canceller {
    /// Constructs a fresh single-use cancellation signal and hands out its
    /// two halves: the `Canceller`, and the listening half a task is built
    /// with.
    pub fn new() -> (Canceller, tokio::sync::oneshot::Receiver<()>) {
        let (tx, rx) = oneshot_pair();
        (Canceller { tx }, rx)
    }

    /// Consumes the canceller and delivers the single cancellation notice.
    /// The only error is `ListenerGone` — the listening half no longer
    /// exists, usually because the task already resolved; callers should
    /// treat it as a no-op, not a fault.
    pub fn cancel(self) -> (r: Result<(), NotifyError>)
        ensures
            r == Ok::<(), NotifyError>(()) || r == Err::<(), NotifyError>(
                NotifyError::ListenerGone,
            ),
    {
        notify_outcome(send_unit(self.tx))
    }
}

} // verus!
