//! A deferred, externally-cancellable unit of work.
//!
//! A [`task::Job`] gates a caller-supplied inner operation behind an absolute
//! deadline and a single-use cancellation signal, deciding each poll in strict
//! priority order: cancellation first, the deadline second, the inner
//! operation third.  A [`signal::Canceller`] is the sending half of that
//! signal; it delivers at most one notification.

pub mod signal;
pub mod task;
