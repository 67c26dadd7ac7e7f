use vstd::prelude::*;

verus! {

/// The ways an acquisition attempt can fail.
///
/// Every failure surfaces to the caller through the terminal `Failed` state of
/// a pending acquisition; the bridge never retries internally, since the
/// appropriate retry policy depends on request semantics it does not know.
#[derive(Clone, Copy, Debug, PartialEq, Eq, Structural)]
pub enum AcquireError {
    /// The pool itself reported failure: it was exhausted, or its own
    /// bounded wait for a resource ended without one.
    AcquireFailed,
    /// The executor had no capacity to run the blocking work (saturated or
    /// shut down), so the offload was never submitted.
    ExecutorSubmissionFailed,
    /// The offloaded blocking task failed to deliver an outcome: it panicked,
    /// was cancelled, or its channel was dropped before being written.
    ExecutorTaskFailed,
}

} // verus!
