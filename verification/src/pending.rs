use vstd::prelude::*;

use crate::channel::{ChannelModel, ResultChannel, TryRead};
use crate::errors::AcquireError;

verus! {

/// The abstract state of one in-flight acquisition: not yet started, waiting
/// for offloaded blocking work (with the state of its result channel), or
/// terminal with a resource or an error.
pub enum PendingModel<R> {
    NotStarted,
    AwaitingBlockingResult(ChannelModel<R>),
    Resolved(R),
    Failed(AcquireError),
}

/// What one advance step reported to the driving scheduler.
#[derive(Clone, Copy, Debug, PartialEq, Eq, Structural)]
pub enum AdvanceStatus {
    /// Still awaiting the blocking work; advance again when progress is
    /// possible.
    Suspended,
    /// Terminal: a resource is ready, to be taken with
    /// [`PendingAcquisition::into_outcome`].
    Resolved,
    /// Terminal with the given error.
    Failed(AcquireError),
    /// The acquisition was already terminal before this step: advancing a
    /// terminal acquisition is a programming error, reported distinctly from
    /// pool and executor failures, and nothing is re-triggered by it.
    AlreadyTerminal,
}

enum Phase {
    NotStarted,
    Awaiting,
    Resolved,
    Failed,
}

/// The per-call state machine tracking one acquisition attempt from its
/// creation to its resolution. It transitions forward only: from `NotStarted`
/// either directly to `Resolved` (a preflight hit), or through
/// `AwaitingBlockingResult` once the blocking work has been offloaded, to one
/// of the terminal states. It is exclusively owned by the caller that created
/// it and is discarded once the terminal outcome is observed.
pub struct PendingAcquisition<R> {
    phase: Phase,
    channel: ResultChannel<R>,
    resource: Option<R>,
    error: Option<AcquireError>,
    offloaded: bool,
}

impl<R> View for PendingAcquisition<R> {
    type V = PendingModel<R>;

    closed spec fn view(&self) -> PendingModel<R> {
        match self.phase {
            Phase::NotStarted => PendingModel::NotStarted,
            Phase::Awaiting => PendingModel::AwaitingBlockingResult(self.channel@),
            Phase::Resolved => match self.resource {
                Some(r) => PendingModel::Resolved(r),
                None => arbitrary(),
            },
            Phase::Failed => match self.error {
                Some(e) => PendingModel::Failed(e),
                None => arbitrary(),
            },
        }
    }
}

impl<R> PendingAcquisition<R> {
    /// Whether an executor submission was ever attempted for this
    /// acquisition. It is set by the one offload attempt and never cleared,
    /// so at most one submission is ever made per acquisition.
    pub closed spec fn offloaded(&self) -> bool {
        self.offloaded
    }

    /// Internal coherence: terminal states carry their payload, the waiting
    /// state owns a channel that was not yet read, and an offload was
    /// attempted exactly on the paths that commit to one.
    pub closed spec fn wf(&self) -> bool {
        &&& (self.phase is NotStarted ==> self.resource is None && self.error is None
            && !self.offloaded && self.channel@ is Empty)
        &&& (self.phase is Awaiting ==> self.resource is None && self.error is None
            && self.offloaded && !(self.channel@ is Consumed))
        &&& (self.phase is Resolved ==> self.resource is Some && self.error is None)
        &&& (self.phase is Failed ==> self.error is Some && self.resource is None)
    }

    /// Whether the acquisition reached a terminal state.
    pub open spec fn is_terminal_spec(&self) -> bool {
        self@ is Resolved || self@ is Failed
    }

    /// How the offload attempt relates to the state: before the first
    /// advance none was attempted, and a waiting acquisition has exactly one
    /// behind it.
    pub proof fn lemma_phase_offloaded(&self)
        requires
            self.wf(),
        ensures
            self@ is NotStarted ==> !self.offloaded(),
            self@ is AwaitingBlockingResult ==> self.offloaded(),
    {
    }

    /// A fresh, not-yet-started acquisition.
    pub fn new() -> (p: Self)
        ensures
            p.wf(),
            p@ is NotStarted,
            !p.offloaded(),
    {
        PendingAcquisition {
            phase: Phase::NotStarted,
            channel: ResultChannel::new(),
            resource: None,
            error: None,
            offloaded: false,
        }
    }

    /// Feeds in the preflight result: what a non-blocking attempt on the pool
    /// handed back (`None` also when the preflight was disabled and never
    /// tried). A hit resolves the acquisition immediately, with no offload; a
    /// miss leaves it as it was, ready for the offload decision.
    pub fn note_preflight(&mut self, found: Option<R>) -> (hit: bool)
        requires
            old(self).wf(),
            old(self)@ is NotStarted,
        ensures
            final(self).wf(),
            final(self).offloaded() == old(self).offloaded(),
            match found {
                Some(r) => hit && final(self)@ == PendingModel::Resolved(r),
                None => !hit && final(self)@ == old(self)@,
            },
    {
        match found {
            Some(r) => {
                self.phase = Phase::Resolved;
                self.resource = Some(r);
                true
            },
            None => false,
        }
    }

    /// Feeds in the executor's submission answer. An accepted submission
    /// moves the acquisition into the waiting state with an empty channel; a
    /// refused one fails it with `ExecutorSubmissionFailed`. Either way the
    /// one offload attempt is now spent.
    pub fn note_submission(&mut self, accepted: bool)
        requires
            old(self).wf(),
            old(self)@ is NotStarted,
        ensures
            final(self).wf(),
            final(self).offloaded(),
            accepted ==> final(self)@ == PendingModel::AwaitingBlockingResult(
                ChannelModel::<R>::Empty,
            ),
            !accepted ==> final(self)@ == PendingModel::<R>::Failed(
                AcquireError::ExecutorSubmissionFailed,
            ),
    {
        self.offloaded = true;
        if accepted {
            self.phase = Phase::Awaiting;
        } else {
            self.phase = Phase::Failed;
            self.error = Some(AcquireError::ExecutorSubmissionFailed);
        }
    }

    /// The producer side of the handoff: the blocking work (or the executor
    /// adapter that ran it) delivers its outcome here. The write is accepted
    /// exactly once, while the acquisition awaits it with an empty channel;
    /// anything else rejects the outcome and changes nothing, so a late
    /// delivery into an abandoned or already-fulfilled acquisition is
    /// harmless and simply discarded.
    pub fn fulfill(&mut self, outcome: Result<R, AcquireError>) -> (accepted: bool)
        requires
            old(self).wf(),
        ensures
            final(self).wf(),
            final(self).offloaded() == old(self).offloaded(),
            old(self)@ matches PendingModel::AwaitingBlockingResult(c) && c is Empty ==> accepted
                && final(self)@ == PendingModel::AwaitingBlockingResult(
                ChannelModel::Filled(outcome),
            ),
            !(old(self)@ matches PendingModel::AwaitingBlockingResult(c) && c is Empty) ==> !accepted
                && final(self)@ == old(self)@,
    {
        match self.phase {
            Phase::Awaiting => match self.channel.write(outcome) {
                Ok(_) => true,
                Err(_) => false,
            },
            _ => false,
        }
    }

    /// The consumer side of the handoff: polls the channel once. An unfilled
    /// channel suspends the acquisition; a filled one resolves or fails it,
    /// delivering the outcome exactly once.
    pub fn poll_outcome(&mut self) -> (status: AdvanceStatus)
        requires
            old(self).wf(),
            old(self)@ is AwaitingBlockingResult,
        ensures
            final(self).wf(),
            final(self).offloaded() == old(self).offloaded(),
            old(self)@ matches PendingModel::AwaitingBlockingResult(c) ==> match c {
                ChannelModel::Empty => status == AdvanceStatus::Suspended && final(self)@ == old(
                    self,
                )@,
                ChannelModel::Filled(outcome) => match outcome {
                    Ok(r) => status == AdvanceStatus::Resolved && final(self)@
                        == PendingModel::Resolved(r),
                    Err(e) => status == AdvanceStatus::Failed(e) && final(self)@
                        == PendingModel::<R>::Failed(e),
                },
                ChannelModel::Consumed => false,
            },
    {
        match self.channel.try_read() {
            TryRead::Empty => AdvanceStatus::Suspended,
            TryRead::Value(outcome) => match outcome {
                Ok(r) => {
                    self.phase = Phase::Resolved;
                    self.resource = Some(r);
                    AdvanceStatus::Resolved
                },
                Err(e) => {
                    self.phase = Phase::Failed;
                    self.error = Some(e);
                    AdvanceStatus::Failed(e)
                },
            },
            TryRead::Consumed => {
                proof {
                    assert(false);
                }
                vstd::pervasive::unreached()
            },
        }
    }

    /// The terminal observation: consumes the acquisition and yields the
    /// resource or the error it ended in.
    pub fn into_outcome(self) -> (outcome: Result<R, AcquireError>)
        requires
            self.wf(),
            self.is_terminal_spec(),
        ensures
            self@ matches PendingModel::Resolved(r) ==> (outcome matches Ok(got) && got == r),
            self@ matches PendingModel::Failed(e) ==> (outcome matches Err(got) && got == e),
    {
        match self.phase {
            Phase::Resolved => match self.resource {
                Some(r) => Ok(r),
                None => vstd::pervasive::unreached(),
            },
            Phase::Failed => match self.error {
                Some(e) => Err(e),
                None => vstd::pervasive::unreached(),
            },
            _ => vstd::pervasive::unreached(),
        }
    }

    /// Whether the acquisition was not yet started.
    pub fn is_not_started(&self) -> (b: bool)
        requires
            self.wf(),
        ensures
            b == (self@ is NotStarted),
    {
        match self.phase {
            Phase::NotStarted => true,
            _ => false,
        }
    }

    /// Whether the acquisition awaits offloaded blocking work.
    pub fn is_awaiting(&self) -> (b: bool)
        requires
            self.wf(),
        ensures
            b == (self@ is AwaitingBlockingResult),
    {
        match self.phase {
            Phase::Awaiting => true,
            _ => false,
        }
    }

    /// Whether the acquisition resolved to a resource.
    pub fn is_resolved(&self) -> (b: bool)
        requires
            self.wf(),
        ensures
            b == (self@ is Resolved),
    {
        match self.phase {
            Phase::Resolved => true,
            _ => false,
        }
    }

    /// Whether the acquisition failed.
    pub fn is_failed(&self) -> (b: bool)
        requires
            self.wf(),
        ensures
            b == (self@ is Failed),
    {
        match self.phase {
            Phase::Failed => true,
            _ => false,
        }
    }

    /// Whether an executor submission was attempted for this acquisition.
    pub fn has_offloaded(&self) -> (b: bool)
        ensures
            b == self.offloaded(),
    {
        self.offloaded
    }
}

} // verus!
