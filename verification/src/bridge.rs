use vstd::prelude::*;

use crate::channel::ChannelModel;
use crate::errors::AcquireError;
use crate::executor::Executor;
use crate::pending::{AdvanceStatus, PendingAcquisition, PendingModel};
use crate::pool::BlockingPool;

verus! {

/// Whether an outcome is one the blocking pool path can produce: a resource,
/// or the pool's own failure — never an executor error.
pub open spec fn is_pool_outcome<R>(outcome: Result<R, AcquireError>) -> bool {
    match outcome {
        Ok(_) => true,
        Err(e) => e == AcquireError::AcquireFailed,
    }
}

/// The acquisition bridge: a pool, an executor strategy, and the preflight
/// switch. `start` produces a per-call [`PendingAcquisition`]; `advance`
/// drives one, first trying the pool's non-blocking path (when preflight is
/// enabled) and otherwise offloading the blocking path to the executor.
pub struct PoolEndpoint<P, E> {
    pool: P,
    executor: E,
    preflight_before_spawn: bool,
}

/// Creates a bridge over the given pool and executor strategy, with the
/// preflight enabled (the default).
pub fn pool_endpoint<P: BlockingPool, E: Executor>(pool: P, executor: E) -> (ep: PoolEndpoint<P, E>)
    ensures
        ep.preflight_on(),
        ep.pool_model() == pool,
        ep.avail() == pool.available(),
        ep.pool_capacity() == pool.capacity(),
        ep.subs() == executor.submissions(),
        ep.accepts() == executor.will_accept(),
{
    PoolEndpoint { pool, executor, preflight_before_spawn: true }
}

impl<P: BlockingPool, E: Executor> PoolEndpoint<P, E> {
    /// Whether the non-blocking preflight runs before an offload.
    pub closed spec fn preflight_on(&self) -> bool {
        self.preflight_before_spawn
    }

    /// The pool's immediately available resources, as the bridge sees them.
    pub closed spec fn avail(&self) -> Seq<P::Resource> {
        self.pool.available()
    }

    /// The executor's submission count, as the bridge sees it.
    pub closed spec fn subs(&self) -> nat {
        self.executor.submissions()
    }

    /// Whether the executor strategy would accept a submission right now.
    pub closed spec fn accepts(&self) -> bool {
        self.executor.will_accept()
    }

    /// The pool itself, as a mathematical value.
    pub closed spec fn pool_model(&self) -> P {
        self.pool
    }

    /// The pool's fixed bound, as the bridge sees it.
    pub closed spec fn pool_capacity(&self) -> nat {
        self.pool.capacity()
    }

    /// Borrows the pool itself, so that resources can be seeded into it or
    /// released back to it around the bridge — as other holders of a shared
    /// pool would do between two advances.
    pub fn pool_mut(&mut self) -> (pool: &mut P)
        ensures
            *pool == old(self).pool_model(),
            (*pool).available() == old(self).avail(),
            (*pool).capacity() == old(self).pool_capacity(),
            final(self).pool_model() == *final(pool),
            final(self).avail() == final(pool).available(),
            final(self).pool_capacity() == final(pool).capacity(),
            final(self).preflight_on() == old(self).preflight_on(),
            final(self).subs() == old(self).subs(),
            final(self).accepts() == old(self).accepts(),
    {
        &mut self.pool
    }

    /// Sets whether to try the pool's non-blocking path before offloading.
    /// A pure builder: it returns the reconfigured bridge rather than
    /// mutating one that concurrent callers could already be using.
    pub fn preflight_before_spawn(self, enabled: bool) -> (ep: Self)
        ensures
            ep.preflight_on() == enabled,
            ep.pool_model() == self.pool_model(),
            ep.avail() == self.avail(),
            ep.pool_capacity() == self.pool_capacity(),
            ep.subs() == self.subs(),
            ep.accepts() == self.accepts(),
    {
        PoolEndpoint { preflight_before_spawn: enabled, ..self }
    }

    /// Replaces the executor strategy. A pure builder, like
    /// [`Self::preflight_before_spawn`].
    pub fn with_executor<E2: Executor>(self, executor: E2) -> (ep: PoolEndpoint<P, E2>)
        ensures
            ep.preflight_on() == self.preflight_on(),
            ep.pool_model() == self.pool_model(),
            ep.avail() == self.avail(),
            ep.pool_capacity() == self.pool_capacity(),
            ep.subs() == executor.submissions(),
            ep.accepts() == executor.will_accept(),
    {
        PoolEndpoint {
            pool: self.pool,
            executor,
            preflight_before_spawn: self.preflight_before_spawn,
        }
    }

    /// Starts one acquisition: allocates its state machine and nothing more.
    /// The pool is not touched and nothing is submitted until the first
    /// advance.
    pub fn start(&self) -> (p: PendingAcquisition<P::Resource>)
        ensures
            p.wf(),
            p@ is NotStarted,
            !p.offloaded(),
    {
        PendingAcquisition::new()
    }

    fn preflight(&mut self) -> (found: Option<P::Resource>)
        ensures
            final(self).preflight_on() == old(self).preflight_on(),
            final(self).pool_capacity() == old(self).pool_capacity(),
            final(self).subs() == old(self).subs(),
            final(self).accepts() == old(self).accepts(),
            !old(self).preflight_on() ==> final(self).pool_model() == old(self).pool_model(),
            !old(self).preflight_on() || old(self).avail().len() == 0
                ==> found is None && final(self).avail() == old(self).avail(),
            old(self).preflight_on() && old(self).avail().len() > 0
                ==> found == Some(old(self).avail().last())
                    && final(self).avail() == old(self).avail().drop_last(),
    {
        if self.preflight_before_spawn {
            self.pool.try_acquire()
        } else {
            None
        }
    }

    /// One advance step, driven by the owning scheduling context.
    ///
    /// From `NotStarted`: with preflight enabled and a resource immediately
    /// available, the acquisition resolves to that resource at once and no
    /// executor submission occurs (the zero-offload path). Otherwise exactly
    /// one submission is attempted — accepted, the acquisition suspends
    /// awaiting the blocking work; refused, it fails with
    /// `ExecutorSubmissionFailed`. With preflight disabled the offload is
    /// thus taken even when a resource sits available.
    ///
    /// From `AwaitingBlockingResult`: polls the channel, touching neither
    /// pool nor executor, and resolves or fails once the outcome is written.
    ///
    /// On a terminal acquisition: reports `AlreadyTerminal`, the distinct
    /// programming-error signal, changing nothing and re-triggering nothing.
    pub fn advance(&mut self, pending: &mut PendingAcquisition<P::Resource>) -> (status:
        AdvanceStatus)
        requires
            old(pending).wf(),
        ensures
            final(pending).wf(),
            final(self).preflight_on() == old(self).preflight_on(),
            final(self).pool_capacity() == old(self).pool_capacity(),
            old(pending).is_terminal_spec()
                ==> status == AdvanceStatus::AlreadyTerminal
                    && final(pending)@ == old(pending)@
                    && final(pending).offloaded() == old(pending).offloaded()
                    && final(self).pool_model() == old(self).pool_model()
                    && final(self).avail() == old(self).avail()
                    && final(self).subs() == old(self).subs()
                    && final(self).accepts() == old(self).accepts(),
            old(pending)@ is NotStarted && old(self).preflight_on() && old(self).avail().len() > 0
                ==> status == AdvanceStatus::Resolved
                    && final(pending)@ == PendingModel::Resolved(old(self).avail().last())
                    && !final(pending).offloaded()
                    && final(self).avail() == old(self).avail().drop_last()
                    && final(self).subs() == old(self).subs()
                    && final(self).accepts() == old(self).accepts(),
            old(pending)@ is NotStarted
                && !(old(self).preflight_on() && old(self).avail().len() > 0)
                ==> final(self).subs() == old(self).subs() + 1
                    && final(pending).offloaded()
                    && final(self).avail() == old(self).avail()
                    && (!old(self).preflight_on()
                        ==> final(self).pool_model() == old(self).pool_model())
                    && (old(self).accepts()
                        ==> status == AdvanceStatus::Suspended
                            && final(pending)@ == PendingModel::AwaitingBlockingResult(
                                ChannelModel::<P::Resource>::Empty,
                            ))
                    && (!old(self).accepts()
                        ==> status == AdvanceStatus::Failed(AcquireError::ExecutorSubmissionFailed)
                            && final(pending)@ == PendingModel::<P::Resource>::Failed(
                                AcquireError::ExecutorSubmissionFailed,
                            )),
            old(pending)@ matches PendingModel::AwaitingBlockingResult(c)
                ==> final(self).pool_model() == old(self).pool_model()
                    && final(self).avail() == old(self).avail()
                    && final(self).subs() == old(self).subs()
                    && final(self).accepts() == old(self).accepts()
                    && final(pending).offloaded() == old(pending).offloaded()
                    && match c {
                        ChannelModel::Empty => status == AdvanceStatus::Suspended
                            && final(pending)@ == old(pending)@,
                        ChannelModel::Filled(outcome) => match outcome {
                            Ok(r) => status == AdvanceStatus::Resolved
                                && final(pending)@ == PendingModel::Resolved(r),
                            Err(e) => status == AdvanceStatus::Failed(e)
                                && final(pending)@ == PendingModel::<P::Resource>::Failed(e),
                        },
                        ChannelModel::Consumed => false,
                    },
    {
        proof {
            pending.lemma_phase_offloaded();
        }
        if pending.is_resolved() || pending.is_failed() {
            return AdvanceStatus::AlreadyTerminal;
        }
        if pending.is_not_started() {
            let found = self.preflight();
            if pending.note_preflight(found) {
                return AdvanceStatus::Resolved;
            }
            let accepted = self.executor.submit();
            pending.note_submission(accepted);
            if accepted {
                AdvanceStatus::Suspended
            } else {
                AdvanceStatus::Failed(AcquireError::ExecutorSubmissionFailed)
            }
        } else {
            pending.poll_outcome()
        }
    }

    /// The blocking unit of work for one suspended acquisition: calls the
    /// pool's blocking path and writes the outcome — the resource, or
    /// `AcquireFailed` when the pool's wait ended without one — into the
    /// acquisition's channel, exactly once. In a real deployment the executor
    /// runs this off the reactor; the inline strategy runs it right here.
    /// Once the offload is committed the blocking path is always taken: no
    /// further non-blocking retry is made, even if a resource has become
    /// available in the meantime.
    pub fn run_blocking(&mut self, pending: &mut PendingAcquisition<P::Resource>)
        requires
            old(pending).wf(),
            old(pending)@ matches PendingModel::AwaitingBlockingResult(c) && c is Empty,
        ensures
            final(pending).wf(),
            final(pending).offloaded() == old(pending).offloaded(),
            final(self).preflight_on() == old(self).preflight_on(),
            final(self).pool_capacity() == old(self).pool_capacity(),
            final(self).subs() == old(self).subs(),
            final(self).accepts() == old(self).accepts(),
            old(self).avail().len() > 0
                ==> final(pending)@ == PendingModel::AwaitingBlockingResult(
                    ChannelModel::Filled(Ok(old(self).avail().last())),
                ) && final(self).avail() == old(self).avail().drop_last(),
            final(pending)@ matches PendingModel::AwaitingBlockingResult(c2)
                && (c2 matches ChannelModel::Filled(outcome) && is_pool_outcome(outcome)),
    {
        let found = self.pool.acquire();
        let outcome = match found {
            Some(r) => Ok(r),
            None => Err(AcquireError::AcquireFailed),
        };
        let _accepted = pending.fulfill(outcome);
    }

    /// Drives one acquisition to completion on the calling context: the
    /// inline strategy's loop. Preflight hit aside, exactly one submission is
    /// attempted; a refused submission is the one source of
    /// `ExecutorSubmissionFailed`, and the pool's blocking path decides
    /// everything else. The caller always gets a terminal outcome — a
    /// resource, `AcquireFailed`, or `ExecutorSubmissionFailed` — never a
    /// hang.
    pub fn acquire_blocking(&mut self) -> (outcome: Result<P::Resource, AcquireError>)
        ensures
            final(self).preflight_on() == old(self).preflight_on(),
            final(self).pool_capacity() == old(self).pool_capacity(),
            old(self).preflight_on() && old(self).avail().len() > 0
                ==> (outcome matches Ok(r) && r == old(self).avail().last())
                    && final(self).avail() == old(self).avail().drop_last()
                    && final(self).subs() == old(self).subs(),
            !(old(self).preflight_on() && old(self).avail().len() > 0)
                ==> final(self).subs() == old(self).subs() + 1
                    && (!old(self).accepts()
                        ==> outcome == Err::<P::Resource, AcquireError>(
                            AcquireError::ExecutorSubmissionFailed,
                        ) && final(self).avail() == old(self).avail())
                    && (old(self).accepts()
                        ==> (old(self).avail().len() > 0
                            ==> (outcome matches Ok(r) && r == old(self).avail().last())
                                && final(self).avail() == old(self).avail().drop_last()) && (
                        outcome matches Err(e) ==> e == AcquireError::AcquireFailed)),
    {
        let mut pending = self.start();
        let status = self.advance(&mut pending);
        match status {
            AdvanceStatus::Suspended => {
                self.run_blocking(&mut pending);
                let _finished = self.advance(&mut pending);
                pending.into_outcome()
            },
            AdvanceStatus::Resolved => pending.into_outcome(),
            AdvanceStatus::Failed(_) => pending.into_outcome(),
            AdvanceStatus::AlreadyTerminal => {
                proof {
                    assert(false);
                }
                vstd::pervasive::unreached()
            },
        }
    }
}

} // verus!
