use vstd::prelude::*;

use crate::errors::AcquireError;

verus! {

/// The abstract state of a [`ResultChannel`]: nothing written yet, an outcome
/// written and still waiting, or the outcome already handed to the consumer.
pub enum ChannelModel<R> {
    Empty,
    Filled(Result<R, AcquireError>),
    Consumed,
}

/// The observable state of a [`ResultChannel`], without its contents.
#[derive(Clone, Copy, Debug, PartialEq, Eq, Structural)]
pub enum ChannelPhase {
    Empty,
    Filled,
    Consumed,
}

/// What a single [`ResultChannel::try_read`] call reported.
pub enum TryRead<R> {
    /// Nothing written yet; the consumer should try again later.
    Empty,
    /// The written outcome, delivered now and never again.
    Value(Result<R, AcquireError>),
    /// The outcome was already delivered by an earlier read.
    Consumed,
}

/// A single-use, single-producer single-consumer handoff: the producer writes
/// the outcome of blocking work at most once, and the consumer reads it at
/// most once, without ever blocking.
pub struct ResultChannel<R> {
    slot: Option<Result<R, AcquireError>>,
    consumed: bool,
}

impl<R> View for ResultChannel<R> {
    type V = ChannelModel<R>;

    closed spec fn view(&self) -> ChannelModel<R> {
        if self.consumed {
            ChannelModel::Consumed
        } else {
            match self.slot {
                Some(outcome) => ChannelModel::Filled(outcome),
                None => ChannelModel::Empty,
            }
        }
    }
}

/// The state a single read leaves the channel in: a waiting outcome is
/// consumed, any other state is left as it is.
pub open spec fn read_step<R>(m: ChannelModel<R>) -> ChannelModel<R> {
    match m {
        ChannelModel::Empty => ChannelModel::Empty,
        ChannelModel::Filled(_) => ChannelModel::Consumed,
        ChannelModel::Consumed => ChannelModel::Consumed,
    }
}

/// Whether a read in state `m` delivers an outcome.
pub open spec fn read_delivers<R>(m: ChannelModel<R>) -> bool {
    m is Filled
}

/// How many of `n` successive reads starting in state `m` deliver an outcome.
pub open spec fn deliveries<R>(m: ChannelModel<R>, n: nat) -> nat
    decreases n,
{
    if n == 0 {
        0
    } else {
        (if read_delivers(m) {
            1nat
        } else {
            0nat
        }) + deliveries(read_step(m), (n - 1) as nat)
    }
}

/// Exactly-once delivery: from a filled channel, any number of reads deliver
/// the written outcome exactly once; from any other state, reads deliver
/// nothing at all.
pub proof fn lemma_exactly_once_delivery<R>(m: ChannelModel<R>, n: nat)
    ensures
        m is Filled && n >= 1 ==> deliveries(m, n) == 1,
        !(m is Filled) ==> deliveries(m, n) == 0,
    decreases n,
{
    if n > 0 {
        lemma_exactly_once_delivery::<R>(read_step(m), (n - 1) as nat);
    }
}

impl<R> ResultChannel<R> {
    /// Creates a channel with nothing written.
    pub fn new() -> (c: Self)
        ensures
            c@ is Empty,
    {
        ResultChannel { slot: None, consumed: false }
    }

    /// Writes the outcome of the blocking work. This succeeds exactly when
    /// nothing was written before; a second write is rejected and hands the
    /// outcome back, leaving the channel as it was. Whether the consumer ever
    /// reads is irrelevant to the producer: a write into a channel nobody
    /// reads still succeeds, and the outcome is silently discarded.
    pub fn write(&mut self, outcome: Result<R, AcquireError>) -> (r: Result<(), Result<R, AcquireError>>)
        ensures
            old(self)@ is Empty ==> r is Ok && final(self)@ == ChannelModel::Filled(outcome),
            !(old(self)@ is Empty) ==> (r matches Err(back) && back == outcome) && final(self)@ == old(self)@,
    {
        if self.consumed || self.slot.is_some() {
            Err(outcome)
        } else {
            self.slot = Some(outcome);
            Ok(())
        }
    }

    /// Takes the outcome if one is waiting. Never blocks: before a write it
    /// reports `Empty`, the first read after a write delivers the outcome and
    /// consumes the channel, and every later read reports `Consumed`.
    pub fn try_read(&mut self) -> (r: TryRead<R>)
        ensures
            final(self)@ == read_step(old(self)@),
            (r is Value) == read_delivers(old(self)@),
            old(self)@ is Empty ==> r is Empty,
            old(self)@ matches ChannelModel::Filled(outcome) ==> (r matches TryRead::Value(v) && v == outcome),
            old(self)@ is Consumed ==> r is Consumed,
    {
        if self.consumed {
            TryRead::Consumed
        } else {
            match self.slot.take() {
                None => TryRead::Empty,
                Some(outcome) => {
                    self.consumed = true;
                    TryRead::Value(outcome)
                },
            }
        }
    }

    /// Reports the observable state without consuming anything.
    pub fn phase(&self) -> (p: ChannelPhase)
        ensures
            p == ChannelPhase::Empty <==> self@ is Empty,
            p == ChannelPhase::Filled <==> self@ is Filled,
            p == ChannelPhase::Consumed <==> self@ is Consumed,
    {
        if self.consumed {
            ChannelPhase::Consumed
        } else if self.slot.is_some() {
            ChannelPhase::Filled
        } else {
            ChannelPhase::Empty
        }
    }
}

} // verus!
