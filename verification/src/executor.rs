use vstd::prelude::*;

verus! {

/// A strategy for running blocking work off the caller's scheduling context.
/// The bridge asks it to accept one unit of blocking work per acquisition;
/// the strategy answers whether it has capacity, and `submissions()` counts
/// every such attempt, so the bridge's at-most-once-offload guarantee can be
/// stated against it. A refusal (saturation or shutdown) is an answer, never
/// a panic or a silently dropped request.
pub trait Executor: Sized {
    /// How many submission attempts this executor has seen.
    spec fn submissions(&self) -> nat;

    /// Whether the strategy would accept a submission right now.
    spec fn will_accept(&self) -> bool;

    /// Asks the strategy to accept one unit of blocking work. `true` commits
    /// the strategy to running it; `false` reports saturation or shutdown.
    fn submit(&mut self) -> (accepted: bool)
        ensures
            final(self).submissions() == old(self).submissions() + 1,
            accepted == old(self).will_accept(),
    ;
}

/// The inline strategy: the blocking work runs on the caller's own context,
/// right where it was submitted. The simplest strategy, and it never refuses;
/// it reintroduces blocking, so it belongs only where the calling context is
/// a dedicated worker, not a shared reactor.
pub struct InlineExecutor {
    submitted: Ghost<nat>,
}

impl InlineExecutor {
    /// An inline strategy that has seen no submissions.
    pub fn new() -> (e: Self)
        ensures
            e.submissions() == 0,
            e.will_accept(),
    {
        InlineExecutor { submitted: Ghost(0) }
    }
}

impl Executor for InlineExecutor {
    closed spec fn submissions(&self) -> nat {
        self.submitted@
    }

    closed spec fn will_accept(&self) -> bool {
        true
    }

    fn submit(&mut self) -> (accepted: bool)
        ensures
            accepted,
            final(self).will_accept(),
    {
        self.submitted = Ghost(self.submitted@ + 1);
        true
    }
}

/// The dedicated-capacity strategy: models a worker pool with a bounded
/// number of slots for blocking work. A submission takes a slot while the
/// work is in flight and is refused when every slot is taken, which is how
/// executor saturation reaches the bridge.
pub struct BoundedExecutor {
    capacity: usize,
    active: usize,
    submitted: Ghost<nat>,
}

impl BoundedExecutor {
    /// The number of slots this executor was created with.
    pub closed spec fn cap(&self) -> nat {
        self.capacity as nat
    }

    /// How many accepted units of blocking work are in flight.
    pub closed spec fn in_flight(&self) -> nat {
        self.active as nat
    }

    /// An idle executor with `capacity` slots for blocking work.
    pub fn new(capacity: usize) -> (e: Self)
        ensures
            e.cap() == capacity,
            e.in_flight() == 0,
            e.submissions() == 0,
            e.will_accept() == (capacity > 0),
    {
        BoundedExecutor { capacity, active: 0, submitted: Ghost(0) }
    }

    /// An accepted unit of blocking work has finished; its slot frees up.
    pub fn complete(&mut self)
        requires
            old(self).in_flight() > 0,
        ensures
            final(self).cap() == old(self).cap(),
            final(self).in_flight() == old(self).in_flight() - 1,
            final(self).submissions() == old(self).submissions(),
            final(self).will_accept() == (final(self).in_flight() < final(self).cap()),
    {
        self.active = self.active - 1;
    }

    /// How many accepted units of blocking work are in flight.
    pub fn active_count(&self) -> (n: usize)
        ensures
            n == self.in_flight(),
    {
        self.active
    }
}

impl Executor for BoundedExecutor {
    closed spec fn submissions(&self) -> nat {
        self.submitted@
    }

    /// A submission is accepted exactly while a slot is free.
    closed spec fn will_accept(&self) -> bool {
        self.active < self.capacity
    }

    fn submit(&mut self) -> (accepted: bool)
        ensures
            accepted == (old(self).in_flight() < old(self).cap()),
            final(self).cap() == old(self).cap(),
            accepted ==> final(self).in_flight() == old(self).in_flight() + 1,
            !accepted ==> final(self).in_flight() == old(self).in_flight(),
            final(self).will_accept() == (final(self).in_flight() < final(self).cap()),
    {
        self.submitted = Ghost(self.submitted@ + 1);
        if self.active < self.capacity {
            self.active = self.active + 1;
            true
        } else {
            false
        }
    }
}

} // verus!
