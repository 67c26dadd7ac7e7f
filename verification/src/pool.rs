use vstd::prelude::*;

verus! {

/// A bounded, blocking-style resource pool, as the bridge sees it. The pool
/// is an external collaborator: its sizing and eviction policy are its own
/// business, and the bridge never reaches into it beyond these two
/// operations.
///
/// `available()` models the resources a non-blocking attempt can hand out
/// right now, newest first from the end. An adapter around a real pool
/// provides the same two operations; the bridge's guarantees about its own
/// decisions hold whatever such a pool answers.
pub trait BlockingPool: Sized {
    type Resource;

    /// The resources immediately available, handed out from the end.
    spec fn available(&self) -> Seq<Self::Resource>;

    /// The pool's fixed bound: how many resources it can hold at once. It is
    /// part of the pool's configuration, so no acquisition changes it.
    spec fn capacity(&self) -> nat;

    /// The non-blocking attempt: never waits. It hands out an immediately
    /// available resource if there is one and otherwise reports `None`,
    /// leaving the pool as it was.
    fn try_acquire(&mut self) -> (found: Option<Self::Resource>)
        ensures
            final(self).capacity() == old(self).capacity(),
            old(self).available().len() == 0 ==> found is None && final(self).available() == old(
                self,
            ).available(),
            old(self).available().len() > 0 ==> found == Some(old(self).available().last())
                && final(self).available() == old(self).available().drop_last(),
    ;

    /// The blocking acquisition: may keep its execution context waiting, up
    /// to the pool's own policy. With a resource immediately available it
    /// hands that one out; with none, the outcome of the wait is the pool's
    /// policy's own, and nothing is promised of it.
    fn acquire(&mut self) -> (found: Option<Self::Resource>)
        ensures
            final(self).capacity() == old(self).capacity(),
            old(self).available().len() > 0 ==> found == Some(old(self).available().last())
                && final(self).available() == old(self).available().drop_last(),
    ;
}

/// An in-memory pool with a fixed capacity: resources seeded or released into
/// it are handed back out, newest first. It stands in for a real pool in
/// tests and in deployments whose resources are plain values; since nothing
/// can release a resource into it while `acquire` would wait, its blocking
/// path reports failure instead of waiting forever.
pub struct FixedPool<R> {
    slots: Vec<R>,
    capacity: usize,
}

impl<R> FixedPool<R> {
    /// An empty pool that will hold at most `capacity` resources.
    pub fn new(capacity: usize) -> (p: Self)
        ensures
            p.available() == Seq::<R>::empty(),
            p.capacity() == capacity,
    {
        FixedPool { slots: Vec::new(), capacity }
    }

    /// Returns a resource to the pool (or seeds a fresh one). Accepted while
    /// the pool is under its capacity; at capacity the resource is rejected
    /// and handed back.
    pub fn release(&mut self, resource: R) -> (rejected: Option<R>)
        ensures
            final(self).capacity() == old(self).capacity(),
            old(self).available().len() < old(self).capacity() ==> rejected is None
                && final(self).available() == old(self).available().push(resource),
            old(self).available().len() >= old(self).capacity() ==> (rejected matches Some(back)
                && back == resource) && final(self).available() == old(self).available(),
    {
        if self.slots.len() < self.capacity {
            self.slots.push(resource);
            None
        } else {
            Some(resource)
        }
    }

    /// How many resources are immediately available.
    pub fn available_count(&self) -> (n: usize)
        ensures
            n == self.available().len(),
    {
        self.slots.len()
    }
}

impl<R> BlockingPool for FixedPool<R> {
    type Resource = R;

    closed spec fn available(&self) -> Seq<R> {
        self.slots@
    }

    closed spec fn capacity(&self) -> nat {
        self.capacity as nat
    }

    fn try_acquire(&mut self) -> (found: Option<R>) {
        self.slots.pop()
    }

    /// With nothing available, no other context can release into this
    /// in-memory pool while it would wait, so waiting is pointless: the
    /// blocking path reports failure at once.
    fn acquire(&mut self) -> (found: Option<R>)
        ensures
            old(self).available().len() == 0 ==> found is None && final(self).available() == old(
                self,
            ).available(),
    {
        self.slots.pop()
    }
}

} // verus!
