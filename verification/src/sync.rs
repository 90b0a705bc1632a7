//! The semaphore on which the scheduler blocks processes: a signed counter
//! and the set of processes that wait for it.
//!
//! A semaphore never blocks by itself. A process that fails to acquire it
//! enters the wait queue and yields; a process that signals looks in the
//! queue for someone to wake.

use std::collections::BTreeSet;
use vstd::prelude::*;

verus! {

/// The identity of a process.
pub type Name = u64;

/// The key under which a semaphore is registered.
pub type SemaphoreId = i64;

/// A counting semaphore with its wait queue.
///
/// The methods that change it take `&mut self`: whoever shares a semaphore
/// between processors serialises the calls. [`wait`](Semaphore::wait) tests
/// the count and then takes one from it; done as one call nothing comes
/// between the two. A caller that makes the two steps apart, with
/// [`current_count`](Semaphore::current_count) and
/// [`decrement`](Semaphore::decrement), leaves a window between them, in
/// which another caller may pass the same test: the count then falls below
/// zero.
pub struct Semaphore {
    count: i32,
    queue: BTreeSet<Name>,
}

impl Semaphore {
    /// The counter. A value below zero stands for outstanding waiters.
    pub closed spec fn count(&self) -> int {
        self.count as int
    }

    /// The processes in the wait queue.
    pub closed spec fn waiting(&self) -> Set<Name> {
        self.queue@
    }

    /// A semaphore with the given count and nobody waiting.
    pub fn new(count: i32) -> (semaphore: Semaphore)
        ensures
            semaphore.count() == count,
            semaphore.waiting() == Set::<Name>::empty(),
    {
        Semaphore { count, queue: BTreeSet::new() }
    }

    /// The current count.
    pub fn current_count(&self) -> (count: i32)
        ensures
            count == self.count(),
    {
        self.count
    }

    /// Whether `name` is in the wait queue.
    pub fn is_waiting(&self, name: Name) -> (waiting: bool)
        ensures
            waiting == self.waiting().contains(name),
    {
        self.queue.contains(&name)
    }

    /// Takes one from the count, whatever it is, wrapping round at
    /// `i32::MIN`, and returns the count as it was before.
    pub fn decrement(&mut self) -> (previous: i32)
        ensures
            previous == old(self).count(),
            final(self).count() == if old(self).count() == i32::MIN {
                i32::MAX as int
            } else {
                old(self).count() - 1
            },
            final(self).waiting() == old(self).waiting(),
    {
        let previous: i32 = self.count;
        self.count = self.count.wrapping_sub(1);
        previous
    }

    /// Tries to acquire the semaphore, without blocking and without
    /// queueing: with a count of zero or less nothing changes and the answer
    /// is `false`; else the count goes down by one and the answer is `true`.
    pub fn wait(&mut self) -> (acquired: bool)
        ensures
            acquired == (old(self).count() > 0),
            final(self).count() == if acquired {
                old(self).count() - 1
            } else {
                old(self).count()
            },
            final(self).waiting() == old(self).waiting(),
    {
        if self.count <= 0 {
            false
        } else {
            self.decrement();
            true
        }
    }

    /// Enters `name` into the wait queue. A process waits at most once: the
    /// caller sees to it that `name` is not in the queue already, so that a
    /// second call for the same process has to follow a
    /// [`check_and_pop_if_exists`](Semaphore::check_and_pop_if_exists) that
    /// took it out.
    pub fn add_to_wait_queue(&mut self, name: Name)
        requires
            !old(self).waiting().contains(name),
        ensures
            final(self).waiting() == old(self).waiting().insert(name),
            final(self).waiting().contains(name),
            final(self).count() == old(self).count(),
    {
        self.queue.insert(name);
    }

    /// Takes `name` out of the wait queue and says whether it was there.
    /// Where it was not, and so on an empty queue, nothing changes.
    pub fn check_and_pop_if_exists(&mut self, name: Name) -> (existed: bool)
        ensures
            existed == old(self).waiting().contains(name),
            final(self).waiting() == old(self).waiting().remove(name),
            !existed ==> final(self).waiting() == old(self).waiting(),
            !final(self).waiting().contains(name),
            final(self).count() == old(self).count(),
    {
        self.queue.remove(&name)
    }

    /// Adds one to the count, wrapping round at `i32::MAX`, and says whether
    /// the new count is zero or more.
    pub fn signal(&mut self) -> (ready: bool)
        ensures
            final(self).count() == if old(self).count() == i32::MAX {
                i32::MIN as int
            } else {
                old(self).count() + 1
            },
            ready == (final(self).count() >= 0),
            final(self).waiting() == old(self).waiting(),
    {
        self.count = self.count.wrapping_add(1);
        self.count >= 0
    }
}

} // verus!
