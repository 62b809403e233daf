//! The pool: an ordered registry of idle resources plus immutable policy.
//!
//! The registry is served first-in-first-out: the front is the next resource
//! to lease, the back the most recently returned. A configured capacity
//! bounds the registry; overflow evicts the back (most recently enqueued)
//! entry, preserving the oldest ones.

use std::collections::VecDeque;
use vstd::prelude::*;

use crate::backoff::BackoffStrategy;
use crate::builder::PoolBuilder;
use crate::connection::Connection;
use crate::factory::ObjectFactory;
use crate::guard::PoolGuard;
use crate::taker::Polled;
use crate::taker::PoolTaker;
use crate::taker::TakeError;

verus! {

/// How a driven acquisition attempt ended.
pub enum TakeResult<T, E> {
    /// An exclusive lease on a live resource.
    Granted(PoolGuard<T>),
    /// A terminal error; see `TakeError`.
    Failed(TakeError<E>),
    /// The turn budget ran out first. The attempt can be resumed with
    /// `Pool::resume`, or dropped to abandon it (losing any in-limbo
    /// resource, as abandoning an attempt does).
    Suspended(PoolTaker<T>),
}

/// How a pre-warming run ended.
pub enum InitResult<E> {
    /// Every requested resource was leased, tested and returned.
    Complete,
    /// An acquisition failed; pre-warmed resources gathered so far are
    /// discarded.
    Failed(TakeError<E>),
    /// An acquisition's turn budget ran out first.
    Incomplete,
}

/// Whether `capacity` actually bounds the idle registry. No configured
/// capacity means unbounded, and so does a configured capacity of zero.
pub open spec fn capacity_bounds(capacity: Option<usize>) -> bool {
    capacity is Some && capacity->0 > 0
}

/// The idle registry after returning `object` to it: if the registry is at a
/// bounding capacity, the back (most recently enqueued) entry is evicted
/// first; then `object` is appended at the back.
pub open spec fn stored_after_put<T>(s: Seq<T>, capacity: Option<usize>, object: T) -> Seq<T> {
    if capacity_bounds(capacity) && s.len() >= capacity->0 {
        s.subrange(0, s.len() - 1).push(object)
    } else {
        s.push(object)
    }
}

/// The length of the idle registry after a put: one more, except at a
/// bounding capacity, where an eviction keeps it level.
pub open spec fn stored_len(len: nat, capacity: Option<usize>) -> nat {
    if capacity_bounds(capacity) && len >= capacity->0 {
        len
    } else {
        len + 1
    }
}

/// The idle registry after draining up to `amount` resources from the front.
pub open spec fn drained<T>(s: Seq<T>, amount: usize) -> Seq<T> {
    if amount <= s.len() {
        s.subrange(amount as int, s.len() as int)
    } else {
        Seq::empty()
    }
}

/// How many resources `initialize` aims to pre-warm: `amount`, clamped to the
/// capacity when one bounds the registry.
pub open spec fn init_quota(amount: usize, capacity: Option<usize>) -> usize {
    if capacity_bounds(capacity) && amount > capacity->0 {
        capacity->0
    } else {
        amount
    }
}

/// A shared registry of idle resources together with the acquisition policy:
/// deadline, bound on counted liveness failures, capacity, backoff template,
/// and the factory that constructs new resources.
pub struct Pool<T, F> {
    pub(crate) objects: VecDeque<T>,
    pub(crate) factory: F,
    pub(crate) timeout_ms: Option<u64>,
    pub(crate) max_tries: Option<usize>,
    pub(crate) capacity: Option<usize>,
    pub(crate) backoff: BackoffStrategy,
}

impl<T, F> View for Pool<T, F> {
    type V = Seq<T>;

    /// The idle registry, front (next to serve) first.
    closed spec fn view(&self) -> Seq<T> {
        self.objects@
    }
}

/// The two pools have the same policy configuration.
pub open spec fn same_config<T, F>(a: Pool<T, F>, b: Pool<T, F>) -> bool {
    &&& b.spec_timeout() == a.spec_timeout()
    &&& b.spec_max_tries() == a.spec_max_tries()
    &&& b.spec_capacity() == a.spec_capacity()
    &&& b.spec_backoff() == a.spec_backoff()
}

impl<T, F> Pool<T, F> {
    /// The configured acquisition deadline, in milliseconds.
    pub closed spec fn spec_timeout(&self) -> Option<u64> {
        self.timeout_ms
    }

    /// The configured bound on counted liveness failures.
    pub closed spec fn spec_max_tries(&self) -> Option<usize> {
        self.max_tries
    }

    /// The configured capacity of the idle registry.
    pub closed spec fn spec_capacity(&self) -> Option<usize> {
        self.capacity
    }

    /// The configured backoff template.
    pub closed spec fn spec_backoff(&self) -> BackoffStrategy {
        self.backoff
    }

    /// The factory state.
    pub closed spec fn spec_factory(&self) -> F {
        self.factory
    }

    /// Assembles a pool with an empty idle registry from its parts.
    pub(crate) fn from_parts(
        factory: F,
        timeout_ms: Option<u64>,
        max_tries: Option<usize>,
        capacity: Option<usize>,
        backoff: BackoffStrategy,
    ) -> (p: Self)
        ensures
            p@ == Seq::<T>::empty(),
            p.spec_factory() == factory,
            p.spec_timeout() == timeout_ms,
            p.spec_max_tries() == max_tries,
            p.spec_capacity() == capacity,
            p.spec_backoff() == backoff,
    {
        let initial: usize = match capacity {
            Some(c) => c,
            None => 10,
        };
        Pool {
            objects: VecDeque::with_capacity(initial),
            factory,
            timeout_ms,
            max_tries,
            capacity,
            backoff,
        }
    }

    /// A builder holding the default policy: a ten-second deadline, ten
    /// counted liveness failures, no capacity bound, backoff disabled.
    pub fn builder() -> (b: PoolBuilder<F>)
        ensures
            b.spec_connector() is None,
            b.spec_timeout() == Some(crate::DEFAULT_TIMEOUT_MS),
            b.spec_max_tries() == Some(crate::DEFAULT_MAX_TRIES),
            b.spec_capacity() is None,
            b.spec_backoff() is Off,
    {
        PoolBuilder::new()
    }

    /// The configured capacity of the idle registry, if any.
    pub fn capacity(&self) -> (c: Option<usize>)
        ensures
            c == self.spec_capacity(),
    {
        self.capacity
    }

    /// Pops the front idle resource, if any, wrapping it in a lease guard.
    /// Never invokes the factory.
    pub fn try_take(&mut self) -> (r: Option<PoolGuard<T>>)
        ensures
            same_config(*old(self), *final(self)),
            final(self).spec_factory() == old(self).spec_factory(),
            old(self)@.len() == 0 ==> r is None && final(self)@ == old(self)@,
            old(self)@.len() > 0 ==> {
                &&& r is Some
                &&& (r->0)@ == Some(old(self)@[0])
                &&& final(self)@ == old(self)@.subrange(1, old(self)@.len() as int)
            },
    {
        match self.objects.pop_front() {
            Some(object) => Some(PoolGuard::new(object)),
            None => None,
        }
    }

    /// Returns a resource to the back of the idle registry, evicting the
    /// current back entry first when the registry is at a bounding capacity.
    pub fn put(&mut self, object: T)
        ensures
            same_config(*old(self), *final(self)),
            final(self).spec_factory() == old(self).spec_factory(),
            final(self)@ == stored_after_put(old(self)@, old(self).spec_capacity(), object),
    {
        let capacity: usize = match self.capacity {
            Some(c) => c,
            None => 0,
        };
        if capacity > 0 && self.objects.len() >= capacity {
            let _ = self.objects.pop_back();
        }
        self.objects.push_back(object);
    }

    /// The number of idle resources: exactly the length of the registry,
    /// which never counts leased or in-limbo resources, since those are owned
    /// by their guard or by the acquisition state machine that detached them.
    pub fn size(&self) -> (n: usize)
        ensures
            n == self@.len(),
    {
        self.objects.len()
    }

    /// Drains up to `amount` idle resources from the front and discards them,
    /// stopping early if the registry empties.
    pub fn destroy(&mut self, amount: usize)
        ensures
            same_config(*old(self), *final(self)),
            final(self).spec_factory() == old(self).spec_factory(),
            final(self)@ == drained(old(self)@, amount),
            final(self)@.len() == if amount <= old(self)@.len() {
                old(self)@.len() - amount
            } else {
                0
            },
    {
        let ghost p0 = *self;
        let mut remaining: usize = amount;
        while remaining > 0 && self.size() > 0
            invariant
                remaining <= amount,
                amount - remaining <= p0@.len(),
                self@ == p0@.subrange((amount - remaining) as int, p0@.len() as int),
                same_config(p0, *self),
                self.spec_factory() == p0.spec_factory(),
            decreases remaining,
        {
            let taken = self.try_take();
            match taken {
                Some(mut guard) => {
                    let _ = guard.detach();
                }
                None => {}
            }
            proof {
                assert(self@ =~= p0@.subrange((amount - (remaining - 1)) as int, p0@.len() as int));
            }
            remaining = remaining - 1;
        }
        proof {
            if amount > p0@.len() {
                assert(self@ =~= Seq::<T>::empty());
            }
        }
    }

    /// Steps the factory once. The idle registry and the policy are left
    /// untouched; only the factory's own state may change.
    pub(crate) fn construct<E>(&mut self) -> (r: crate::factory::Constructed<T, E>) where
        F: crate::factory::ObjectFactory<T, E>,

        ensures
            same_config(*old(self), *final(self)),
            final(self)@ == old(self)@,
    {
        self.factory.create()
    }

    /// The configured deadline, for the acquisition state machine.
    pub(crate) fn timeout_setting(&self) -> (t: Option<u64>)
        ensures
            t == self.spec_timeout(),
    {
        self.timeout_ms
    }

    /// The configured bound on counted liveness failures.
    pub(crate) fn max_tries_setting(&self) -> (m: Option<usize>)
        ensures
            m == self.spec_max_tries(),
    {
        self.max_tries
    }

    /// The configured backoff template.
    pub(crate) fn backoff_template(&self) -> (b: &BackoffStrategy)
        ensures
            *b == self.spec_backoff(),
    {
        &self.backoff
    }
}

impl<T, F> Pool<T, F> {
    /// One whole acquisition attempt, driven for at most `turns` cooperative
    /// turns: registry lookup, construction on demand, liveness testing,
    /// retry with backoff, all under the configured deadline.
    pub fn take<E>(&mut self, turns: u64) -> (r: TakeResult<T, E>) where
        T: Connection<E>,
        F: ObjectFactory<T, E>,

        ensures
            same_config(*old(self), *final(self)),
            r matches TakeResult::Granted(g) ==> g@ is Some,
            r matches TakeResult::Granted(_) && old(self)@.len() == 0 ==> final(self)@.len() == 0,
            r matches TakeResult::Suspended(t) ==> (old(self)@.len() == 0 ==> final(self)@.len()
                + (if t.spec_limbo() is Some {
                1int
            } else {
                0int
            }) <= 1),
            r matches TakeResult::Failed(_) && old(self)@.len() == 0 ==> final(self)@.len() <= 1,
            r matches TakeResult::Failed(TakeError::TimedOut) ==> old(self).spec_timeout() is Some,
            r matches TakeResult::Failed(TakeError::Liveness(_)) ==> old(
                self,
            ).spec_max_tries() is Some,
            turns == 0 ==> r is Suspended && *final(self) == *old(self),
    {
        let taker = PoolTaker::new(self);
        self.resume(taker, turns)
    }

    /// Drives an acquisition attempt, new or suspended, for at most `turns`
    /// further cooperative turns. A backoff delay is waited out by polling
    /// the clock turn by turn; a driver that would rather sleep it out drives
    /// `PoolTaker::poll_once` itself.
    pub fn resume<E>(&mut self, taker: PoolTaker<T>, turns: u64) -> (r: TakeResult<T, E>) where
        T: Connection<E>,
        F: ObjectFactory<T, E>,

        ensures
            same_config(*old(self), *final(self)),
            r matches TakeResult::Granted(g) ==> g@ is Some,
            r matches TakeResult::Granted(_) && old(self)@.len() == 0 ==> final(self)@.len() == 0,
            r matches TakeResult::Suspended(t) ==> (old(self)@.len() == 0 ==> final(self)@.len()
                + (if t.spec_limbo() is Some {
                1int
            } else {
                0int
            }) <= 1),
            r matches TakeResult::Failed(_) && old(self)@.len() == 0 ==> final(self)@.len() <= 1,
            r matches TakeResult::Failed(TakeError::TimedOut) ==> old(self).spec_timeout() is Some,
            r matches TakeResult::Failed(TakeError::Liveness(_)) ==> old(
                self,
            ).spec_max_tries() is Some,
            turns == 0 ==> r is Suspended && *final(self) == *old(self),
            r matches TakeResult::Suspended(t) ==> (turns == 0 ==> t == taker),
    {
        let ghost p0 = *self;
        let mut active = taker;
        let mut remaining: u64 = turns;
        loop
            invariant
                p0 == *old(self),
                remaining <= turns,
                remaining == turns ==> *self == p0 && active == taker,
                same_config(p0, *self),
                p0@.len() == 0 ==> self@.len() + (if active.spec_limbo() is Some {
                    1int
                } else {
                    0int
                }) <= 1,
                p0@.len() == 0 && active.spec_building() ==> self@.len() == 0,
            decreases remaining,
        {
            if remaining == 0 {
                return TakeResult::Suspended(active);
            }
            remaining = remaining - 1;
            let elapsed: u64 = active.elapsed_now();
            match active.poll_once(self, elapsed) {
                Polled::Ready(outcome) => {
                    match outcome {
                        Ok(guard) => {
                            return TakeResult::Granted(guard);
                        }
                        Err(e) => {
                            return TakeResult::Failed(e);
                        }
                    }
                }
                Polled::Pending => {}
                Polled::Waiting(_) => {}
            }
        }
    }

    /// How many resources a pre-warm of `amount` aims for: `amount`, clamped
    /// to the capacity when one bounds the registry.
    pub fn prewarm_quota(&self, amount: usize) -> (q: usize)
        ensures
            q == init_quota(amount, self.spec_capacity()),
    {
        match self.capacity {
            Some(cap) => if cap > 0 && amount > cap {
                cap
            } else {
                amount
            },
            None => amount,
        }
    }

    /// Pre-warms the registry: leases, detaches and finally returns
    /// `amount` resources (clamped to any bounding capacity), so that every
    /// pre-warmed resource has passed a liveness check.
    pub fn initialize<E>(&mut self, amount: usize, turns: u64) -> (r: InitResult<E>) where
        T: Connection<E>,
        F: ObjectFactory<T, E>,

        ensures
            same_config(*old(self), *final(self)),
            old(self)@.len() == 0 && r is Complete ==> final(self)@.len() == init_quota(
                amount,
                old(self).spec_capacity(),
            ),
            old(self)@.len() == 0 && !(r is Complete) ==> final(self)@.len() <= 1,
            amount == 0 ==> r is Complete && *final(self) == *old(self),
            r is Complete ==> final(self)@.len() >= init_quota(amount, old(self).spec_capacity()),
            r matches InitResult::Failed(TakeError::TimedOut) ==> old(self).spec_timeout() is Some,
            r matches InitResult::Failed(TakeError::Liveness(_)) ==> old(
                self,
            ).spec_max_tries() is Some,
    {
        let quota: usize = self.prewarm_quota(amount);
        let ghost p0 = *self;
        let mut warmed: Vec<T> = Vec::new();
        let mut done: usize = 0;
        while done < quota
            invariant
                p0 == *old(self),
                done == 0 ==> *self == p0,
                done <= quota,
                quota == init_quota(amount, p0.spec_capacity()),
                warmed@.len() == done,
                same_config(p0, *self),
                p0@.len() == 0 ==> self@.len() == 0,
            decreases quota - done,
        {
            match self.take(turns) {
                TakeResult::Granted(mut guard) => {
                    match guard.detach() {
                        Some(object) => {
                            warmed.push(object);
                        }
                        None => {
                            proof {
                                assert(false);
                            }
                        }
                    }
                }
                TakeResult::Failed(e) => {
                    return InitResult::Failed(e);
                }
                TakeResult::Suspended(_) => {
                    return InitResult::Incomplete;
                }
            }
            done = done + 1;
        }
        while warmed.len() > 0
            invariant
                p0 == *old(self),
                quota == init_quota(amount, p0.spec_capacity()),
                quota == 0 ==> *self == p0,
                warmed@.len() <= quota,
                same_config(p0, *self),
                p0@.len() == 0 ==> self@.len() + warmed@.len() == quota,
                self@.len() + warmed@.len() >= quota || (capacity_bounds(p0.spec_capacity())
                    && self@.len() >= p0.spec_capacity()->0),
            decreases warmed@.len(),
        {
            let object = warmed.remove(0);
            self.put(object);
        }
        InitResult::Complete
    }
}

/// Law: a put grows the registry by one, except at a bounding capacity,
/// where the back entry is evicted first and the size stays put.
pub proof fn lemma_put_size<T>(s: Seq<T>, capacity: Option<usize>, object: T)
    ensures
        stored_after_put(s, capacity, object).len() == if capacity_bounds(capacity) && s.len()
            >= capacity->0 {
            s.len()
        } else {
            s.len() + 1
        },
{
}

/// Law: a registry within its bounding capacity stays within it across any
/// put, so the capacity bound is never exceeded.
pub proof fn lemma_capacity_never_exceeded<T>(s: Seq<T>, capacity: Option<usize>, object: T)
    requires
        capacity_bounds(capacity),
        s.len() <= capacity->0,
    ensures
        stored_after_put(s, capacity, object).len() <= capacity->0,
{
}

/// Law: with no bounding capacity a put simply appends, so every returned
/// resource is kept.
pub proof fn lemma_unbounded_put_appends<T>(s: Seq<T>, capacity: Option<usize>, object: T)
    requires
        !capacity_bounds(capacity),
    ensures
        stored_after_put(s, capacity, object) == s.push(object),
{
}

/// Law: backoff spacing. When a counted liveness failure at elapsed reading
/// `elapsed_at_failure` announces a delay of `delay_ms`, the acquisition
/// state machine sets its wait to `wake_time(elapsed_at_failure, delay_ms)`,
/// and every turn through that reading inclusive is a pass-through wait that
/// probes nothing (see `PoolTaker::poll_once`). So the next probe can run
/// only once the elapsed reading exceeds the failure time plus the delay:
/// consecutive failing probes are spaced by at least the announced delay.
pub proof fn lemma_backoff_spacing(elapsed_at_failure: u64, delay_ms: u64, elapsed_later: u64)
    requires
        elapsed_later <= crate::taker::wake_time(elapsed_at_failure, delay_ms),
    ensures
        crate::taker::still_waiting(
            Some(crate::taker::wake_time(elapsed_at_failure, delay_ms)),
            elapsed_later,
        ),
        elapsed_at_failure + delay_ms <= u64::MAX ==> crate::taker::wake_time(
            elapsed_at_failure,
            delay_ms,
        ) == elapsed_at_failure + delay_ms,
{
}

/// Law: leasing the front resource and then returning one resource restores
/// the registry's size, provided it was within any bounding capacity; and
/// a detached lease, released, changes nothing (see `PoolGuard::release`).
pub proof fn lemma_lease_return_restores_size<T>(s: Seq<T>, capacity: Option<usize>, object: T)
    requires
        s.len() >= 1,
        capacity_bounds(capacity) ==> s.len() <= capacity->0,
    ensures
        stored_after_put(s.subrange(1, s.len() as int), capacity, object).len() == s.len(),
{
}

} // verus!
