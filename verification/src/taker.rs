//! The acquisition state machine: one instance per `take` attempt.
//!
//! Each call of `poll_once` performs one cooperative scheduler turn:
//! deadline check, then either wait out a pending backoff delay, step the
//! in-flight construction (starting one when nothing is idle), or pop an
//! idle resource and run the liveness test. The machine owns the attempt's
//! start time, its failure counter, its own copy of the backoff cursor, an
//! in-flight construction marker, and at most one in-limbo resource: a
//! resource detached from the registry for testing, neither idle nor leased.

use std::time::Instant;
use vstd::prelude::*;

use crate::backoff::BackoffStrategy;
use crate::backoff::backoff_matches;
use crate::backoff::backoff_peek;
use crate::connection::Connection;
use crate::connection::Probe;
use crate::factory::Constructed;
use crate::factory::ObjectFactory;
use crate::guard::PoolGuard;
use crate::pool::Pool;
use crate::pool::same_config;

verus! {

/// Why an acquisition attempt ended without a lease.
pub enum TakeError<E> {
    /// The wall-clock deadline passed. The caller may simply retry.
    TimedOut,
    /// The factory failed; its error is passed through verbatim and the
    /// factory is not retried.
    Factory(E),
    /// The most recent liveness error, surfaced once the failure counter
    /// reached the configured bound.
    Liveness(E),
}

/// What one scheduler turn produced.
pub enum Polled<T, E> {
    /// The attempt is over: a lease, or a terminal error.
    Ready(Result<PoolGuard<T>, TakeError<E>>),
    /// Not done yet; poll again.
    Pending,
    /// Not done yet; a backoff delay is running. The value is how many
    /// milliseconds of it remain: a driver should wait that long before the
    /// next poll, though polling earlier is harmless.
    Waiting(u64),
}

/// The deadline has passed: not the very first turn (that one is granted
/// grace), a timeout is configured, and more than that many milliseconds have
/// elapsed since the attempt began.
pub open spec fn deadline_exceeded(first_poll: bool, elapsed_ms: u64, timeout_ms: Option<u64>) -> bool {
    !first_poll && timeout_ms is Some && elapsed_ms > timeout_ms->0
}

/// A backoff delay is still running at `elapsed_ms`. The delay runs through
/// its wake reading inclusive: readings are truncated to whole milliseconds,
/// so resuming only once the reading exceeds the wake time guarantees that at
/// least the announced delay has really passed.
pub open spec fn still_waiting(waiting_until: Option<u64>, elapsed_ms: u64) -> bool {
    waiting_until is Some && elapsed_ms <= waiting_until->0
}

/// The failure counter has reached a configured bound.
pub open spec fn tries_exhausted(tries: usize, max_tries: Option<usize>) -> bool {
    max_tries is Some && tries >= max_tries->0
}

/// The failure counter after one more counted failure.
pub open spec fn bump(tries: usize) -> usize {
    if tries < usize::MAX {
        (tries + 1) as usize
    } else {
        usize::MAX
    }
}

/// When a delay of `delay_ms`, started at `elapsed_ms`, will have run out.
pub open spec fn wake_time(elapsed_ms: u64, delay_ms: u64) -> u64 {
    if elapsed_ms + delay_ms > u64::MAX {
        u64::MAX
    } else {
        (elapsed_ms + delay_ms) as u64
    }
}

/// One acquisition attempt in progress.
pub struct PoolTaker<T> {
    started_at: Instant,
    tries: usize,
    first_poll: bool,
    backoff: BackoffStrategy,
    limbo: Option<T>,
    building: bool,
    waiting_until: Option<u64>,
}

impl<T> PoolTaker<T> {
    /// How many liveness failures have been counted so far.
    pub closed spec fn spec_tries(&self) -> usize {
        self.tries
    }

    /// Whether the next turn is the attempt's very first.
    pub closed spec fn spec_first_poll(&self) -> bool {
        self.first_poll
    }

    /// This attempt's private backoff cursor.
    pub closed spec fn spec_backoff(&self) -> BackoffStrategy {
        self.backoff
    }

    /// The resource detached for a liveness test whose answer is pending.
    pub closed spec fn spec_limbo(&self) -> Option<T> {
        self.limbo
    }

    /// Whether a construction is in flight: started, not yet finished.
    pub closed spec fn spec_building(&self) -> bool {
        self.building
    }

    /// The elapsed time at which the running backoff delay ends.
    pub closed spec fn spec_waiting(&self) -> Option<u64> {
        self.waiting_until
    }

    /// A fresh attempt against `pool`: no failures counted, first-turn grace,
    /// nothing in limbo, and an independent copy of the pool's backoff
    /// template, so attempts do not share progression state.
    pub fn new<F>(pool: &Pool<T, F>) -> (taker: Self)
        ensures
            taker.spec_tries() == 0,
            taker.spec_first_poll(),
            taker.spec_limbo() is None,
            !taker.spec_building(),
            taker.spec_waiting() is None,
            backoff_matches(pool.spec_backoff(), taker.spec_backoff()),
    {
        PoolTaker {
            started_at: crate::clock::monotonic_now(),
            tries: 0,
            first_poll: true,
            backoff: pool.backoff_template().duplicate(),
            limbo: None,
            building: false,
            waiting_until: None,
        }
    }

    /// Milliseconds since the attempt began, read from the monotonic clock.
    pub fn elapsed_now(&self) -> u64 {
        crate::clock::elapsed_millis(&self.started_at)
    }

    /// Books one counted liveness failure: surfaces the error once the
    /// counter reaches the configured bound, otherwise consults the backoff
    /// cursor and either starts a delay or retries at once.
    fn note_probe_failure<E>(&mut self, error: E, max_tries: Option<usize>, elapsed_ms: u64) -> (r:
        Polled<T, E>)
        ensures
            final(self).spec_tries() == bump(old(self).spec_tries()),
            final(self).spec_first_poll() == old(self).spec_first_poll(),
            final(self).spec_limbo() == old(self).spec_limbo(),
            final(self).spec_building() == old(self).spec_building(),
            old(self).spec_backoff() is Fixed ==> backoff_matches(
                old(self).spec_backoff(),
                final(self).spec_backoff(),
            ),
            backoff_peek(old(self).spec_backoff()) is None ==> final(self).spec_backoff() == old(
                self,
            ).spec_backoff(),
            tries_exhausted(bump(old(self).spec_tries()), max_tries) ==> {
                &&& r == Polled::<T, E>::Ready(Result::Err(TakeError::Liveness(error)))
                &&& final(self).spec_waiting() == old(self).spec_waiting()
                &&& final(self).spec_backoff() == old(self).spec_backoff()
            },
            !tries_exhausted(bump(old(self).spec_tries()), max_tries) ==> {
                &&& (backoff_peek(old(self).spec_backoff()) matches Some(ms) ==> r == Polled::<
                    T,
                    E,
                >::Waiting(ms) && final(self).spec_waiting() == Some(wake_time(elapsed_ms, ms)))
                &&& (backoff_peek(old(self).spec_backoff()) is None ==> r == Polled::<
                    T,
                    E,
                >::Pending && final(self).spec_waiting() is None)
            },
    {
        if self.tries < usize::MAX {
            self.tries = self.tries + 1;
        }
        let exhausted = match max_tries {
            Some(m) => self.tries >= m,
            None => false,
        };
        if exhausted {
            return Polled::Ready(Err(TakeError::Liveness(error)));
        }
        match self.backoff.next_delay() {
            Some(ms) => {
                self.waiting_until = Some(
                    if elapsed_ms <= u64::MAX - ms {
                        elapsed_ms + ms
                    } else {
                        u64::MAX
                    },
                );
                Polled::Waiting(ms)
            }
            None => {
                self.waiting_until = None;
                Polled::Pending
            }
        }
    }

    /// Steps the construction of a new resource, starting one if none is in
    /// flight: a finished resource is put into the registry, so it passes the
    /// same liveness test as a reused one; a failure is terminal and never
    /// retried; a pending step keeps the in-flight marker set.
    fn step_construction<F, E>(&mut self, pool: &mut Pool<T, F>) -> (r: Polled<T, E>) where
        F: ObjectFactory<T, E>,

        ensures
            same_config(*old(pool), *final(pool)),
            final(self).spec_limbo() == old(self).spec_limbo(),
            final(self).spec_tries() == old(self).spec_tries(),
            final(self).spec_backoff() == old(self).spec_backoff(),
            final(self).spec_waiting() == old(self).spec_waiting(),
            final(self).spec_first_poll() == old(self).spec_first_poll(),
            (r is Pending && final(self).spec_building() && final(pool)@ == old(pool)@) || (
            r is Pending && !final(self).spec_building() && final(pool)@.len()
                == crate::pool::stored_len(old(pool)@.len(), old(pool).spec_capacity())) || (
            r matches Polled::Ready(Result::Err(TakeError::Factory(_))) && final(pool)@ == old(
                pool,
            )@ && !final(self).spec_building()),
    {
        match pool.construct() {
            Constructed::Ready(fresh) => {
                pool.put(fresh);
                self.building = false;
                Polled::Pending
            }
            Constructed::Failed(e) => {
                self.building = false;
                Polled::Ready(Err(TakeError::Factory(e)))
            }
            Constructed::Pending => {
                self.building = true;
                Polled::Pending
            }
        }
    }

    /// One cooperative scheduler turn of the acquisition state machine.
    ///
    /// `elapsed_ms` is the driver's reading of the time since the attempt
    /// began; the contract below is exact for every reading. In one turn the
    /// machine either times out, keeps waiting out a backoff delay, steps the
    /// construction of a new resource because nothing is idle (the finished
    /// resource is put into the registry, so it passes the same liveness test
    /// as a reused one), or detaches one resource and runs its liveness
    /// probe. A construction left in flight is stepped again before the
    /// registry is consulted.
    pub fn poll_once<F, E>(&mut self, pool: &mut Pool<T, F>, elapsed_ms: u64) -> (r: Polled<T, E>) where
        T: Connection<E>,
        F: ObjectFactory<T, E>,

        ensures
            same_config(*old(pool), *final(pool)),
            // the deadline, exactly: a timeout turn changes nothing
            (r matches Polled::Ready(Result::Err(TakeError::TimedOut))) <==> deadline_exceeded(
                old(self).spec_first_poll(),
                elapsed_ms,
                old(pool).spec_timeout(),
            ),
            deadline_exceeded(old(self).spec_first_poll(), elapsed_ms, old(pool).spec_timeout())
                ==> *final(self) == *old(self) && *final(pool) == *old(pool),
            // the first-turn grace is spent by any other turn
            !deadline_exceeded(old(self).spec_first_poll(), elapsed_ms, old(pool).spec_timeout())
                ==> !final(self).spec_first_poll(),
            // a running backoff delay passes the turn through untouched
            !deadline_exceeded(old(self).spec_first_poll(), elapsed_ms, old(pool).spec_timeout())
                && still_waiting(old(self).spec_waiting(), elapsed_ms) ==> {
                &&& r == Polled::<T, E>::Waiting((old(self).spec_waiting()->0 - elapsed_ms) as u64)
                &&& *final(pool) == *old(pool)
                &&& final(self).spec_limbo() == old(self).spec_limbo()
                &&& final(self).spec_tries() == old(self).spec_tries()
                &&& final(self).spec_waiting() == old(self).spec_waiting()
                &&& final(self).spec_backoff() == old(self).spec_backoff()
                &&& final(self).spec_building() == old(self).spec_building()
            },
            // nothing in limbo, and a construction in flight or nothing
            // idle: the construction is stepped (started when none is in
            // flight), and nothing else is touched
            !deadline_exceeded(old(self).spec_first_poll(), elapsed_ms, old(pool).spec_timeout())
                && !still_waiting(old(self).spec_waiting(), elapsed_ms) && old(
                self,
            ).spec_limbo() is None && (old(self).spec_building() || old(pool)@.len() == 0) ==> {
                &&& final(self).spec_limbo() is None
                &&& final(self).spec_tries() == old(self).spec_tries()
                &&& final(self).spec_backoff() == old(self).spec_backoff()
                &&& final(self).spec_waiting() is None
                &&& ((r is Pending && final(self).spec_building() && final(pool)@ == old(pool)@)
                    || (r is Pending && !final(self).spec_building() && final(pool)@.len()
                    == crate::pool::stored_len(old(pool)@.len(), old(pool).spec_capacity())) || (
                r matches Polled::Ready(Result::Err(TakeError::Factory(_))) && final(pool)@ == old(
                    pool,
                )@ && !final(self).spec_building()))
            },
            // a resource is at hand: it is detached and probed; the factory
            // is not consulted, so an idle resource is always reused
            !deadline_exceeded(old(self).spec_first_poll(), elapsed_ms, old(pool).spec_timeout())
                && !still_waiting(old(self).spec_waiting(), elapsed_ms) && (old(
                self,
            ).spec_limbo() is Some || (!old(self).spec_building() && old(pool)@.len() > 0)) ==> {
                &&& final(pool).spec_factory() == old(pool).spec_factory()
                &&& final(self).spec_building() == old(self).spec_building()
                &&& (old(self).spec_limbo() is Some ==> final(pool)@ == old(pool)@)
                &&& (old(self).spec_limbo() is None ==> final(pool)@ == old(pool)@.subrange(
                    1,
                    old(pool)@.len() as int,
                ))
            },
            // a turn that probed a resource and must re-poll either counted
            // nothing — the probe reported unusable (the resource is
            // discarded) or is still pending (it is held in limbo) — leaving
            // the failure counter and the backoff cursor untouched; or it
            // counted a failure below the bound with backoff disabled, so no
            // delay was announced. Either way no wait is set.
            !deadline_exceeded(old(self).spec_first_poll(), elapsed_ms, old(pool).spec_timeout())
                && !still_waiting(old(self).spec_waiting(), elapsed_ms) && (old(
                self,
            ).spec_limbo() is Some || (!old(self).spec_building() && old(pool)@.len() > 0))
                && r is Pending ==> {
                &&& final(self).spec_waiting() is None
                &&& ({
                    &&& final(self).spec_tries() == old(self).spec_tries()
                    &&& final(self).spec_backoff() == old(self).spec_backoff()
                } || {
                    &&& final(self).spec_tries() == bump(old(self).spec_tries())
                    &&& !tries_exhausted(bump(old(self).spec_tries()), old(pool).spec_max_tries())
                    &&& backoff_peek(old(self).spec_backoff()) is None
                    &&& final(self).spec_backoff() == old(self).spec_backoff()
                })
            },
            // a lease is granted only from the probe path, and holds the
            // probed resource (as its own probe left it)
            r matches Polled::Ready(Result::Ok(g)) ==> {
                &&& !still_waiting(old(self).spec_waiting(), elapsed_ms)
                &&& (old(self).spec_limbo() is Some || (!old(self).spec_building() && old(
                    pool,
                )@.len() > 0))
                &&& g@ is Some
                &&& final(self).spec_limbo() is None
                &&& final(self).spec_tries() == old(self).spec_tries()
            },
            // a liveness error is terminal exactly when the bumped counter
            // reaches the configured bound
            r matches Polled::Ready(Result::Err(TakeError::Liveness(_))) ==> {
                &&& final(self).spec_tries() == bump(old(self).spec_tries())
                &&& tries_exhausted(bump(old(self).spec_tries()), old(pool).spec_max_tries())
            },
            // a fresh backoff delay is the cursor's announced next delay
            r matches Polled::Waiting(ms) ==> still_waiting(old(self).spec_waiting(), elapsed_ms)
                || {
                &&& backoff_peek(old(self).spec_backoff()) == Some(ms)
                &&& final(self).spec_waiting() == Some(wake_time(elapsed_ms, ms))
                &&& final(self).spec_tries() == bump(old(self).spec_tries())
                &&& !tries_exhausted(bump(old(self).spec_tries()), old(pool).spec_max_tries())
            },
            // a fixed backoff cursor never changes its interval
            old(self).spec_backoff() is Fixed ==> backoff_matches(
                old(self).spec_backoff(),
                final(self).spec_backoff(),
            ),
            // a resource stays in limbo only where one was already at hand
            final(self).spec_limbo() is Some ==> old(self).spec_limbo() is Some || old(
                pool,
            )@.len() > 0,
            // a construction is in flight only where one already was, or
            // where nothing was idle to serve
            final(self).spec_building() ==> old(self).spec_building() || old(pool)@.len() == 0,
    {
        let timeout_ms = pool.timeout_setting();
        let deadline = match timeout_ms {
            Some(t) => !self.first_poll && elapsed_ms > t,
            None => false,
        };
        if deadline {
            return Polled::Ready(Err(TakeError::TimedOut));
        }
        self.first_poll = false;
        match self.waiting_until {
            Some(w) => {
                if elapsed_ms <= w {
                    return Polled::Waiting(w - elapsed_ms);
                }
                self.waiting_until = None;
            }
            None => {}
        }
        let mut object: T;
        match self.limbo.take() {
            Some(held) => {
                object = held;
            }
            None => {
                if self.building {
                    return self.step_construction(pool);
                }
                match pool.try_take() {
                    Some(mut guard) => {
                        match guard.detach() {
                            Some(popped) => {
                                object = popped;
                            }
                            None => {
                                object = vstd::pervasive::unreached();
                            }
                        }
                    }
                    None => {
                        return self.step_construction(pool);
                    }
                }
            }
        }
        match object.test_poll() {
            Probe::Ready(usable) => {
                if usable {
                    Polled::Ready(Ok(PoolGuard::new(object)))
                } else {
                    // unusable without an error: the resource is discarded
                    // and the attempt retries at once, uncounted
                    Polled::Pending
                }
            }
            Probe::Pending => {
                self.limbo = Some(object);
                Polled::Pending
            }
            Probe::Failed(e) => {
                let max_tries = pool.max_tries_setting();
                self.note_probe_failure(e, max_tries, elapsed_ms)
            }
        }
    }
}

} // verus!
