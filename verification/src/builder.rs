//! Step-by-step configuration of a pool.

use vstd::prelude::*;

use crate::backoff::BackoffStrategy;
use crate::pool::Pool;

verus! {

/// Collects a pool's policy before `build`. A connector (the factory) is the
/// one required piece; everything else has a default.
pub struct PoolBuilder<F> {
    connector: Option<F>,
    timeout_ms: Option<u64>,
    max_tries: Option<usize>,
    capacity: Option<usize>,
    backoff: BackoffStrategy,
}

impl<F> PoolBuilder<F> {
    /// The factory set so far.
    pub closed spec fn spec_connector(&self) -> Option<F> {
        self.connector
    }

    /// The deadline set so far, in milliseconds.
    pub closed spec fn spec_timeout(&self) -> Option<u64> {
        self.timeout_ms
    }

    /// The bound on counted liveness failures set so far.
    pub closed spec fn spec_max_tries(&self) -> Option<usize> {
        self.max_tries
    }

    /// The capacity set so far.
    pub closed spec fn spec_capacity(&self) -> Option<usize> {
        self.capacity
    }

    /// The backoff template set so far.
    pub closed spec fn spec_backoff(&self) -> BackoffStrategy {
        self.backoff
    }

    /// A builder holding the defaults: a ten-second deadline, ten counted
    /// liveness failures, no capacity bound, backoff disabled, no connector.
    pub fn new() -> (b: Self)
        ensures
            b.spec_connector() is None,
            b.spec_timeout() == Some(crate::DEFAULT_TIMEOUT_MS),
            b.spec_max_tries() == Some(crate::DEFAULT_MAX_TRIES),
            b.spec_capacity() is None,
            b.spec_backoff() is Off,
    {
        PoolBuilder {
            connector: None,
            timeout_ms: Some(crate::DEFAULT_TIMEOUT_MS),
            max_tries: Some(crate::DEFAULT_MAX_TRIES),
            capacity: None,
            backoff: BackoffStrategy::Off,
        }
    }

    /// Sets the factory that constructs new resources.
    pub fn connector(self, connector: F) -> (b: Self)
        ensures
            b.spec_connector() == Some(connector),
            b.spec_timeout() == self.spec_timeout(),
            b.spec_max_tries() == self.spec_max_tries(),
            b.spec_capacity() == self.spec_capacity(),
            b.spec_backoff() == self.spec_backoff(),
    {
        let mut b = self;
        b.connector = Some(connector);
        b
    }

    /// Sets the acquisition deadline in milliseconds, or disables it.
    pub fn timeout(self, timeout_ms: Option<u64>) -> (b: Self)
        ensures
            b.spec_connector() == self.spec_connector(),
            b.spec_timeout() == timeout_ms,
            b.spec_max_tries() == self.spec_max_tries(),
            b.spec_capacity() == self.spec_capacity(),
            b.spec_backoff() == self.spec_backoff(),
    {
        let mut b = self;
        b.timeout_ms = timeout_ms;
        b
    }

    /// Sets the bound on counted liveness failures, or disables it.
    pub fn max_tries(self, max_tries: Option<usize>) -> (b: Self)
        ensures
            b.spec_connector() == self.spec_connector(),
            b.spec_timeout() == self.spec_timeout(),
            b.spec_max_tries() == max_tries,
            b.spec_capacity() == self.spec_capacity(),
            b.spec_backoff() == self.spec_backoff(),
    {
        let mut b = self;
        b.max_tries = max_tries;
        b
    }

    /// Sets the idle-registry capacity, or removes the bound.
    pub fn capacity(self, capacity: Option<usize>) -> (b: Self)
        ensures
            b.spec_connector() == self.spec_connector(),
            b.spec_timeout() == self.spec_timeout(),
            b.spec_max_tries() == self.spec_max_tries(),
            b.spec_capacity() == capacity,
            b.spec_backoff() == self.spec_backoff(),
    {
        let mut b = self;
        b.capacity = capacity;
        b
    }

    /// Sets the backoff template copied into each acquisition attempt.
    pub fn backoff(self, backoff: BackoffStrategy) -> (b: Self)
        ensures
            b.spec_connector() == self.spec_connector(),
            b.spec_timeout() == self.spec_timeout(),
            b.spec_max_tries() == self.spec_max_tries(),
            b.spec_capacity() == self.spec_capacity(),
            b.spec_backoff() == backoff,
    {
        let mut b = self;
        b.backoff = backoff;
        b
    }

    /// Builds the pool with an empty idle registry. A connector must have
    /// been supplied.
    pub fn build<T>(self) -> (p: Pool<T, F>)
        requires
            self.spec_connector() is Some,
        ensures
            p@ == Seq::<T>::empty(),
            p.spec_factory() == self.spec_connector()->0,
            p.spec_timeout() == self.spec_timeout(),
            p.spec_max_tries() == self.spec_max_tries(),
            p.spec_capacity() == self.spec_capacity(),
            p.spec_backoff() == self.spec_backoff(),
    {
        let PoolBuilder { connector, timeout_ms, max_tries, capacity, backoff } = self;
        let factory = match connector {
            Some(f) => f,
            None => vstd::pervasive::unreached(),
        };
        Pool::from_parts(factory, timeout_ms, max_tries, capacity, backoff)
    }
}

} // verus!
