//! A generic resource pool.
//!
//! The pool leases reusable objects to callers, verifies liveness before
//! handing one out, constructs new objects on demand through a pluggable
//! factory, retries failed liveness checks with configurable backoff, and
//! enforces a wall-clock acquisition deadline. The idle registry is bounded
//! to a configured capacity with back-eviction on overflow.
//!
//! The acquisition state machine is cooperative: each call of
//! [`PoolTaker::poll_once`] performs one scheduler turn, and a driver (the
//! bundled [`Pool::take`], or an asynchronous loop around the pool) repeats
//! turns, waiting out the backoff delays the machine announces.

use vstd::prelude::*;

mod backoff;
mod builder;
mod clock;
mod connection;
mod factory;
mod guard;
mod pool;
mod taker;

pub use backoff::BackoffStrategy;
pub use backoff::backoff_matches;
pub use backoff::backoff_peek;
pub use backoff::exp_peek;
pub use backoff::fib_peek;
pub use backoff::fixed_millis;
pub use builder::PoolBuilder;
pub use connection::Connection;
pub use connection::Probe;
pub use factory::Constructed;
pub use factory::ObjectFactory;
pub use guard::PoolGuard;
pub use pool::InitResult;
pub use pool::Pool;
pub use pool::TakeResult;
pub use pool::capacity_bounds;
pub use pool::drained;
pub use pool::init_quota;
pub use pool::lemma_backoff_spacing;
pub use pool::lemma_capacity_never_exceeded;
pub use pool::lemma_lease_return_restores_size;
pub use pool::lemma_put_size;
pub use pool::lemma_unbounded_put_appends;
pub use pool::same_config;
pub use pool::stored_after_put;
pub use taker::Polled;
pub use taker::PoolTaker;
pub use taker::TakeError;
pub use taker::bump;
pub use taker::deadline_exceeded;
pub use taker::still_waiting;
pub use taker::tries_exhausted;
pub use taker::wake_time;

verus! {

/// Default acquisition deadline, in milliseconds.
pub const DEFAULT_TIMEOUT_MS: u64 = 10000;

/// Default bound on counted liveness failures per acquisition attempt.
pub const DEFAULT_MAX_TRIES: usize = 10;

} // verus!
