//! Retry-delay policies consulted after a failed liveness check.
//!
//! The three stateful cursors come from the `tokio-retry` crate; each is an
//! infinite iterator of delays whose next value is a function of the cursor's
//! fields alone. Verus sees the cursors as opaque values, so the delay that a
//! cursor would yield next is given a name (`exp_peek`, `fib_peek`,
//! `fixed_millis`), and the trusted wrappers below state each call's result
//! over those names.

use tokio_retry::strategy::ExponentialBackoff;
use tokio_retry::strategy::FibonacciBackoff;
use tokio_retry::strategy::FixedInterval;
use vstd::prelude::*;

verus! {

#[verifier::external_type_specification]
#[verifier::external_body]
pub struct ExExponentialBackoff(ExponentialBackoff);

#[verifier::external_type_specification]
#[verifier::external_body]
pub struct ExFibonacciBackoff(FibonacciBackoff);

#[verifier::external_type_specification]
#[verifier::external_body]
pub struct ExFixedInterval(FixedInterval);

/// The delay, in milliseconds, that this exponential cursor yields next.
pub uninterp spec fn exp_peek(cursor: ExponentialBackoff) -> u64;

/// The delay, in milliseconds, that this fibonacci cursor yields next.
pub uninterp spec fn fib_peek(cursor: FibonacciBackoff) -> u64;

/// The interval, in milliseconds, that this fixed cursor yields on every call.
pub uninterp spec fn fixed_millis(cursor: FixedInterval) -> u64;

/// Relies on `<ExponentialBackoff as Iterator>::next` (tokio-retry): it always
/// yields `Some`, and the delay is computed from the cursor's fields alone.
#[verifier::external_body]
fn exp_next(cursor: &mut ExponentialBackoff) -> (r: Option<u64>)
    ensures
        r == Some(exp_peek(*old(cursor))),
{
    match cursor.next() {
        Some(d) => Some(u64::try_from(d.as_millis()).unwrap_or(u64::MAX)),
        None => None,
    }
}

/// Relies on `<FibonacciBackoff as Iterator>::next` (tokio-retry): it always
/// yields `Some`, and the delay is computed from the cursor's fields alone.
#[verifier::external_body]
fn fib_next(cursor: &mut FibonacciBackoff) -> (r: Option<u64>)
    ensures
        r == Some(fib_peek(*old(cursor))),
{
    match cursor.next() {
        Some(d) => Some(u64::try_from(d.as_millis()).unwrap_or(u64::MAX)),
        None => None,
    }
}

/// Relies on `<FixedInterval as Iterator>::next` (tokio-retry): it always
/// yields `Some` of the configured interval and never changes the cursor.
#[verifier::external_body]
fn fixed_next(cursor: &mut FixedInterval) -> (r: Option<u64>)
    ensures
        r == Some(fixed_millis(*old(cursor))),
        fixed_millis(*final(cursor)) == fixed_millis(*old(cursor)),
{
    match cursor.next() {
        Some(d) => Some(u64::try_from(d.as_millis()).unwrap_or(u64::MAX)),
        None => None,
    }
}

/// Relies on `<ExponentialBackoff as Clone>::clone` (derived): the copy has
/// the same fields, so it yields the same next delay.
#[verifier::external_body]
fn exp_clone(cursor: &ExponentialBackoff) -> (r: ExponentialBackoff)
    ensures
        exp_peek(r) == exp_peek(*cursor),
{
    cursor.clone()
}

/// Relies on `<FibonacciBackoff as Clone>::clone` (derived): the copy has the
/// same fields, so it yields the same next delay.
#[verifier::external_body]
fn fib_clone(cursor: &FibonacciBackoff) -> (r: FibonacciBackoff)
    ensures
        fib_peek(r) == fib_peek(*cursor),
{
    cursor.clone()
}

/// Relies on `<FixedInterval as Clone>::clone` (derived): the copy has the
/// same interval.
#[verifier::external_body]
fn fixed_clone(cursor: &FixedInterval) -> (r: FixedInterval)
    ensures
        fixed_millis(r) == fixed_millis(*cursor),
{
    cursor.clone()
}

/// The delay policy a pool is configured with. `Off` disables backoff: retries
/// follow each other without a delay.
pub enum BackoffStrategy {
    Exponential(ExponentialBackoff),
    Fibonacci(FibonacciBackoff),
    Fixed(FixedInterval),
    Off,
}

/// The delay, in milliseconds, that `next_delay` yields from this cursor
/// state, or `None` when backoff is disabled.
pub open spec fn backoff_peek(strategy: BackoffStrategy) -> Option<u64> {
    match strategy {
        BackoffStrategy::Exponential(c) => Some(exp_peek(c)),
        BackoffStrategy::Fibonacci(c) => Some(fib_peek(c)),
        BackoffStrategy::Fixed(c) => Some(fixed_millis(c)),
        BackoffStrategy::Off => None,
    }
}

/// Two strategies of the same variant whose cursors yield the same next delay.
pub open spec fn backoff_matches(a: BackoffStrategy, b: BackoffStrategy) -> bool {
    match (a, b) {
        (BackoffStrategy::Exponential(x), BackoffStrategy::Exponential(y)) => exp_peek(x)
            == exp_peek(y),
        (BackoffStrategy::Fibonacci(x), BackoffStrategy::Fibonacci(y)) => fib_peek(x) == fib_peek(
            y,
        ),
        (BackoffStrategy::Fixed(x), BackoffStrategy::Fixed(y)) => fixed_millis(x) == fixed_millis(
            y,
        ),
        (BackoffStrategy::Off, BackoffStrategy::Off) => true,
        _ => false,
    }
}

impl BackoffStrategy {
    /// An independent copy of this strategy, yielding the same next delay.
    /// Each acquisition attempt starts from such a copy of the pool's
    /// template, so attempts do not share progression state.
    pub fn duplicate(&self) -> (r: Self)
        ensures
            backoff_matches(*self, r),
    {
        match self {
            BackoffStrategy::Exponential(c) => BackoffStrategy::Exponential(exp_clone(c)),
            BackoffStrategy::Fibonacci(c) => BackoffStrategy::Fibonacci(fib_clone(c)),
            BackoffStrategy::Fixed(c) => BackoffStrategy::Fixed(fixed_clone(c)),
            BackoffStrategy::Off => BackoffStrategy::Off,
        }
    }

    /// The next retry delay in milliseconds, advancing the cursor, or `None`
    /// when backoff is disabled. A fixed cursor is unchanged by the call, so
    /// consecutive delays of a fixed strategy are all the same; a disabled
    /// strategy has no cursor to advance.
    pub fn next_delay(&mut self) -> (r: Option<u64>)
        ensures
            r == backoff_peek(*old(self)),
            *old(self) is Fixed ==> backoff_matches(*old(self), *final(self)),
            *old(self) is Off ==> *final(self) == *old(self),
    {
        match self {
            BackoffStrategy::Exponential(c) => exp_next(c),
            BackoffStrategy::Fibonacci(c) => fib_next(c),
            BackoffStrategy::Fixed(c) => fixed_next(c),
            BackoffStrategy::Off => None,
        }
    }
}

} // verus!
