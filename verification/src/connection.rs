//! The capability a pooled resource must offer: a non-blocking liveness probe.

use vstd::prelude::*;

verus! {

/// What one invocation of a liveness probe reported.
pub enum Probe<E> {
    /// The probe finished: the resource is usable (`true`) or not (`false`).
    Ready(bool),
    /// The probe finished with an error.
    Failed(E),
    /// The answer is not known yet; probe again later.
    Pending,
}

/// A resource that can report its own liveness without blocking.
///
/// Implementations are supplied by users of the pool; the pool relies on no
/// property of the probe beyond its type, and its contracts hold for every
/// answer a probe could give.
pub trait Connection<E>: Sized {
    /// One non-blocking liveness check.
    fn test_poll(&mut self) -> Probe<E>;
}

} // verus!
