//! The capability that constructs new pooled resources.

use vstd::prelude::*;

verus! {

/// What one construction step reported.
pub enum Constructed<T, E> {
    /// The new resource is ready.
    Ready(T),
    /// Construction failed.
    Failed(E),
    /// Construction is under way but not finished; step it again later.
    Pending,
}

/// An asynchronous, zero-argument resource constructor, rendered as a
/// non-blocking step: the acquisition state machine starts a construction
/// when nothing is idle and keeps stepping it, turn by turn, while it reports
/// `Pending`.
///
/// Implementations are supplied by users of the pool. A construction failure
/// is terminal for the acquisition attempt that requested it: the factory is
/// never retried by the pool.
pub trait ObjectFactory<T, E>: Sized {
    /// One non-blocking step of constructing a resource.
    fn create(&mut self) -> Constructed<T, E>;
}

} // verus!
