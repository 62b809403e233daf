//! The lease guard: exclusive, returnable ownership of one leased resource.
//!
//! A live guard owns at most one resource. `detach` transfers the resource
//! out permanently; `release` hands a still-attached resource back to a pool.
//! A resource reachable through a live, attached guard is never also in a
//! pool's idle registry: the guard owns it outright.

use vstd::prelude::*;

use crate::pool::Pool;
use crate::pool::same_config;
use crate::pool::stored_after_put;

verus! {

/// A lease: the resource it holds, if it has not been detached yet.
pub struct PoolGuard<T> {
    object: Option<T>,
}

impl<T> View for PoolGuard<T> {
    type V = Option<T>;

    /// The held resource, or `None` after a detach.
    closed spec fn view(&self) -> Option<T> {
        self.object
    }
}

impl<T> PoolGuard<T> {
    /// Wraps a freshly leased resource.
    pub(crate) fn new(object: T) -> (g: Self)
        ensures
            g@ == Some(object),
    {
        PoolGuard { object: Some(object) }
    }

    /// Removes and returns the held resource, disabling any later return to a
    /// pool. Idempotent: a second call yields nothing.
    pub fn detach(&mut self) -> (r: Option<T>)
        ensures
            r == old(self)@,
            final(self)@ is None,
    {
        self.object.take()
    }

    /// A reference to the held resource.
    pub fn resource(&self) -> (r: &T)
        requires
            self@ is Some,
        ensures
            *r == self@->0,
    {
        match &self.object {
            Some(object) => object,
            None => vstd::pervasive::unreached(),
        }
    }

    /// Whether the guard still holds its resource.
    pub fn is_attached(&self) -> (r: bool)
        ensures
            r == (self@ is Some),
    {
        self.object.is_some()
    }

    /// Ends the lease: a still-held resource goes back to `pool` under its
    /// capacity rule; after a detach the pool is left untouched.
    pub fn release<F>(self, pool: &mut Pool<T, F>)
        ensures
            same_config(*old(pool), *final(pool)),
            final(pool).spec_factory() == old(pool).spec_factory(),
            self@ is Some ==> final(pool)@ == stored_after_put(
                old(pool)@,
                old(pool).spec_capacity(),
                self@->0,
            ),
            self@ is None ==> final(pool)@ == old(pool)@,
    {
        match self.object {
            Some(object) => pool.put(object),
            None => {}
        }
    }
}

} // verus!
