//! A middleware layer that puts the cache in front of an inner service.
use vstd::prelude::*;

verus! {

/// Builds `CacheService`s around inner services.
#[derive(Debug, Clone, Copy, PartialEq, Eq, Structural)]
pub struct CacheLayer {}

impl CacheLayer {
    pub fn new() -> (r: CacheLayer)
        ensures
            r == (CacheLayer {}),
    {
        CacheLayer {}
    }

    /// Wraps `service`.
    pub fn layer<S>(&self, service: S) -> (r: CacheService<S>)
        ensures
            r.service == service,
    {
        CacheService { service }
    }
}

/// An inner service behind the cache layer.
pub struct CacheService<S> {
    pub service: S,
}

impl<S> CacheService<S> {
    pub fn inner(&self) -> (r: &S)
        ensures
            *r == self.service,
    {
        &self.service
    }

    pub fn inner_mut(&mut self) -> (r: &mut S)
        ensures
            *r == old(self).service,
            final(self).service == *final(r),
    {
        &mut self.service
    }
}

} // verus!
