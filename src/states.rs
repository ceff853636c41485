//! The typed nodes of one walk; each transition consumes its node.
//!
//! Adapter calls happen between nodes: the caller performs the call the node asks for and
//! hands its outcome to the transition.
use vstd::prelude::*;

use crate::error::CacheError;
use crate::settings::InitialCacheSettings;
use crate::value::{CacheState, CachedValue};

verus! {

/// The end of a walk: the value or the error the caller receives.
pub struct Finish<T> {
    pub result: Result<T, CacheError>,
}

impl<T> Finish<T> {
    pub fn result(self) -> (r: Result<T, CacheError>)
        ensures
            r == self.result,
    {
        self.result
    }
}

/// The entry node: settings decide whether the cache or the upstream is polled first.
pub struct Initial<A> {
    pub settings: InitialCacheSettings,
    pub adapter: A,
}

impl<A> Initial<A> {
    pub fn new(settings: InitialCacheSettings, adapter: A) -> (r: Initial<A>)
        ensures
            r.settings == settings,
            r.adapter == adapter,
    {
        Initial { settings, adapter }
    }

    /// Whether this walk starts with a cache read (otherwise with the upstream).
    pub fn polls_cache_first(&self) -> (r: bool)
        ensures
            r == !(self.settings is Disabled),
    {
        self.settings.reads_cache()
    }

    /// The node reached once the upstream answered with `outcome`.
    pub fn poll_upstream<T>(self, outcome: Result<T, CacheError>) -> (r: UpstreamPolled<A, T>)
        ensures
            upstream_polled_from(self.adapter, outcome, r),
    {
        upstream_polled(self.adapter, outcome)
    }

    /// The node reached once the cache read answered with `outcome`. A request without a key
    /// ends the walk with that error; any other read error is handled as a miss.
    pub fn poll_cache<T>(self, outcome: Result<CacheState<T>, CacheError>) -> (r: CachePolled<A, T>)
        ensures
            match outcome {
                Ok(CacheState::Actual(v)) => r matches CachePolled::Actual(n) && n.adapter
                    == self.adapter && n.result == v,
                Ok(CacheState::Stale(v)) => r matches CachePolled::Stale(n) && n.adapter
                    == self.adapter && n.result == v,
                Ok(CacheState::Miss) => r matches CachePolled::Miss(n) && n.adapter
                    == self.adapter,
                Err(CacheError::KeyGenerationError(m)) => r matches CachePolled::KeyGeneration(n)
                    && n.error == CacheError::KeyGenerationError(m),
                Err(_) => r matches CachePolled::Error(n) && n.adapter == self.adapter,
            },
    {
        match outcome {
            Ok(CacheState::Actual(result)) => CachePolled::Actual(
                CachePolledActual { adapter: self.adapter, result },
            ),
            Ok(CacheState::Stale(result)) => CachePolled::Stale(
                CachePolledStale { adapter: self.adapter, result },
            ),
            Ok(CacheState::Miss) => CachePolled::Miss(CacheMissed { adapter: self.adapter }),
            Err(CacheError::KeyGenerationError(m)) => CachePolled::KeyGeneration(
                UpstreamPolledError { error: CacheError::KeyGenerationError(m) },
            ),
            Err(_) => CachePolled::Error(CacheErrorOccurred { adapter: self.adapter }),
        }
    }
}

/// The upstream answered with a value.
pub struct UpstreamPolledSuccessful<A, T> {
    pub adapter: A,
    pub result: T,
}

impl<A, T> UpstreamPolledSuccessful<A, T> {
    /// Ends the walk with the upstream value, leaving the cache alone.
    pub fn finish(self) -> (r: Finish<T>)
        ensures
            r.result == Ok::<T, CacheError>(self.result),
    {
        Finish { result: Ok(self.result) }
    }

    /// Moves on to writing the value, stamped with its creation second `now`.
    pub fn update_cache(self, now: u64) -> (r: CacheUpdated<A, T>)
        ensures
            r.adapter == self.adapter,
            r.result == (CachedValue { data: self.result, expired: now }),
    {
        CacheUpdated { adapter: self.adapter, result: CachedValue::new(self.result, now) }
    }
}

/// The upstream failed, or the request had no cache key; either way the walk ends with
/// the error.
pub struct UpstreamPolledError {
    pub error: CacheError,
}

impl UpstreamPolledError {
    /// Ends the walk with the upstream's error.
    pub fn finish<T>(self) -> (r: Finish<T>)
        ensures
            r.result == Err::<T, CacheError>(self.error),
    {
        Finish { result: Err(self.error) }
    }
}

/// The two outcomes of polling the upstream.
pub enum UpstreamPolled<A, T> {
    Successful(UpstreamPolledSuccessful<A, T>),
    Error(UpstreamPolledError),
}

/// `r` is the node that an upstream `outcome` leads to.
pub open spec fn upstream_polled_from<A, T>(
    adapter: A,
    outcome: Result<T, CacheError>,
    r: UpstreamPolled<A, T>,
) -> bool {
    match outcome {
        Ok(v) => r matches UpstreamPolled::Successful(n) && n.adapter == adapter && n.result == v,
        Err(e) => r matches UpstreamPolled::Error(n) && n.error == e,
    }
}

fn upstream_polled<A, T>(adapter: A, outcome: Result<T, CacheError>) -> (r: UpstreamPolled<A, T>)
    ensures
        upstream_polled_from(adapter, outcome, r),
{
    match outcome {
        Ok(result) => UpstreamPolled::Successful(UpstreamPolledSuccessful { adapter, result }),
        Err(error) => UpstreamPolled::Error(UpstreamPolledError { error }),
    }
}

/// The cache held a fresh value. This node has no way to the upstream.
pub struct CachePolledActual<A, T> {
    pub adapter: A,
    pub result: CachedValue<T>,
}

impl<A, T> CachePolledActual<A, T> {
    /// Ends the walk with the cached data.
    pub fn finish(self) -> (r: Finish<T>)
        ensures
            r.result == Ok::<T, CacheError>(self.result.data),
    {
        Finish { result: Ok(self.result.data) }
    }

    /// The name of this node, as diagnostics print it.
    pub fn name(&self) -> (r: &'static str)
        ensures
            r@ == "CachePolledActual"@,
    {
        "CachePolledActual"
    }
}

/// The cache held a value past its stale threshold.
pub struct CachePolledStale<A, T> {
    pub adapter: A,
    pub result: CachedValue<T>,
}

impl<A, T> CachePolledStale<A, T> {
    /// Serves the stale data; the caller starts the background refresh.
    pub fn finish(self) -> (r: Finish<T>)
        ensures
            r.result == Ok::<T, CacheError>(self.result.data),
    {
        Finish { result: Ok(self.result.data) }
    }

    /// Treats the stale value as a miss and moves on with the upstream's `outcome`.
    pub fn poll_upstream(self, outcome: Result<T, CacheError>) -> (r: UpstreamPolled<A, T>)
        ensures
            upstream_polled_from(self.adapter, outcome, r),
    {
        upstream_polled(self.adapter, outcome)
    }
}

/// The cache held nothing usable.
pub struct CacheMissed<A> {
    pub adapter: A,
}

impl<A> CacheMissed<A> {
    pub fn poll_upstream<T>(self, outcome: Result<T, CacheError>) -> (r: UpstreamPolled<A, T>)
        ensures
            upstream_polled_from(self.adapter, outcome, r),
    {
        upstream_polled(self.adapter, outcome)
    }
}

/// The cache read failed; handled as a miss.
pub struct CacheErrorOccurred<A> {
    pub adapter: A,
}

impl<A> CacheErrorOccurred<A> {
    pub fn poll_upstream<T>(self, outcome: Result<T, CacheError>) -> (r: UpstreamPolled<A, T>)
        ensures
            upstream_polled_from(self.adapter, outcome, r),
    {
        upstream_polled(self.adapter, outcome)
    }
}

/// The outcomes of polling the cache.
pub enum CachePolled<A, T> {
    Actual(CachePolledActual<A, T>),
    Stale(CachePolledStale<A, T>),
    Miss(CacheMissed<A>),
    Error(CacheErrorOccurred<A>),
    /// The request has no cache key: the walk can only finish with that error.
    KeyGeneration(UpstreamPolledError),
}

/// An upstream value on its way into the store.
pub struct CacheUpdated<A, T> {
    pub adapter: A,
    pub result: CachedValue<T>,
}

impl<A, T> CacheUpdated<A, T> {
    /// Ends the walk once the write was attempted; whether it succeeded does not change
    /// what the caller receives.
    pub fn finish(self, written: Result<(), CacheError>) -> (r: Finish<T>)
        ensures
            r.result == Ok::<T, CacheError>(self.result.data),
    {
        Finish { result: Ok(self.result.data) }
    }
}

} // verus!
