//! Which upstream results may be stored.
use vstd::prelude::*;

use crate::error::CacheError;
use crate::walk::Event;

verus! {

/// An upstream result type that tells storable outcomes from those returned without
/// touching the store.
pub trait CacheableResponse {
    /// Whether this outcome may be stored.
    spec fn cacheable_spec(&self) -> bool;

    fn is_cacheable(&self) -> (r: bool)
        ensures
            r == self.cacheable_spec(),
    ;
}

/// Only the `Ok` side of a result is stored; an `Err` is handed back and leaves earlier
/// entries in place.
impl<T, E> CacheableResponse for Result<T, E> {
    open spec fn cacheable_spec(&self) -> bool {
        self is Ok
    }

    fn is_cacheable(&self) -> (r: bool) {
        self.is_ok()
    }
}

impl CacheableResponse for i32 {
    open spec fn cacheable_spec(&self) -> bool {
        true
    }

    fn is_cacheable(&self) -> (r: bool) {
        true
    }
}

impl CacheableResponse for i64 {
    open spec fn cacheable_spec(&self) -> bool {
        true
    }

    fn is_cacheable(&self) -> (r: bool) {
        true
    }
}

impl CacheableResponse for u32 {
    open spec fn cacheable_spec(&self) -> bool {
        true
    }

    fn is_cacheable(&self) -> (r: bool) {
        true
    }
}

impl CacheableResponse for u64 {
    open spec fn cacheable_spec(&self) -> bool {
        true
    }

    fn is_cacheable(&self) -> (r: bool) {
        true
    }
}

impl CacheableResponse for String {
    open spec fn cacheable_spec(&self) -> bool {
        true
    }

    fn is_cacheable(&self) -> (r: bool) {
        true
    }
}

/// The event that reports an upstream answer at second `now`; an error is never cacheable.
pub fn upstream_event<T: CacheableResponse>(result: Result<T, CacheError>, now: u64) -> (r: Event<T>)
    ensures
        r matches Event::Upstream { result: res, cacheable, now: n } && res == result && n == now
            && cacheable == (result matches Ok(v) && v.cacheable_spec()),
{
    let cacheable = match &result {
        Ok(v) => v.is_cacheable(),
        Err(_) => false,
    };
    Event::Upstream { result, cacheable, now }
}

} // verus!
