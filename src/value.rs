//! Stored values, eviction settings and the freshness classifier.
use vstd::prelude::*;


verus! {

/// Time to live of a stored value, in seconds, and the age after which it is stale.
#[derive(Debug, Clone, Copy, PartialEq, Eq, Structural)]
pub struct TtlSettings {
    pub ttl: u32,
    pub stale_ttl: u32,
}

impl TtlSettings {
    /// A stale threshold never exceeds the time to live.
    pub open spec fn wf(&self) -> bool {
        self.stale_ttl <= self.ttl
    }

    /// Settings from a request's answers; a stale threshold above the time to live is
    /// clamped to it.
    pub fn new(ttl: u32, stale_ttl: u32) -> (r: TtlSettings)
        ensures
            r.wf(),
            r.ttl == ttl,
            r.stale_ttl == if stale_ttl <= ttl {
                stale_ttl
            } else {
                ttl
            },
    {
        if stale_ttl <= ttl {
            TtlSettings { ttl, stale_ttl }
        } else {
            TtlSettings { ttl, stale_ttl: ttl }
        }
    }
}

/// How stored values leave the store.
#[derive(Debug, Clone, Copy, PartialEq, Eq, Structural)]
pub enum EvictionPolicy {
    Ttl(TtlSettings),
}

/// The eviction policy for a request that asks for `ttl` and `stale_ttl` (its `cache_ttl` and
/// `cache_stale_ttl`), with the stale threshold clamped to the time to live.
pub fn eviction_settings(ttl: u32, stale_ttl: u32) -> (r: EvictionPolicy)
    ensures
        r == EvictionPolicy::Ttl(
            TtlSettings {
                ttl,
                stale_ttl: if stale_ttl <= ttl {
                    stale_ttl
                } else {
                    ttl
                },
            },
        ),
{
    EvictionPolicy::Ttl(TtlSettings::new(ttl, stale_ttl))
}

/// A stored value with the second at which it was created.
///
/// `expired` holds the creation instant; the time to live is applied when the value is read.
#[derive(Debug, Clone, PartialEq, Eq)]
pub struct CachedValue<T> {
    pub data: T,
    pub expired: u64,
}

impl<T> CachedValue<T> {
    pub fn new(data: T, expired: u64) -> (r: CachedValue<T>)
        ensures
            r.data == data,
            r.expired == expired,
    {
        CachedValue { data, expired }
    }

    /// The stored data.
    pub fn into_inner(self) -> (r: T)
        ensures
            r == self.data,
    {
        self.data
    }
}

/// What a read of the store found.
#[derive(Debug, Clone, PartialEq, Eq)]
pub enum CacheState<T> {
    /// A value younger than the stale threshold.
    Actual(CachedValue<T>),
    /// A value past the stale threshold but still within its time to live.
    Stale(CachedValue<T>),
    /// Nothing usable.
    Miss,
}

/// How fresh a value created at `created` is at `now`; a tie goes to the fresher side.
pub enum Freshness {
    Actual,
    Stale,
    Expired,
}

pub open spec fn freshness(created: u64, now: u64, settings: TtlSettings) -> Freshness {
    let age = now as int - created as int;
    if age <= settings.stale_ttl {
        Freshness::Actual
    } else if age <= settings.ttl {
        Freshness::Stale
    } else {
        Freshness::Expired
    }
}

/// The classification of an observed value at `now`.
pub open spec fn classify_spec<T>(value: Option<CachedValue<T>>, now: u64, settings: TtlSettings) -> CacheState<T> {
    match value {
        None => CacheState::Miss,
        Some(v) => match freshness(v.expired, now, settings) {
            Freshness::Actual => CacheState::Actual(v),
            Freshness::Stale => CacheState::Stale(v),
            Freshness::Expired => CacheState::Miss,
        },
    }
}

impl<T> CacheState<T> {
    /// Classifies what the store returned: absent or expired is a miss, a value within the
    /// stale threshold is actual, one between the threshold and the time to live is stale.
    pub fn classify(value: Option<CachedValue<T>>, now: u64, settings: TtlSettings) -> (r: CacheState<T>)
        ensures
            r == classify_spec(value, now, settings),
    {
        match value {
            None => CacheState::Miss,
            Some(v) => {
                if now <= v.expired {
                    CacheState::Actual(v)
                } else {
                    let age = now - v.expired;
                    if age <= settings.stale_ttl as u64 {
                        CacheState::Actual(v)
                    } else if age <= settings.ttl as u64 {
                        CacheState::Stale(v)
                    } else {
                        CacheState::Miss
                    }
                }
            },
        }
    }

    pub fn is_miss(&self) -> (r: bool)
        ensures
            r == (*self is Miss),
    {
        matches!(self, CacheState::Miss)
    }
}

} // verus!
