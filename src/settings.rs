use vstd::prelude::*;

use crate::cache::{default_stale_ttl, default_stale_ttl_of, DEFAULT_TTL};
use crate::value::TtlSettings;
use crate::walk::Policy;

verus! {

/// Seconds a dogpile lock is held unless configured otherwise.
pub const DEFAULT_LOCK_TTL: u32 = 10;

/// Whether one cache feature is switched on.
#[derive(Debug, Clone, Copy, PartialEq, Eq, Structural)]
pub enum Status {
    Enabled,
    Disabled,
}

/// The three switches a caller sets for one call.
#[derive(Debug, Clone, Copy, PartialEq, Eq, Structural)]
pub struct CacheSettings {
    pub cache: Status,
    pub stale: Status,
    pub lock: Status,
}

/// The switches flattened into the mode that the `Initial` node dispatches on.
#[derive(Debug, Clone, Copy, PartialEq, Eq, Structural)]
pub enum InitialCacheSettings {
    /// Poll the upstream only; the backend is never touched.
    Disabled,
    /// Read the cache first; poll the upstream on anything but a fresh hit.
    Enabled,
    /// As `Enabled`, but a stale hit is returned at once and refreshed in the background.
    Stale,
    /// As `Enabled`, with a dogpile lock taken before the upstream is polled.
    Lock,
    /// As `Stale`, with a dogpile lock.
    StaleLock,
}

/// The mode that a set of switches selects.
pub open spec fn initial_settings_of(s: CacheSettings) -> InitialCacheSettings {
    match (s.cache, s.stale, s.lock) {
        (Status::Disabled, _, _) => InitialCacheSettings::Disabled,
        (Status::Enabled, Status::Disabled, Status::Disabled) => InitialCacheSettings::Enabled,
        (Status::Enabled, Status::Enabled, Status::Disabled) => InitialCacheSettings::Stale,
        (Status::Enabled, Status::Disabled, Status::Enabled) => InitialCacheSettings::Lock,
        (Status::Enabled, Status::Enabled, Status::Enabled) => InitialCacheSettings::StaleLock,
    }
}

impl CacheSettings {
    /// The defaults: cache on, stale off, lock off.
    pub fn new() -> (r: CacheSettings)
        ensures
            r == (CacheSettings {
                cache: Status::Enabled,
                stale: Status::Disabled,
                lock: Status::Disabled,
            }),
    {
        CacheSettings { cache: Status::Enabled, stale: Status::Disabled, lock: Status::Disabled }
    }
}

impl From<CacheSettings> for InitialCacheSettings {
    fn from(s: CacheSettings) -> (r: InitialCacheSettings) {
        match (s.cache, s.stale, s.lock) {
            (Status::Disabled, _, _) => InitialCacheSettings::Disabled,
            (Status::Enabled, Status::Disabled, Status::Disabled) => InitialCacheSettings::Enabled,
            (Status::Enabled, Status::Enabled, Status::Disabled) => InitialCacheSettings::Stale,
            (Status::Enabled, Status::Disabled, Status::Enabled) => InitialCacheSettings::Lock,
            (Status::Enabled, Status::Enabled, Status::Enabled) => InitialCacheSettings::StaleLock,
        }
    }
}

impl vstd::std_specs::convert::FromSpecImpl<CacheSettings> for InitialCacheSettings {
    open spec fn obeys_from_spec() -> bool {
        true
    }

    open spec fn from_spec(s: CacheSettings) -> InitialCacheSettings {
        initial_settings_of(s)
    }
}

impl InitialCacheSettings {
    /// Whether the backend is read before the upstream.
    pub fn reads_cache(&self) -> (r: bool)
        ensures
            r == !(*self is Disabled),
    {
        !matches!(self, InitialCacheSettings::Disabled)
    }

    /// Whether a stale hit is served at once.
    pub fn serves_stale(&self) -> (r: bool)
        ensures
            r == (*self is Stale || *self is StaleLock),
    {
        matches!(self, InitialCacheSettings::Stale | InitialCacheSettings::StaleLock)
    }

    /// Whether a dogpile lock is taken before the upstream is polled.
    pub fn uses_lock(&self) -> (r: bool)
        ensures
            r == (*self is Lock || *self is StaleLock),
    {
        matches!(self, InitialCacheSettings::Lock | InitialCacheSettings::StaleLock)
    }
}

/// Global cache options, set one by one from the defaults.
pub struct CacheBuilder {
    pub cache: Status,
    pub stale: Status,
    pub lock: Status,
    /// Seconds a dogpile lock is held.
    pub lock_ttl: u32,
    /// A namespace for the runtime's own use; stored keys are laid out by `compose_key`
    /// alone and do not include it.
    pub key_prefix: String,
    /// Time to live behind `ttl_settings`; each request's own `cache_ttl` takes precedence.
    pub default_ttl: u32,
    /// Stale threshold behind `ttl_settings`; `None` means `default_ttl - 5`, never below
    /// zero.
    pub default_stale_ttl: Option<u32>,
}

impl CacheBuilder {
    /// Cache on, stale off, lock off, a ten-second lock, no prefix, sixty seconds to live.
    pub fn new() -> (r: CacheBuilder)
        ensures
            r.cache == Status::Enabled,
            r.stale == Status::Disabled,
            r.lock == Status::Disabled,
            r.lock_ttl == DEFAULT_LOCK_TTL,
            r.key_prefix@.len() == 0,
            r.default_ttl == DEFAULT_TTL,
            r.default_stale_ttl is None,
    {
        CacheBuilder {
            cache: Status::Enabled,
            stale: Status::Disabled,
            lock: Status::Disabled,
            lock_ttl: DEFAULT_LOCK_TTL,
            key_prefix: String::new(),
            default_ttl: DEFAULT_TTL,
            default_stale_ttl: None,
        }
    }

    pub fn cache(self, status: Status) -> (r: CacheBuilder)
        ensures
            r == (CacheBuilder { cache: status, ..self }),
    {
        CacheBuilder { cache: status, ..self }
    }

    pub fn stale(self, status: Status) -> (r: CacheBuilder)
        ensures
            r == (CacheBuilder { stale: status, ..self }),
    {
        CacheBuilder { stale: status, ..self }
    }

    pub fn lock(self, status: Status) -> (r: CacheBuilder)
        ensures
            r == (CacheBuilder { lock: status, ..self }),
    {
        CacheBuilder { lock: status, ..self }
    }

    pub fn lock_ttl(self, seconds: u32) -> (r: CacheBuilder)
        ensures
            r == (CacheBuilder { lock_ttl: seconds, ..self }),
    {
        CacheBuilder { lock_ttl: seconds, ..self }
    }

    pub fn key_prefix(self, prefix: String) -> (r: CacheBuilder)
        ensures
            r == (CacheBuilder { key_prefix: prefix, ..self }),
    {
        CacheBuilder { key_prefix: prefix, ..self }
    }

    pub fn default_ttl(self, seconds: u32) -> (r: CacheBuilder)
        ensures
            r == (CacheBuilder { default_ttl: seconds, ..self }),
    {
        CacheBuilder { default_ttl: seconds, ..self }
    }

    pub fn default_stale_ttl(self, seconds: u32) -> (r: CacheBuilder)
        ensures
            r == (CacheBuilder { default_stale_ttl: Some(seconds), ..self }),
    {
        CacheBuilder { default_stale_ttl: Some(seconds), ..self }
    }

    /// The three switches.
    pub fn settings(&self) -> (r: CacheSettings)
        ensures
            r == (CacheSettings { cache: self.cache, stale: self.stale, lock: self.lock }),
    {
        CacheSettings { cache: self.cache, stale: self.stale, lock: self.lock }
    }

    /// The default eviction settings; an explicit stale threshold above the time to live is
    /// clamped to it.
    pub fn ttl_settings(&self) -> (r: TtlSettings)
        ensures
            r.wf(),
            r.ttl == self.default_ttl,
            r.stale_ttl == match self.default_stale_ttl {
                Some(s) => if s <= self.default_ttl {
                    s
                } else {
                    self.default_ttl
                },
                None => default_stale_ttl_of(self.default_ttl),
            },
    {
        match self.default_stale_ttl {
            Some(s) => TtlSettings::new(self.default_ttl, s),
            None => TtlSettings::new(self.default_ttl, default_stale_ttl(self.default_ttl)),
        }
    }

    /// The mode and lock time to live that walks run under.
    pub fn policy(&self) -> (r: Policy)
        ensures
            r.settings == initial_settings_of(
                CacheSettings { cache: self.cache, stale: self.stale, lock: self.lock },
            ),
            r.lock_ttl_ms == self.lock_ttl as u64 * 1000,
    {
        Policy {
            settings: InitialCacheSettings::from(self.settings()),
            lock_ttl_ms: self.lock_ttl as u64 * 1000,
        }
    }
}

} // verus!
