use vstd::prelude::*;

verus! {

/// Kinds of failure that the cache core tells apart.
#[derive(Debug, Clone, PartialEq, Eq)]
pub enum CacheError {
    /// The request could not produce its cache key; surfaced to the caller.
    KeyGenerationError(String),
    /// The cache store failed; always recovered from inside the walk.
    BackendError(String),
    /// Stored bytes could not be read back; recovered as a miss.
    DeserializeError,
    /// An upstream result could not be encoded; the cache is left alone.
    SerializeError,
    /// The upstream itself failed.
    UpstreamError(String),
}

impl CacheError {
    /// Whether this error may reach the caller at the end of a walk.
    pub fn is_caller_visible(&self) -> (r: bool)
        ensures
            r == (self is KeyGenerationError || self is UpstreamError),
    {
        match self {
            CacheError::KeyGenerationError(_) => true,
            CacheError::UpstreamError(_) => true,
            _ => false,
        }
    }
}

} // verus!
