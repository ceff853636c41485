//! Per-request cache configuration: key, version and time to live.
use vstd::prelude::*;
use vstd::string::StringExecFns;

use crate::error::CacheError;

verus! {

/// Seconds a value lives in the store unless the request says otherwise.
pub const DEFAULT_TTL: u32 = 60;

/// Seconds before eviction at which a value is, by default, no longer fresh.
pub const STALE_WINDOW: u32 = 5;

/// The default stale threshold for a given time to live: `ttl - 5`, never below zero.
pub open spec fn default_stale_ttl_of(ttl: u32) -> u32 {
    if ttl >= STALE_WINDOW {
        (ttl - STALE_WINDOW) as u32
    } else {
        0
    }
}

/// Computes the default stale threshold; short lifetimes give zero instead of wrapping.
pub fn default_stale_ttl(ttl: u32) -> (r: u32)
    ensures
        r == default_stale_ttl_of(ttl),
        r <= ttl,
        ttl < STALE_WINDOW ==> r == 0,
{
    if ttl >= STALE_WINDOW {
        ttl - STALE_WINDOW
    } else {
        0
    }
}

/// Cache configuration of a request type.
pub trait Cacheable {
    /// The time to live, in seconds, that this request value declares; `DEFAULT_TTL` unless
    /// the type declares another.
    open spec fn ttl_spec(&self) -> u32 {
        DEFAULT_TTL
    }

    /// A unique identifier of this request value among values of its type.
    fn cache_key(&self) -> Result<String, CacheError>;

    /// A prefix naming the request type.
    fn cache_key_prefix(&self) -> String;

    /// Seconds the value stays in the store; `DEFAULT_TTL` unless the type needs another.
    fn cache_ttl(&self) -> (r: u32)
        ensures
            r == self.ttl_spec(),
    ;

    /// Seconds after which a stored value counts as stale: by default the time to live less
    /// five seconds, never below zero.
    ///
    /// ```text
    /// |__cache_is_valid__|__cache_is_stale__| -> time
    ///                    ^                  ^
    ///                 stale_ttl       ttl (cache evicted)
    /// ```
    fn cache_stale_ttl(&self) -> (r: u32)
        default_ensures
            r == default_stale_ttl_of(self.ttl_spec()),
            r <= self.ttl_spec(),
    {
        default_stale_ttl(self.cache_ttl())
    }

    /// The version of this type's cached values; raising it invalidates old entries.
    fn cache_version(&self) -> (r: u32)
        default_ensures
            r == 0,
    {
        0
    }
}

/// The one-character text of a decimal digit.
pub open spec fn digit_text(d: nat) -> Seq<char> {
    if d == 0 {
        seq!['0']
    } else if d == 1 {
        seq!['1']
    } else if d == 2 {
        seq!['2']
    } else if d == 3 {
        seq!['3']
    } else if d == 4 {
        seq!['4']
    } else if d == 5 {
        seq!['5']
    } else if d == 6 {
        seq!['6']
    } else if d == 7 {
        seq!['7']
    } else if d == 8 {
        seq!['8']
    } else {
        seq!['9']
    }
}

/// The decimal text of a number, without leading zeros.
pub open spec fn decimal(n: nat) -> Seq<char>
    decreases n,
{
    if n < 10 {
        digit_text(n)
    } else {
        decimal(n / 10) + digit_text(n % 10)
    }
}

/// The key under which a request's value is stored: `"{prefix}::v{version}::{key}"`.
pub open spec fn stored_key_of(prefix: Seq<char>, version: u32, key: Seq<char>) -> Seq<char> {
    prefix + "::v"@ + decimal(version as nat) + "::"@ + key
}

fn append_digit(s: &mut String, d: u32)
    requires
        d < 10,
    ensures
        final(s)@ == old(s)@ + digit_text(d as nat),
{
    proof {
        reveal_strlit("0");
        reveal_strlit("1");
        reveal_strlit("2");
        reveal_strlit("3");
        reveal_strlit("4");
        reveal_strlit("5");
        reveal_strlit("6");
        reveal_strlit("7");
        reveal_strlit("8");
        reveal_strlit("9");
    }
    let t = if d == 0 {
        "0"
    } else if d == 1 {
        "1"
    } else if d == 2 {
        "2"
    } else if d == 3 {
        "3"
    } else if d == 4 {
        "4"
    } else if d == 5 {
        "5"
    } else if d == 6 {
        "6"
    } else if d == 7 {
        "7"
    } else if d == 8 {
        "8"
    } else {
        "9"
    };
    s.append(t);
}

fn append_decimal(s: &mut String, n: u32)
    ensures
        final(s)@ == old(s)@ + decimal(n as nat),
    decreases n,
{
    if n >= 10 {
        append_decimal(s, n / 10);
        append_digit(s, n % 10);
        assert(final(s)@ =~= old(s)@ + decimal(n as nat));
    } else {
        append_digit(s, n);
    }
}

/// Builds the stored key from a prefix, a version and a request's own key.
pub fn compose_key(prefix: &str, version: u32, key: &str) -> (r: String)
    ensures
        r@ == stored_key_of(prefix@, version, key@),
{
    let mut s = String::from_str(prefix);
    s.append("::v");
    append_decimal(&mut s, version);
    s.append("::");
    s.append(key);
    assert(s@ =~= stored_key_of(prefix@, version, key@));
    s
}

/// The stored key of a request, from its `cache_key_prefix`, its `cache_version` and the outcome
/// of its `cache_key`; a key error is passed on unchanged.
pub fn stored_key_from(prefix: &str, version: u32, key: Result<String, CacheError>) -> (r: Result<
    String,
    CacheError,
>)
    ensures
        key is Err ==> r == key,
        key is Ok ==> r is Ok && r->Ok_0@ == stored_key_of(prefix@, version, key->Ok_0@),
{
    match key {
        Ok(k) => Ok(compose_key(prefix, version, k.as_str())),
        Err(e) => Err(e),
    }
}

/// The key of the dogpile lock that guards the stored key `key`.
pub open spec fn lock_key_of(key: Seq<char>) -> Seq<char> {
    "lock::"@ + key
}

/// Builds the lock key for a stored key.
pub fn lock_key(key: &str) -> (r: String)
    ensures
        r@ == lock_key_of(key@),
{
    let mut s = String::from_str("lock::");
    s.append(key);
    s
}

} // verus!
