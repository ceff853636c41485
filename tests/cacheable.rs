use hitbox::cache::{compose_key, default_stale_ttl, lock_key, stored_key_from, Cacheable, DEFAULT_TTL};
use hitbox::error::CacheError;
use hitbox::value::{eviction_settings, EvictionPolicy, TtlSettings};

struct Message;

impl Cacheable for Message {
    fn ttl_spec(&self) -> u32 {
        2
    }
    fn cache_key(&self) -> Result<String, CacheError> {
        Ok("Message".to_owned())
    }
    fn cache_key_prefix(&self) -> String {
        "Message".to_owned()
    }
    fn cache_ttl(&self) -> u32 {
        2
    }
}

struct Ping {
    id: i32,
}

impl Cacheable for Ping {
    fn cache_key(&self) -> Result<String, CacheError> {
        Ok(format!("Ping::{}", self.id))
    }
    fn cache_key_prefix(&self) -> String {
        "Ping".to_owned()
    }
    fn cache_ttl(&self) -> u32 {
        DEFAULT_TTL
    }
}

struct Broken;

impl Cacheable for Broken {
    fn ttl_spec(&self) -> u32 {
        10
    }
    fn cache_key(&self) -> Result<String, CacheError> {
        Err(CacheError::KeyGenerationError("no key".to_owned()))
    }
    fn cache_key_prefix(&self) -> String {
        "Broken".to_owned()
    }
    fn cache_ttl(&self) -> u32 {
        10
    }
    fn cache_stale_ttl(&self) -> u32 {
        30
    }
    fn cache_version(&self) -> u32 {
        7
    }
}

#[test]
fn test_cache_stale_ttl_subtract_overflow() {
    let a = Message;
    assert_eq!(0, a.cache_stale_ttl());
}

#[test]
fn default_ttl_and_stale_ttl() {
    let p = Ping { id: 1 };
    assert_eq!(p.cache_ttl(), 60);
    assert_eq!(p.cache_stale_ttl(), 55);
    assert_eq!(p.cache_version(), 0);
}

#[test]
fn default_stale_ttl_edges() {
    assert_eq!(default_stale_ttl(0), 0);
    assert_eq!(default_stale_ttl(4), 0);
    assert_eq!(default_stale_ttl(5), 0);
    assert_eq!(default_stale_ttl(6), 1);
    assert_eq!(default_stale_ttl(u32::MAX), u32::MAX - 5);
}

#[test]
fn stale_ttl_above_ttl_is_clamped() {
    assert_eq!(TtlSettings::new(10, 30), TtlSettings { ttl: 10, stale_ttl: 10 });
    assert_eq!(TtlSettings::new(10, 3), TtlSettings { ttl: 10, stale_ttl: 3 });
    let b = Broken;
    assert_eq!(
        eviction_settings(b.cache_ttl(), b.cache_stale_ttl()),
        EvictionPolicy::Ttl(TtlSettings { ttl: 10, stale_ttl: 10 })
    );
    let m = Message;
    assert_eq!(
        eviction_settings(m.cache_ttl(), m.cache_stale_ttl()),
        EvictionPolicy::Ttl(TtlSettings { ttl: 2, stale_ttl: 0 })
    );
}

#[test]
fn stored_key_layout() {
    let p = Ping { id: 1 };
    assert_eq!(
        stored_key_from(&p.cache_key_prefix(), p.cache_version(), p.cache_key()).unwrap(),
        "Ping::v0::Ping::1"
    );
    assert_eq!(lock_key("Ping::v0::Ping::1"), "lock::Ping::v0::Ping::1");
    assert_eq!(compose_key("database::Query", 12, "id::3"), "database::Query::v12::id::3");
    assert_eq!(compose_key("", 4294967295, ""), "::v4294967295::");
    assert_eq!(compose_key("p", 10, "k"), "p::v10::k");
}

#[test]
fn key_error_is_passed_on() {
    assert_eq!(
        stored_key_from(&Broken.cache_key_prefix(), Broken.cache_version(), Broken.cache_key()),
        Err(CacheError::KeyGenerationError("no key".to_owned()))
    );
    assert_eq!(
        stored_key_from("x", 1, Err(CacheError::SerializeError)),
        Err(CacheError::SerializeError)
    );
}

#[test]
fn caller_visible_errors() {
    assert!(CacheError::KeyGenerationError(String::new()).is_caller_visible());
    assert!(CacheError::UpstreamError(String::new()).is_caller_visible());
    assert!(!CacheError::BackendError(String::new()).is_caller_visible());
    assert!(!CacheError::DeserializeError.is_caller_visible());
    assert!(!CacheError::SerializeError.is_caller_visible());
}
