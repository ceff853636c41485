use hitbox::error::CacheError;
use hitbox::settings::{CacheBuilder, CacheSettings, InitialCacheSettings, Status};
use hitbox::states::{CachePolled, CachePolledActual, Initial, UpstreamPolled};
use hitbox::value::{CacheState, CachedValue, TtlSettings};

struct MockAdapter;

fn disabled() -> CacheSettings {
    CacheSettings { cache: Status::Disabled, stale: Status::Disabled, lock: Status::Disabled }
}

#[test]
fn test_cache_actual_debug() {
    let actual = CachePolledActual { adapter: MockAdapter, result: CachedValue::new(41, 0) };
    assert_eq!(actual.name(), "CachePolledActual");
}

#[test]
fn test_cache_disabled_upstream_polled() {
    let initial_state = InitialCacheSettings::from(disabled());
    let initial_state = Initial { adapter: MockAdapter, settings: initial_state };
    assert!(!initial_state.polls_cache_first());
    let result = match initial_state.poll_upstream(Ok(42)) {
        UpstreamPolled::Successful(state) => state.finish().result(),
        UpstreamPolled::Error(error) => error.finish().result(),
    };
    assert_eq!(result.unwrap(), 42);
}

#[test]
fn test_cache_disabled_upstream_error() {
    let initial_state = InitialCacheSettings::from(disabled());
    let initial_state = Initial { adapter: MockAdapter, settings: initial_state };
    let result = match initial_state.poll_upstream::<i32>(Err(CacheError::UpstreamError("down".to_owned()))) {
        UpstreamPolled::Successful(state) => state.finish().result(),
        UpstreamPolled::Error(error) => error.finish().result(),
    };
    assert!(result.is_err());
}

#[test]
fn settings_flatten() {
    let e = Status::Enabled;
    let d = Status::Disabled;
    let f = |cache, stale, lock| InitialCacheSettings::from(CacheSettings { cache, stale, lock });
    assert_eq!(f(d, e, e), InitialCacheSettings::Disabled);
    assert_eq!(f(e, d, d), InitialCacheSettings::Enabled);
    assert_eq!(f(e, e, d), InitialCacheSettings::Stale);
    assert_eq!(f(e, d, e), InitialCacheSettings::Lock);
    assert_eq!(f(e, e, e), InitialCacheSettings::StaleLock);
    assert_eq!(InitialCacheSettings::from(CacheSettings::new()), InitialCacheSettings::Enabled);
}

#[test]
fn cache_polled_nodes() {
    let initial = Initial::new(InitialCacheSettings::Enabled, MockAdapter);
    assert!(initial.polls_cache_first());
    match initial.poll_cache(Ok(CacheState::Actual(CachedValue::new(5, 1)))) {
        CachePolled::Actual(n) => assert_eq!(n.finish().result(), Ok(5)),
        _ => panic!("expected an actual hit"),
    }
    let initial = Initial::new(InitialCacheSettings::Stale, MockAdapter);
    match initial.poll_cache(Ok(CacheState::Stale(CachedValue::new(6, 1)))) {
        CachePolled::Stale(n) => assert_eq!(n.finish().result(), Ok(6)),
        _ => panic!("expected a stale hit"),
    }
    let initial = Initial::new(InitialCacheSettings::Enabled, MockAdapter);
    match initial.poll_cache::<i32>(Err(CacheError::BackendError("refused".to_owned()))) {
        CachePolled::Error(n) => match n.poll_upstream(Ok(7)) {
            UpstreamPolled::Successful(s) => {
                let updated = s.update_cache(30);
                assert_eq!(updated.result, CachedValue::new(7, 30));
                let fin = updated.finish(Err(CacheError::BackendError("write".to_owned())));
                assert_eq!(fin.result(), Ok(7));
            }
            UpstreamPolled::Error(_) => panic!("expected success"),
        },
        _ => panic!("expected a cache error"),
    }
    let initial = Initial::new(InitialCacheSettings::Enabled, MockAdapter);
    match initial.poll_cache::<i32>(Ok(CacheState::Miss)) {
        CachePolled::Miss(n) => assert!(matches!(n.poll_upstream::<i32>(Ok(1)), UpstreamPolled::Successful(_))),
        _ => panic!("expected a miss"),
    }
}

#[test]
fn builder_defaults_and_options() {
    let b = CacheBuilder::new();
    assert_eq!(b.settings(), CacheSettings::new());
    assert_eq!(b.ttl_settings(), TtlSettings { ttl: 60, stale_ttl: 55 });
    assert_eq!(b.lock_ttl, 10);
    assert_eq!(b.key_prefix, "");
    let p = b.policy();
    assert_eq!(p.settings, InitialCacheSettings::Enabled);
    assert_eq!(p.lock_ttl_ms, 10_000);

    let b = CacheBuilder::new()
        .stale(Status::Enabled)
        .lock(Status::Enabled)
        .lock_ttl(1)
        .key_prefix("svc".to_owned())
        .default_ttl(3)
        .default_stale_ttl(9);
    assert_eq!(b.policy().settings, InitialCacheSettings::StaleLock);
    assert_eq!(b.policy().lock_ttl_ms, 1000);
    assert_eq!(b.ttl_settings(), TtlSettings { ttl: 3, stale_ttl: 3 });
    assert_eq!(b.key_prefix, "svc");
    let b = CacheBuilder::new().default_ttl(4);
    assert_eq!(b.ttl_settings(), TtlSettings { ttl: 4, stale_ttl: 0 });
    let b = CacheBuilder::new().cache(Status::Disabled).stale(Status::Enabled);
    assert_eq!(b.policy().settings, InitialCacheSettings::Disabled);
}

#[test]
fn key_error_ends_the_walk() {
    let initial = Initial::new(InitialCacheSettings::Enabled, MockAdapter);
    let err = CacheError::KeyGenerationError("no key".to_owned());
    match initial.poll_cache::<i32>(Err(err.clone())) {
        CachePolled::KeyGeneration(n) => assert_eq!(n.finish::<i32>().result(), Err(err)),
        _ => panic!("expected the walk to end with the key error"),
    }
}
