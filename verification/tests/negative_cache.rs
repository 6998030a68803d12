use image_proxy::cache::{backend_key_for, BackendRead, CacheStatus, KVStore};
use image_proxy::config::CacheConfig;

fn cache_config() -> CacheConfig {
    CacheConfig {
        redis_url: "redis://localhost:6379".to_string(),
        not_found_ttl: 86400,
        server_error_ttl: 1200,
    }
}

#[test]
fn status_encoding_round_trips() {
    for status in [CacheStatus::NotFound, CacheStatus::ServerError] {
        let value = status.encoded();
        assert_eq!(CacheStatus::parse(&value), Some(status));
    }
}

#[test]
fn status_encoding_values() {
    assert_eq!(CacheStatus::NotFound.encoded(), "\"NotFound\"");
    assert_eq!(CacheStatus::ServerError.encoded(), "\"ServerError\"");
}

#[test]
fn unknown_values_parse_to_nothing() {
    assert_eq!(CacheStatus::parse(""), None);
    assert_eq!(CacheStatus::parse("NotFound"), None);
    assert_eq!(CacheStatus::parse("\"Gone\""), None);
}

#[test]
fn gating_on_stored_statuses() {
    let store = KVStore::new(&cache_config());
    assert!(store.should_reject(&BackendRead::Value("\"NotFound\"".to_string())));
    assert!(store.should_reject(&BackendRead::Value("\"ServerError\"".to_string())));
    assert!(!store.should_reject(&BackendRead::Value("garbage".to_string())));
    assert!(!store.should_reject(&BackendRead::Missing));
}

#[test]
fn unreachable_backend_fails_open() {
    let store = KVStore::new(&cache_config());
    assert!(!store.should_reject(&BackendRead::Unreachable));
}

#[test]
fn backend_key_prefixes_the_path() {
    assert_eq!(backend_key_for("/a/b.png"), "cache:/a/b.png");
    assert_eq!(backend_key_for(""), "cache:");
}

#[test]
fn ttls_follow_the_status_class() {
    let store = KVStore::new(&cache_config());
    assert_eq!(store.ttl_for(CacheStatus::NotFound), 86400);
    assert_eq!(store.ttl_for(CacheStatus::ServerError), 1200);
    // transient failures are remembered for much shorter than absences
    assert!(store.ttl_for(CacheStatus::ServerError) < store.ttl_for(CacheStatus::NotFound));
}
