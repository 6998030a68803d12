use image_proxy::config::{
    default_compression_algorithm, default_compression_level, default_encryption_algorithm,
    parse_bool, parse_u16, parse_u32, parse_u64, Config, ConfigError, RawConfig,
};

fn full_raw() -> RawConfig {
    RawConfig {
        server_host: Some("127.0.0.1".to_string()),
        server_port: Some("8443".to_string()),
        cert_path: Some("/tls/cert.pem".to_string()),
        key_path: Some("/tls/key.pem".to_string()),
        upstream_host: Some("https://origin.example".to_string()),
        upstream_referer: Some("https://referer.example/".to_string()),
        storage_endpoint: Some("https://s3.example".to_string()),
        storage_bucket: Some("images".to_string()),
        storage_region: Some("eu-west-1".to_string()),
        access_key: Some("AK".to_string()),
        secret_key: Some("SK".to_string()),
        encryption_enabled: Some("true".to_string()),
        encryption_algorithm: Some("AES-256-GCM".to_string()),
        encryption_key: Some("somekey".to_string()),
        compression_enabled: Some("true".to_string()),
        compression_algorithm: Some("gzip".to_string()),
        compression_level: Some("9".to_string()),
        redis_url: Some("redis://cache.example".to_string()),
        not_found_ttl: Some("3600".to_string()),
        server_error_ttl: Some("60".to_string()),
    }
}

fn empty_raw() -> RawConfig {
    RawConfig {
        server_host: None,
        server_port: None,
        cert_path: None,
        key_path: None,
        upstream_host: None,
        upstream_referer: None,
        storage_endpoint: None,
        storage_bucket: None,
        storage_region: None,
        access_key: None,
        secret_key: None,
        encryption_enabled: None,
        encryption_algorithm: None,
        encryption_key: None,
        compression_enabled: None,
        compression_algorithm: None,
        compression_level: None,
        redis_url: None,
        not_found_ttl: None,
        server_error_ttl: None,
    }
}

fn required_raw() -> RawConfig {
    RawConfig {
        cert_path: Some("/tls/cert.pem".to_string()),
        key_path: Some("/tls/key.pem".to_string()),
        storage_endpoint: Some("https://s3.example".to_string()),
        storage_bucket: Some("images".to_string()),
        access_key: Some("AK".to_string()),
        secret_key: Some("SK".to_string()),
        redis_url: Some("redis://cache.example".to_string()),
        ..empty_raw()
    }
}

#[test]
fn all_values_are_taken() {
    let c = Config::from_values(full_raw()).unwrap();
    assert_eq!(c.server.host, "127.0.0.1");
    assert_eq!(c.server.port, 8443);
    assert_eq!(c.server.cert_path, "/tls/cert.pem");
    assert_eq!(c.server.key_path, "/tls/key.pem");
    assert_eq!(c.upstream.host, "https://origin.example");
    assert_eq!(c.upstream.referer, "https://referer.example/");
    assert_eq!(c.storage.endpoint, "https://s3.example");
    assert_eq!(c.storage.bucket, "images");
    assert_eq!(c.storage.region, "eu-west-1");
    assert_eq!(c.storage.access_key, "AK");
    assert_eq!(c.storage.secret_key, "SK");
    assert!(c.storage.encryption.enabled);
    assert_eq!(c.storage.encryption.algorithm, "AES-256-GCM");
    assert_eq!(c.storage.encryption.key.as_deref(), Some("somekey"));
    assert!(c.storage.compression.enabled);
    assert_eq!(c.storage.compression.algorithm, "gzip");
    assert_eq!(c.storage.compression.level, 9);
    assert_eq!(c.cache.redis_url, "redis://cache.example");
    assert_eq!(c.cache.not_found_ttl, 3600);
    assert_eq!(c.cache.server_error_ttl, 60);
}

#[test]
fn defaults_fill_the_gaps() {
    let c = Config::from_values(required_raw()).unwrap();
    assert_eq!(c.server.host, "0.0.0.0");
    assert_eq!(c.server.port, 443);
    assert_eq!(c.upstream.host, "https://i.pximg.net");
    assert_eq!(c.upstream.referer, "https://www.pixiv.net/");
    assert_eq!(c.storage.region, "us-east-1");
    assert!(!c.storage.encryption.enabled);
    assert_eq!(c.storage.encryption.algorithm, "AES-256-GCM");
    assert_eq!(c.storage.encryption.key, None);
    assert!(!c.storage.compression.enabled);
    assert_eq!(c.storage.compression.algorithm, "gzip");
    assert_eq!(c.storage.compression.level, 6);
    assert_eq!(c.cache.not_found_ttl, 86400);
    assert_eq!(c.cache.server_error_ttl, 1200);
}

#[test]
fn unparseable_values_fall_back() {
    let raw = RawConfig {
        server_port: Some("not a port".to_string()),
        encryption_enabled: Some("yes".to_string()),
        compression_level: Some("high".to_string()),
        not_found_ttl: Some("1 day".to_string()),
        ..required_raw()
    };
    let c = Config::from_values(raw).unwrap();
    assert_eq!(c.server.port, 443);
    assert!(!c.storage.encryption.enabled);
    assert_eq!(c.storage.compression.level, 6);
    assert_eq!(c.cache.not_found_ttl, 86400);
}

#[test]
fn first_missing_required_value_is_the_error() {
    assert_eq!(
        Config::from_values(empty_raw()).err(),
        Some(ConfigError::MissingCertPath)
    );
    let raw = RawConfig { cert_path: None, ..required_raw() };
    assert_eq!(Config::from_values(raw).err(), Some(ConfigError::MissingCertPath));
    let raw = RawConfig { key_path: None, ..required_raw() };
    assert_eq!(Config::from_values(raw).err(), Some(ConfigError::MissingKeyPath));
    let raw = RawConfig { storage_endpoint: None, ..required_raw() };
    assert_eq!(Config::from_values(raw).err(), Some(ConfigError::MissingStorageEndpoint));
    let raw = RawConfig { storage_bucket: None, ..required_raw() };
    assert_eq!(Config::from_values(raw).err(), Some(ConfigError::MissingStorageBucket));
    let raw = RawConfig { access_key: None, ..required_raw() };
    assert_eq!(Config::from_values(raw).err(), Some(ConfigError::MissingAccessKey));
    let raw = RawConfig { secret_key: None, ..required_raw() };
    assert_eq!(Config::from_values(raw).err(), Some(ConfigError::MissingSecretKey));
    let raw = RawConfig { redis_url: None, ..required_raw() };
    assert_eq!(Config::from_values(raw).err(), Some(ConfigError::MissingCacheUrl));
}

#[test]
fn decimal_parsing() {
    assert_eq!(parse_u64("0"), Some(0));
    assert_eq!(parse_u64("123"), Some(123));
    assert_eq!(parse_u64("+123"), Some(123));
    assert_eq!(parse_u64("18446744073709551615"), Some(u64::MAX));
    assert_eq!(parse_u64("18446744073709551616"), None);
    assert_eq!(parse_u64(""), None);
    assert_eq!(parse_u64("+"), None);
    assert_eq!(parse_u64("-1"), None);
    assert_eq!(parse_u64(" 1"), None);
    assert_eq!(parse_u64("1 "), None);
    assert_eq!(parse_u64("1e3"), None);
    assert_eq!(parse_u64("00042"), Some(42));
}

#[test]
fn narrow_decimal_parsing() {
    assert_eq!(parse_u16("443"), Some(443));
    assert_eq!(parse_u16("65535"), Some(65535));
    assert_eq!(parse_u16("65536"), None);
    assert_eq!(parse_u32("4294967295"), Some(u32::MAX));
    assert_eq!(parse_u32("4294967296"), None);
}

#[test]
fn boolean_parsing() {
    assert_eq!(parse_bool("true"), Some(true));
    assert_eq!(parse_bool("false"), Some(false));
    assert_eq!(parse_bool("True"), None);
    assert_eq!(parse_bool("1"), None);
    assert_eq!(parse_bool(""), None);
}

#[test]
fn stage_defaults() {
    assert_eq!(default_encryption_algorithm(), "AES-256-GCM");
    assert_eq!(default_compression_algorithm(), "gzip");
    assert_eq!(default_compression_level(), 6);
}
