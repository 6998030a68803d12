//! Configuration for the gateway: server binding, origin, durable store,
//! transform stages and negative cache — and the checked assembly of a
//! `Config` from raw textual values, with the fixed defaults.

use crate::text::str_equal;
use vstd::arithmetic::div_mod::lemma_fundamental_div_mod;
use vstd::prelude::*;
use vstd::string::StrSliceExecFns;
use vstd::string::StringExecFns;

verus! {

/// Where the server listens and where its TLS material lives.
pub struct ServerConfig {
    pub host: String,
    pub port: u16,
    pub cert_path: String,
    pub key_path: String,
}

/// The origin the gateway fetches from, and the referer it must present.
pub struct UpstreamConfig {
    pub host: String,
    pub referer: String,
}

/// The at-rest encryption stage: enabled flag, algorithm name, and the
/// base64-encoded 32-byte key.
pub struct EncryptionConfig {
    pub enabled: bool,
    pub algorithm: String,
    pub key: Option<String>,
}

/// The at-rest compression stage: enabled flag, algorithm name, effort level.
pub struct CompressionConfig {
    pub enabled: bool,
    pub algorithm: String,
    pub level: u32,
}

/// The durable object store: endpoint, bucket, credentials and the transform
/// stages applied to objects crossing into it.
pub struct StorageConfig {
    pub endpoint: String,
    pub bucket: String,
    pub region: String,
    pub access_key: String,
    pub secret_key: String,
    pub encryption: EncryptionConfig,
    pub compression: CompressionConfig,
}

/// The negative cache backend and its two time-to-live windows, in seconds.
pub struct CacheConfig {
    pub redis_url: String,
    pub not_found_ttl: u64,
    pub server_error_ttl: u64,
}

/// The whole configuration surface of the gateway.
pub struct Config {
    pub server: ServerConfig,
    pub upstream: UpstreamConfig,
    pub storage: StorageConfig,
    pub cache: CacheConfig,
}

/// The encryption algorithm assumed when none is named.
pub fn default_encryption_algorithm() -> (r: String)
    ensures
        r@ == "AES-256-GCM"@,
{
    String::from_str("AES-256-GCM")
}

/// The compression algorithm assumed when none is named.
pub fn default_compression_algorithm() -> (r: String)
    ensures
        r@ == "gzip"@,
{
    String::from_str("gzip")
}

/// The compression effort level assumed when none is given.
pub fn default_compression_level() -> (r: u32)
    ensures
        r == 6,
{
    6
}

impl EncryptionConfig {
    /// A field-for-field copy.
    pub fn duplicate(&self) -> (r: Self)
        ensures
            r == *self,
    {
        EncryptionConfig {
            enabled: self.enabled,
            algorithm: self.algorithm.clone(),
            key: match &self.key {
                Some(s) => Some(s.clone()),
                None => None,
            },
        }
    }
}

impl CompressionConfig {
    /// A field-for-field copy.
    pub fn duplicate(&self) -> (r: Self)
        ensures
            r == *self,
    {
        CompressionConfig {
            enabled: self.enabled,
            algorithm: self.algorithm.clone(),
            level: self.level,
        }
    }
}

impl core::default::Default for EncryptionConfig {
    /// Encryption is off unless configured; the algorithm name defaults.
    fn default() -> (r: Self)
        ensures
            !r.enabled,
            r.algorithm@ == "AES-256-GCM"@,
            r.key is None,
    {
        EncryptionConfig { enabled: false, algorithm: default_encryption_algorithm(), key: None }
    }
}

impl core::default::Default for CompressionConfig {
    /// Compression is off unless configured; algorithm and level default.
    fn default() -> (r: Self)
        ensures
            !r.enabled,
            r.algorithm@ == "gzip"@,
            r.level == 6,
    {
        CompressionConfig {
            enabled: false,
            algorithm: default_compression_algorithm(),
            level: default_compression_level(),
        }
    }
}

/// The character is a decimal digit.
pub open spec fn is_digit(c: char) -> bool {
    48 <= c as u32 <= 57
}

/// The digit's numeric value.
pub open spec fn digit_val(c: char) -> int {
    c as u32 - 48
}

/// Every character of the sequence is a decimal digit.
pub open spec fn all_digits(s: Seq<char>) -> bool {
    forall|i: int| 0 <= i < s.len() ==> is_digit(s[i])
}

/// The number a sequence of decimal digits denotes.
pub open spec fn digits_value(s: Seq<char>) -> int
    decreases s.len(),
{
    if s.len() == 0 {
        0
    } else {
        digits_value(s.drop_last()) * 10 + digit_val(s.last())
    }
}

proof fn lemma_digits_value_nonneg(s: Seq<char>)
    requires
        all_digits(s),
    ensures
        digits_value(s) >= 0,
    decreases s.len(),
{
    if s.len() > 0 {
        assert(all_digits(s.drop_last()));
        lemma_digits_value_nonneg(s.drop_last());
    }
}

proof fn lemma_digits_value_push(s: Seq<char>, c: char)
    ensures
        digits_value(s.push(c)) == digits_value(s) * 10 + digit_val(c),
{
    assert(s.push(c).drop_last() =~= s);
    assert(s.push(c).last() == c);
}

proof fn lemma_digits_value_prefix_le(t: Seq<char>, m: int)
    requires
        all_digits(t),
        0 <= m <= t.len(),
    ensures
        digits_value(t.take(m)) <= digits_value(t),
    decreases t.len() - m,
{
    if m == t.len() {
        assert(t.take(m) =~= t);
    } else {
        lemma_digits_value_prefix_le(t, m + 1);
        assert(t.take(m + 1).drop_last() =~= t.take(m));
        assert(t.take(m + 1).last() == t[m]);
        assert(all_digits(t.take(m)));
        lemma_digits_value_nonneg(t.take(m));
    }
}

/// The digits of a decimal literal: everything after one leading `+`.
pub open spec fn spec_digits_part(s: Seq<char>) -> Seq<char> {
    if s.len() > 0 && s[0] == '+' {
        s.skip(1)
    } else {
        s
    }
}

/// What parsing a decimal number yields: the digits' value, allowing one
/// leading `+`, when the rest is one or more digits and the value fits;
/// nothing otherwise.
pub open spec fn spec_parse_u64(s: Seq<char>) -> Option<u64> {
    let ds = spec_digits_part(s);
    if ds.len() > 0 && all_digits(ds) && digits_value(ds) <= u64::MAX {
        Some(digits_value(ds) as u64)
    } else {
        None
    }
}

/// Parses a decimal `u64`: one or more digits after an optional leading
/// `+`, rejecting anything else and values past the type's bound.
pub fn parse_u64(s: &str) -> (r: Option<u64>)
    ensures
        r == spec_parse_u64(s@),
{
    let n = s.unicode_len();
    let start: usize = if n > 0 && s.get_char(0) == '+' {
        1
    } else {
        0
    };
    let ghost ds = spec_digits_part(s@);
    if start == n {
        return None;
    }
    let mut acc: u64 = 0;
    let mut i: usize = start;
    while i < n
        invariant
            n == s@.len(),
            start <= i <= n,
            start == 0 || start == 1,
            ds == spec_digits_part(s@),
            ds.len() == n - start,
            forall|j: int| 0 <= j < ds.len() ==> ds[j] == s@[j + start],
            all_digits(ds.take(i - start)),
            acc == digits_value(ds.take(i - start)),
        decreases n - i,
    {
        let c = s.get_char(i);
        let cu = c as u32;
        if !(48 <= cu && cu <= 57) {
            proof {
                assert(ds[i - start] == c);
                assert(!is_digit(ds[i - start]));
                assert(!all_digits(ds));
            }
            return None;
        }
        let d: u64 = ((cu - 48) as u8) as u64;
        let limit: u64 = (u64::MAX - d) / 10;
        proof {
            lemma_fundamental_div_mod((u64::MAX - d) as int, 10);
        }
        if acc > limit {
            proof {
                let p = ds.take(i - start + 1);
                assert(p.drop_last() =~= ds.take(i - start));
                assert(p.last() == c);
                assert(digits_value(p) == acc * 10 + digit_val(c));
                assert(digits_value(p) > u64::MAX);
                if all_digits(ds) {
                    lemma_digits_value_prefix_le(ds, i - start + 1);
                    assert(digits_value(ds) > u64::MAX);
                }
            }
            return None;
        }
        proof {
            lemma_digits_value_push(ds.take(i - start), c);
            assert(ds.take(i - start + 1).drop_last() =~= ds.take(i - start));
            assert(ds.take(i - start + 1) =~= ds.take(i - start).push(c));
        }
        acc = acc * 10 + d;
        i += 1;
    }
    proof {
        assert(ds.take(i - start) =~= ds);
    }
    Some(acc)
}

/// What parsing a decimal `u32` yields: as for `u64`, within the bound.
pub open spec fn spec_parse_u32(s: Seq<char>) -> Option<u32> {
    match spec_parse_u64(s) {
        Some(v) => if v <= u32::MAX {
            Some(v as u32)
        } else {
            None
        },
        None => None,
    }
}

/// Parses a decimal `u32`.
pub fn parse_u32(s: &str) -> (r: Option<u32>)
    ensures
        r == spec_parse_u32(s@),
{
    match parse_u64(s) {
        Some(v) => if v <= u32::MAX as u64 {
            Some(v as u32)
        } else {
            None
        },
        None => None,
    }
}

/// What parsing a decimal `u16` yields: as for `u64`, within the bound.
pub open spec fn spec_parse_u16(s: Seq<char>) -> Option<u16> {
    match spec_parse_u64(s) {
        Some(v) => if v <= u16::MAX {
            Some(v as u16)
        } else {
            None
        },
        None => None,
    }
}

/// Parses a decimal `u16`.
pub fn parse_u16(s: &str) -> (r: Option<u16>)
    ensures
        r == spec_parse_u16(s@),
{
    match parse_u64(s) {
        Some(v) => if v <= u16::MAX as u64 {
            Some(v as u16)
        } else {
            None
        },
        None => None,
    }
}

/// What parsing a boolean yields: exactly `true` or `false`.
pub open spec fn spec_parse_bool(s: Seq<char>) -> Option<bool> {
    if s == "true"@ {
        Some(true)
    } else if s == "false"@ {
        Some(false)
    } else {
        None
    }
}

/// Parses a boolean: exactly `true` or `false`.
pub fn parse_bool(s: &str) -> (r: Option<bool>)
    ensures
        r == spec_parse_bool(s@),
{
    if str_equal(s, "true") {
        Some(true)
    } else if str_equal(s, "false") {
        Some(false)
    } else {
        None
    }
}

/// A required configuration value is missing; the process must not start.
#[derive(Clone, Copy, Debug, PartialEq, Eq, Structural)]
pub enum ConfigError {
    MissingCertPath,
    MissingKeyPath,
    MissingStorageEndpoint,
    MissingStorageBucket,
    MissingAccessKey,
    MissingSecretKey,
    MissingCacheUrl,
}

/// The raw textual values the configuration is assembled from, each absent
/// when its source did not provide it.
pub struct RawConfig {
    pub server_host: Option<String>,
    pub server_port: Option<String>,
    pub cert_path: Option<String>,
    pub key_path: Option<String>,
    pub upstream_host: Option<String>,
    pub upstream_referer: Option<String>,
    pub storage_endpoint: Option<String>,
    pub storage_bucket: Option<String>,
    pub storage_region: Option<String>,
    pub access_key: Option<String>,
    pub secret_key: Option<String>,
    pub encryption_enabled: Option<String>,
    pub encryption_algorithm: Option<String>,
    pub encryption_key: Option<String>,
    pub compression_enabled: Option<String>,
    pub compression_algorithm: Option<String>,
    pub compression_level: Option<String>,
    pub redis_url: Option<String>,
    pub not_found_ttl: Option<String>,
    pub server_error_ttl: Option<String>,
}

/// The value, or the default when it is absent.
pub open spec fn spec_or_default(v: Option<String>, d: Seq<char>) -> Seq<char> {
    match v {
        Some(s) => s@,
        None => d,
    }
}

/// The parsed value; the default when absent or unparseable.
pub open spec fn spec_u16_or(v: Option<String>, d: u16) -> u16 {
    match v {
        Some(s) => match spec_parse_u16(s@) {
            Some(x) => x,
            None => d,
        },
        None => d,
    }
}

/// The parsed value; the default when absent or unparseable.
pub open spec fn spec_u32_or(v: Option<String>, d: u32) -> u32 {
    match v {
        Some(s) => match spec_parse_u32(s@) {
            Some(x) => x,
            None => d,
        },
        None => d,
    }
}

/// The parsed value; the default when absent or unparseable.
pub open spec fn spec_u64_or(v: Option<String>, d: u64) -> u64 {
    match v {
        Some(s) => match spec_parse_u64(s@) {
            Some(x) => x,
            None => d,
        },
        None => d,
    }
}

/// The parsed value; the default when absent or unparseable.
pub open spec fn spec_bool_or(v: Option<String>, d: bool) -> bool {
    match v {
        Some(s) => match spec_parse_bool(s@) {
            Some(x) => x,
            None => d,
        },
        None => d,
    }
}

fn string_or(v: Option<String>, d: &str) -> (r: String)
    ensures
        r@ == spec_or_default(v, d@),
{
    match v {
        Some(s) => s,
        None => String::from_str(d),
    }
}

fn u16_or(v: Option<String>, d: u16) -> (r: u16)
    ensures
        r == spec_u16_or(v, d),
{
    match v {
        Some(s) => match parse_u16(s.as_str()) {
            Some(x) => x,
            None => d,
        },
        None => d,
    }
}

fn u32_or(v: Option<String>, d: u32) -> (r: u32)
    ensures
        r == spec_u32_or(v, d),
{
    match v {
        Some(s) => match parse_u32(s.as_str()) {
            Some(x) => x,
            None => d,
        },
        None => d,
    }
}

fn u64_or(v: Option<String>, d: u64) -> (r: u64)
    ensures
        r == spec_u64_or(v, d),
{
    match v {
        Some(s) => match parse_u64(s.as_str()) {
            Some(x) => x,
            None => d,
        },
        None => d,
    }
}

fn bool_or(v: Option<String>, d: bool) -> (r: bool)
    ensures
        r == spec_bool_or(v, d),
{
    match v {
        Some(s) => match parse_bool(s.as_str()) {
            Some(x) => x,
            None => d,
        },
        None => d,
    }
}

/// The first required value the raw configuration lacks, in a fixed order;
/// `None` when all required values are present.
pub open spec fn spec_missing(raw: RawConfig) -> Option<ConfigError> {
    if raw.cert_path is None {
        Some(ConfigError::MissingCertPath)
    } else if raw.key_path is None {
        Some(ConfigError::MissingKeyPath)
    } else if raw.storage_endpoint is None {
        Some(ConfigError::MissingStorageEndpoint)
    } else if raw.storage_bucket is None {
        Some(ConfigError::MissingStorageBucket)
    } else if raw.access_key is None {
        Some(ConfigError::MissingAccessKey)
    } else if raw.secret_key is None {
        Some(ConfigError::MissingSecretKey)
    } else if raw.redis_url is None {
        Some(ConfigError::MissingCacheUrl)
    } else {
        None
    }
}

impl Config {
    /// Assembles the configuration from raw textual values. TLS material
    /// paths, store endpoint, bucket and credentials, and the cache address
    /// are required — the first one missing is the error. Everything else
    /// takes its fixed default when absent or unparseable.
    pub fn from_values(raw: RawConfig) -> (r: Result<Config, ConfigError>)
        ensures
            match r {
                Ok(c) => {
                    &&& spec_missing(raw) is None
                    &&& c.server.host@ == spec_or_default(raw.server_host, "0.0.0.0"@)
                    &&& c.server.port == spec_u16_or(raw.server_port, 443)
                    &&& Some(c.server.cert_path) == raw.cert_path
                    &&& Some(c.server.key_path) == raw.key_path
                    &&& c.upstream.host@ == spec_or_default(
                        raw.upstream_host,
                        "https://i.pximg.net"@,
                    )
                    &&& c.upstream.referer@ == spec_or_default(
                        raw.upstream_referer,
                        "https://www.pixiv.net/"@,
                    )
                    &&& Some(c.storage.endpoint) == raw.storage_endpoint
                    &&& Some(c.storage.bucket) == raw.storage_bucket
                    &&& c.storage.region@ == spec_or_default(raw.storage_region, "us-east-1"@)
                    &&& Some(c.storage.access_key) == raw.access_key
                    &&& Some(c.storage.secret_key) == raw.secret_key
                    &&& c.storage.encryption.enabled == spec_bool_or(raw.encryption_enabled, false)
                    &&& c.storage.encryption.algorithm@ == spec_or_default(
                        raw.encryption_algorithm,
                        "AES-256-GCM"@,
                    )
                    &&& c.storage.encryption.key == raw.encryption_key
                    &&& c.storage.compression.enabled == spec_bool_or(
                        raw.compression_enabled,
                        false,
                    )
                    &&& c.storage.compression.algorithm@ == spec_or_default(
                        raw.compression_algorithm,
                        "gzip"@,
                    )
                    &&& c.storage.compression.level == spec_u32_or(raw.compression_level, 6)
                    &&& Some(c.cache.redis_url) == raw.redis_url
                    &&& c.cache.not_found_ttl == spec_u64_or(raw.not_found_ttl, 86400)
                    &&& c.cache.server_error_ttl == spec_u64_or(raw.server_error_ttl, 1200)
                },
                Err(e) => spec_missing(raw) == Some(e),
            },
    {
        let RawConfig {
            server_host,
            server_port,
            cert_path,
            key_path,
            upstream_host,
            upstream_referer,
            storage_endpoint,
            storage_bucket,
            storage_region,
            access_key,
            secret_key,
            encryption_enabled,
            encryption_algorithm,
            encryption_key,
            compression_enabled,
            compression_algorithm,
            compression_level,
            redis_url,
            not_found_ttl,
            server_error_ttl,
        } = raw;
        let cert_path = match cert_path {
            Some(v) => v,
            None => {
                return Err(ConfigError::MissingCertPath);
            },
        };
        let key_path = match key_path {
            Some(v) => v,
            None => {
                return Err(ConfigError::MissingKeyPath);
            },
        };
        let endpoint = match storage_endpoint {
            Some(v) => v,
            None => {
                return Err(ConfigError::MissingStorageEndpoint);
            },
        };
        let bucket = match storage_bucket {
            Some(v) => v,
            None => {
                return Err(ConfigError::MissingStorageBucket);
            },
        };
        let access_key = match access_key {
            Some(v) => v,
            None => {
                return Err(ConfigError::MissingAccessKey);
            },
        };
        let secret_key = match secret_key {
            Some(v) => v,
            None => {
                return Err(ConfigError::MissingSecretKey);
            },
        };
        let redis_url = match redis_url {
            Some(v) => v,
            None => {
                return Err(ConfigError::MissingCacheUrl);
            },
        };
        Ok(
            Config {
                server: ServerConfig {
                    host: string_or(server_host, "0.0.0.0"),
                    port: u16_or(server_port, 443),
                    cert_path,
                    key_path,
                },
                upstream: UpstreamConfig {
                    host: string_or(upstream_host, "https://i.pximg.net"),
                    referer: string_or(upstream_referer, "https://www.pixiv.net/"),
                },
                storage: StorageConfig {
                    endpoint,
                    bucket,
                    region: string_or(storage_region, "us-east-1"),
                    access_key,
                    secret_key,
                    encryption: EncryptionConfig {
                        enabled: bool_or(encryption_enabled, false),
                        algorithm: string_or(encryption_algorithm, "AES-256-GCM"),
                        key: encryption_key,
                    },
                    compression: CompressionConfig {
                        enabled: bool_or(compression_enabled, false),
                        algorithm: string_or(compression_algorithm, "gzip"),
                        level: u32_or(compression_level, 6),
                    },
                },
                cache: CacheConfig {
                    redis_url,
                    not_found_ttl: u64_or(not_found_ttl, 86400),
                    server_error_ttl: u64_or(server_error_ttl, 1200),
                },
            },
        )
    }
}

} // verus!
