//! The negative cache: a TTL-based key→status store remembering that a key
//! is known absent or that its origin is currently erroring, consulted
//! before any expensive lookup.
//!
//! The backend is a remote key-value store; this module holds the decision
//! logic — what to write, how to read an answer, and the fail-open rule —
//! together with a model of the backend's TTL behaviour and the laws the
//! gateway relies on.

use crate::config::CacheConfig;
use crate::text::str_equal;
use vstd::prelude::*;
use vstd::string::StringExecFns;

verus! {

/// The two remembered failure classes.
#[derive(Clone, Copy, Debug, PartialEq, Eq, Structural)]
pub enum CacheStatus {
    /// The origin reported the key absent.
    NotFound,
    /// The origin failed (server error or transport failure).
    ServerError,
}

impl CacheStatus {
    /// The value stored in the backend for this status.
    pub open spec fn spec_encoded(self) -> Seq<char> {
        match self {
            CacheStatus::NotFound => "\"NotFound\""@,
            CacheStatus::ServerError => "\"ServerError\""@,
        }
    }

    /// Encodes the status as the backend value.
    pub fn encoded(&self) -> (r: String)
        ensures
            r@ == self.spec_encoded(),
    {
        match self {
            CacheStatus::NotFound => String::from_str("\"NotFound\""),
            CacheStatus::ServerError => String::from_str("\"ServerError\""),
        }
    }

    /// The status a backend value names, or `None` for anything else.
    pub open spec fn spec_parse(s: Seq<char>) -> Option<CacheStatus> {
        if s == "\"NotFound\""@ {
            Some(CacheStatus::NotFound)
        } else if s == "\"ServerError\""@ {
            Some(CacheStatus::ServerError)
        } else {
            None
        }
    }

    /// Decodes a backend value; anything unrecognised is no entry.
    pub fn parse(s: &str) -> (r: Option<CacheStatus>)
        ensures
            r == Self::spec_parse(s@),
    {
        if str_equal(s, "\"NotFound\"") {
            Some(CacheStatus::NotFound)
        } else if str_equal(s, "\"ServerError\"") {
            Some(CacheStatus::ServerError)
        } else {
            None
        }
    }
}

/// Encoding and decoding of a status round-trip.
pub proof fn lemma_status_encoding_round_trip(s: CacheStatus)
    ensures
        CacheStatus::spec_parse(s.spec_encoded()) == Some(s),
{
    reveal_strlit("\"NotFound\"");
    reveal_strlit("\"ServerError\"");
    assert("\"NotFound\""@.len() == 10);
    assert("\"ServerError\""@.len() == 13);
}

/// What one read of the backend yielded for a key.
pub enum BackendRead {
    /// The backend holds this value for the key.
    Value(String),
    /// The backend holds no (unexpired) entry for the key.
    Missing,
    /// The backend could not be reached.
    Unreachable,
}

/// The rejection decision for one backend answer: only a value naming one of
/// the two statuses rejects; a missing entry, an unreachable backend or an
/// unrecognised value all allow the request through (fail open).
pub open spec fn spec_should_reject(read: BackendRead) -> bool {
    match read {
        BackendRead::Value(v) => CacheStatus::spec_parse(v@) is Some,
        BackendRead::Missing => false,
        BackendRead::Unreachable => false,
    }
}

/// The key under which a request path is remembered in the backend.
pub fn backend_key_for(path: &str) -> (r: String)
    ensures
        r@ == "cache:"@ + path@,
{
    String::from_str("cache:").concat(path)
}

/// The negative cache's configuration held by the gateway: the two
/// time-to-live windows, in seconds.
pub struct KVStore {
    pub not_found_ttl: u64,
    pub server_error_ttl: u64,
}

impl KVStore {
    /// Takes the two TTL windows from the configuration.
    pub fn new(config: &CacheConfig) -> (r: Self)
        ensures
            r.not_found_ttl == config.not_found_ttl,
            r.server_error_ttl == config.server_error_ttl,
    {
        KVStore {
            not_found_ttl: config.not_found_ttl,
            server_error_ttl: config.server_error_ttl,
        }
    }

    /// The time-to-live written with a status.
    pub open spec fn spec_ttl_for(self, status: CacheStatus) -> u64 {
        match status {
            CacheStatus::NotFound => self.not_found_ttl,
            CacheStatus::ServerError => self.server_error_ttl,
        }
    }

    /// The time-to-live to write with a status: the absent TTL for a
    /// not-found entry, the (typically much shorter) error TTL otherwise.
    pub fn ttl_for(&self, status: CacheStatus) -> (r: u64)
        ensures
            r == self.spec_ttl_for(status),
    {
        match status {
            CacheStatus::NotFound => self.not_found_ttl,
            CacheStatus::ServerError => self.server_error_ttl,
        }
    }

    /// Decides rejection from one backend answer. A backend failure or an
    /// unrecognised value never rejects: a negative-cache outage degrades to
    /// re-checking upstream, never to blocking traffic.
    pub fn should_reject(&self, read: &BackendRead) -> (r: bool)
        ensures
            r == spec_should_reject(*read),
            *read matches BackendRead::Unreachable ==> !r,
            *read matches BackendRead::Missing ==> !r,
    {
        match read {
            BackendRead::Value(v) => CacheStatus::parse(v.as_str()).is_some(),
            BackendRead::Missing => false,
            BackendRead::Unreachable => false,
        }
    }
}

/// An entry as the backend holds it: a status and the instant it expires.
pub struct ModelEntry {
    pub status: CacheStatus,
    pub expires_at: int,
}

/// An entry gates a key at instant `now` iff it exists and is unexpired.
/// Expiry is the backend's own: an entry past its instant counts as absent
/// without any application-level timestamp check.
pub open spec fn model_gates(m: Map<Seq<char>, ModelEntry>, key: Seq<char>, now: int) -> bool {
    m.contains_key(key) && now < m[key].expires_at
}

/// Recording a status writes an entry expiring `ttl` after `now`.
pub open spec fn model_record(
    m: Map<Seq<char>, ModelEntry>,
    key: Seq<char>,
    status: CacheStatus,
    now: int,
    ttl: int,
) -> Map<Seq<char>, ModelEntry> {
    m.insert(key, ModelEntry { status, expires_at: now + ttl })
}

/// Invalidation removes any entry for the key.
pub open spec fn model_invalidate(m: Map<Seq<char>, ModelEntry>, key: Seq<char>) -> Map<
    Seq<char>,
    ModelEntry,
> {
    m.remove(key)
}

/// What a correct, reachable backend answers at instant `now`: the stored
/// value while an unexpired entry exists, and "no entry" otherwise.
pub open spec fn read_matches_model(
    m: Map<Seq<char>, ModelEntry>,
    key: Seq<char>,
    now: int,
    read: BackendRead,
) -> bool {
    if model_gates(m, key, now) {
        read matches BackendRead::Value(v) && v@ == m[key].status.spec_encoded()
    } else {
        read is Missing
    }
}

/// Negative-cache gating law: after a status is recorded for `key` at `now`
/// with time-to-live `ttl`, the cache gates `key` at exactly the instants
/// before `now + ttl`; and after an invalidation the cache never gates
/// `key`, immediately and at every later instant.
pub proof fn lemma_negative_cache_gating(
    m: Map<Seq<char>, ModelEntry>,
    key: Seq<char>,
    status: CacheStatus,
    now: int,
    ttl: int,
    t: int,
)
    ensures
        model_gates(model_record(m, key, status, now, ttl), key, t) == (t < now + ttl),
        !model_gates(model_invalidate(m, key), key, t),
{
}

/// Agreement law: whenever a reachable backend answers as the model says,
/// the rejection decision equals the model's gating — so rejection holds
/// exactly while an unexpired entry exists.
pub proof fn lemma_rejection_matches_model(
    m: Map<Seq<char>, ModelEntry>,
    key: Seq<char>,
    now: int,
    read: BackendRead,
)
    requires
        read_matches_model(m, key, now, read),
    ensures
        spec_should_reject(read) == model_gates(m, key, now),
{
    if model_gates(m, key, now) {
        lemma_status_encoding_round_trip(m[key].status);
    }
}

} // verus!
