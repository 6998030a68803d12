//! The request-resolution pipeline: the ordered decision logic that, for one
//! requested key, walks the tiers — negative cache, durable store, origin —
//! decides the terminal outcome and the write-back side effects.
//!
//! The machine here is pure: the caller performs each tier's I/O and feeds
//! the answer back as an event. Each tier is consulted at most once per
//! request; there are no retries and no loops.

use crate::cache::CacheStatus;
use crate::text::{seq_eq_ci, str_eq_ci};
use vstd::prelude::*;
use vstd::string::StrSliceExecFns;

verus! {

/// What the negative-cache tier answered.
pub enum NegativeCacheAnswer {
    /// An unexpired negative entry exists: reject at once.
    Reject,
    /// No gating entry: proceed.
    Allow,
    /// The backend could not be consulted: proceed (fail open).
    Unavailable,
}

/// What the store's existence probe answered.
pub enum StoreProbe {
    /// The object exists: fetch it.
    Present,
    /// The object does not exist: fall through to origin.
    Absent,
    /// The probe failed: fall through to origin (fail open).
    Unavailable,
}

/// What the store's fetch answered.
pub enum StoreFetch {
    /// The stored object, already read back through the transform pipeline.
    Data(Vec<u8>),
    /// No object after all, or the payload failed the read-back transform:
    /// fall through to origin (fail open).
    Empty,
    /// The fetch failed: fall through to origin (fail open).
    Unavailable,
}

/// What the origin fetch answered.
pub enum OriginAnswer {
    /// An HTTP response: its status, body and declared content type.
    Response { status: u16, body: Vec<u8>, content_type: Option<String> },
    /// No HTTP response at all: DNS, connection or timeout failure.
    TransportFailure,
}

/// Why a request ends not-found.
#[derive(Clone, Copy, Debug, PartialEq, Eq, Structural)]
pub enum NotFoundReason {
    /// The negative cache gated the key.
    CachedReject,
    /// The origin reported the key absent.
    OriginMissing,
}

/// Why a request ends gateway-error.
#[derive(Clone, Copy, Debug, PartialEq, Eq, Structural)]
pub enum GatewayReason {
    /// The origin answered with this server-error status.
    OriginServerError(u16),
    /// The origin answered with this unexpected status; not cached.
    UnexpectedStatus(u16),
    /// The origin could not be reached.
    TransportFailure,
}

/// A terminal outcome of resolution. These three are the only ones.
pub enum Resolution {
    /// Serve these bytes to the client.
    Serve { body: Vec<u8> },
    /// Answer not-found.
    NotFound(NotFoundReason),
    /// Answer gateway-error.
    GatewayError(GatewayReason),
}

/// A write-back of served bytes into the durable store.
pub struct StorePut {
    pub body: Vec<u8>,
    pub content_type: Option<String>,
}

/// The side effects a transition asks of the caller. They are decoupled from
/// the response: their failure is logged, never surfaced to the client.
pub struct Effects {
    /// Store these bytes under the request's key, in the background.
    pub store_put: Option<StorePut>,
    /// Clear any negative entry for the key.
    pub invalidate: bool,
    /// Record a negative entry of this class for the key.
    pub record: Option<CacheStatus>,
}

/// A transition asking nothing of the caller.
pub open spec fn no_effects(eff: Effects) -> bool {
    &&& eff.store_put is None
    &&& !eff.invalidate
    &&& eff.record is None
}

/// Where resolution stands: which tier is consulted next, or the outcome.
pub enum Phase {
    /// Ask the negative cache whether the key is gated.
    CheckNegativeCache,
    /// Probe the store for the object.
    CheckStoreHead,
    /// Fetch the object from the store.
    CheckStoreGet,
    /// Fetch the object from the origin.
    FetchOrigin,
    /// Resolution is finished; no event fits this phase.
    Done(Resolution),
}

/// One tier's answer, fed back to the machine.
pub enum TierEvent {
    NegativeCache(NegativeCacheAnswer),
    StoreHead(StoreProbe),
    StoreGet(StoreFetch),
    Origin(OriginAnswer),
}

/// The event answers exactly the tier the phase is waiting on. No event
/// fits a finished resolution.
pub open spec fn event_fits(phase: Phase, event: TierEvent) -> bool {
    match (phase, event) {
        (Phase::CheckNegativeCache, TierEvent::NegativeCache(_)) => true,
        (Phase::CheckStoreHead, TierEvent::StoreHead(_)) => true,
        (Phase::CheckStoreGet, TierEvent::StoreGet(_)) => true,
        (Phase::FetchOrigin, TierEvent::Origin(_)) => true,
        _ => false,
    }
}

/// Every resolution starts at the negative-cache tier.
pub fn initial_phase() -> (r: Phase)
    ensures
        r == Phase::CheckNegativeCache,
{
    Phase::CheckNegativeCache
}

/// One transition of the resolution machine. The tier order is fixed:
/// negative cache, then store probe, then store fetch, then origin. Backend
/// failures at the cache and store tiers fall through to the next tier
/// (fail open); only the origin's answer can end in an error outcome.
pub fn step(phase: Phase, event: TierEvent) -> (r: (Phase, Effects))
    requires
        event_fits(phase, event),
    ensures
        ({
            let (next, eff) = r;
            match event {
                TierEvent::NegativeCache(a) => match a {
                    // an unexpired negative entry rejects at once; no
                    // further tier is consulted
                    NegativeCacheAnswer::Reject => next == Phase::Done(
                        Resolution::NotFound(NotFoundReason::CachedReject),
                    ) && no_effects(eff),
                    NegativeCacheAnswer::Allow => next == Phase::CheckStoreHead && no_effects(eff),
                    // fail open: a cache outage degrades to re-checking
                    NegativeCacheAnswer::Unavailable => next == Phase::CheckStoreHead && no_effects(
                        eff,
                    ),
                },
                TierEvent::StoreHead(p) => match p {
                    StoreProbe::Present => next == Phase::CheckStoreGet && no_effects(eff),
                    StoreProbe::Absent => next == Phase::FetchOrigin && no_effects(eff),
                    // fail open: store errors never block origin access
                    StoreProbe::Unavailable => next == Phase::FetchOrigin && no_effects(eff),
                },
                TierEvent::StoreGet(f) => match f {
                    // a store hit serves directly; the origin is never
                    // consulted and nothing is written back
                    StoreFetch::Data(body) => (next matches Phase::Done(
                        Resolution::Serve { body: b },
                    ) && b@ == body@) && no_effects(eff),
                    StoreFetch::Empty => next == Phase::FetchOrigin && no_effects(eff),
                    StoreFetch::Unavailable => next == Phase::FetchOrigin && no_effects(eff),
                },
                TierEvent::Origin(ans) => match ans {
                    OriginAnswer::Response { status, body, content_type } => if status == 200 {
                        // serve, write back to the store, and clear any
                        // stale negative entry
                        &&& (next matches Phase::Done(Resolution::Serve { body: b }) && b@
                            == body@)
                        &&& (eff.store_put matches Some(p) && p.body@ == body@ && p.content_type
                            == content_type)
                        &&& eff.invalidate
                        &&& eff.record is None
                    } else if status == 404 {
                        &&& next == Phase::Done(Resolution::NotFound(NotFoundReason::OriginMissing))
                        &&& eff.store_put is None
                        &&& !eff.invalidate
                        &&& eff.record == Some(CacheStatus::NotFound)
                    } else if status >= 500 {
                        &&& next == Phase::Done(
                            Resolution::GatewayError(GatewayReason::OriginServerError(status)),
                        )
                        &&& eff.store_put is None
                        &&& !eff.invalidate
                        &&& eff.record == Some(CacheStatus::ServerError)
                    } else {
                        // an unexpected status is answered but never cached
                        &&& next == Phase::Done(
                            Resolution::GatewayError(GatewayReason::UnexpectedStatus(status)),
                        )
                        &&& no_effects(eff)
                    },
                    OriginAnswer::TransportFailure => {
                        // a transport failure is remembered like a server
                        // error: transient, under the shorter TTL
                        &&& next == Phase::Done(
                            Resolution::GatewayError(GatewayReason::TransportFailure),
                        )
                        &&& eff.store_put is None
                        &&& !eff.invalidate
                        &&& eff.record == Some(CacheStatus::ServerError)
                    },
                },
            }
        }),
{
    let none_eff = Effects { store_put: None, invalidate: false, record: None };
    match event {
        TierEvent::NegativeCache(a) => match a {
            NegativeCacheAnswer::Reject => (
                Phase::Done(Resolution::NotFound(NotFoundReason::CachedReject)),
                none_eff,
            ),
            NegativeCacheAnswer::Allow => (Phase::CheckStoreHead, none_eff),
            NegativeCacheAnswer::Unavailable => (Phase::CheckStoreHead, none_eff),
        },
        TierEvent::StoreHead(p) => match p {
            StoreProbe::Present => (Phase::CheckStoreGet, none_eff),
            StoreProbe::Absent => (Phase::FetchOrigin, none_eff),
            StoreProbe::Unavailable => (Phase::FetchOrigin, none_eff),
        },
        TierEvent::StoreGet(f) => match f {
            StoreFetch::Data(body) => (Phase::Done(Resolution::Serve { body }), none_eff),
            StoreFetch::Empty => (Phase::FetchOrigin, none_eff),
            StoreFetch::Unavailable => (Phase::FetchOrigin, none_eff),
        },
        TierEvent::Origin(ans) => match ans {
            OriginAnswer::Response { status, body, content_type } => {
                if status == 200 {
                    let mut copy: Vec<u8> = Vec::new();
                    copy.extend_from_slice(body.as_slice());
                    proof {
                        assert(copy@ =~= body@);
                    }
                    (
                        Phase::Done(Resolution::Serve { body }),
                        Effects {
                            store_put: Some(StorePut { body: copy, content_type }),
                            invalidate: true,
                            record: None,
                        },
                    )
                } else if status == 404 {
                    (
                        Phase::Done(Resolution::NotFound(NotFoundReason::OriginMissing)),
                        Effects {
                            store_put: None,
                            invalidate: false,
                            record: Some(CacheStatus::NotFound),
                        },
                    )
                } else if status >= 500 {
                    (
                        Phase::Done(Resolution::GatewayError(GatewayReason::OriginServerError(status))),
                        Effects {
                            store_put: None,
                            invalidate: false,
                            record: Some(CacheStatus::ServerError),
                        },
                    )
                } else {
                    (
                        Phase::Done(Resolution::GatewayError(GatewayReason::UnexpectedStatus(status))),
                        none_eff,
                    )
                }
            },
            OriginAnswer::TransportFailure => (
                Phase::Done(Resolution::GatewayError(GatewayReason::TransportFailure)),
                Effects { store_put: None, invalidate: false, record: Some(CacheStatus::ServerError) },
            ),
        },
    }
}

/// Tier-precedence law, second half: a finished resolution accepts no
/// further event. In particular, once the store serves a hit the machine is
/// done, so the origin can never be consulted for that request.
pub proof fn lemma_done_is_terminal(res: Resolution, event: TierEvent)
    ensures
        !event_fits(Phase::Done(res), event),
{
}

/// The index of the last `'.'` in the sequence, if any.
pub open spec fn spec_last_dot(p: Seq<char>) -> Option<int>
    decreases p.len(),
{
    if p.len() == 0 {
        None
    } else if p[p.len() - 1] == '.' {
        Some(p.len() - 1)
    } else {
        spec_last_dot(p.drop_last())
    }
}

/// The extension a key carries: what follows the last `'.'`, or the whole
/// sequence when it has no dot.
pub open spec fn spec_extension(p: Seq<char>) -> Seq<char> {
    match spec_last_dot(p) {
        Some(i) => p.skip(i + 1),
        None => p,
    }
}

/// The fixed suffix→MIME table, applied to an extension up to ASCII case.
pub open spec fn spec_mime_for_extension(ext: Seq<char>) -> Seq<char> {
    if seq_eq_ci(ext, "jpg"@) || seq_eq_ci(ext, "jpeg"@) {
        "image/jpeg"@
    } else if seq_eq_ci(ext, "png"@) {
        "image/png"@
    } else if seq_eq_ci(ext, "gif"@) {
        "image/gif"@
    } else if seq_eq_ci(ext, "webp"@) {
        "image/webp"@
    } else if seq_eq_ci(ext, "svg"@) {
        "image/svg+xml"@
    } else {
        "application/octet-stream"@
    }
}

/// The content type served for a key: its extension looked up in the table.
pub open spec fn spec_content_type(p: Seq<char>) -> Seq<char> {
    spec_mime_for_extension(spec_extension(p))
}

proof fn lemma_last_dot_witness(p: Seq<char>, k: int)
    requires
        0 <= k < p.len(),
        p[k] == '.',
        forall|j: int| k < j < p.len() ==> p[j] != '.',
    ensures
        spec_last_dot(p) == Some(k),
    decreases p.len(),
{
    if k == p.len() - 1 {
    } else {
        assert(p[p.len() - 1] != '.');
        lemma_last_dot_witness(p.drop_last(), k);
    }
}

proof fn lemma_last_dot_none(p: Seq<char>)
    requires
        forall|j: int| 0 <= j < p.len() ==> p[j] != '.',
    ensures
        spec_last_dot(p) is None,
    decreases p.len(),
{
    if p.len() > 0 {
        lemma_last_dot_none(p.drop_last());
    }
}

/// Looks an extension up in the fixed table, ignoring ASCII case.
fn mime_for_extension(ext: &str) -> (r: &'static str)
    ensures
        r@ == spec_mime_for_extension(ext@),
{
    if str_eq_ci(ext, "jpg") || str_eq_ci(ext, "jpeg") {
        "image/jpeg"
    } else if str_eq_ci(ext, "png") {
        "image/png"
    } else if str_eq_ci(ext, "gif") {
        "image/gif"
    } else if str_eq_ci(ext, "webp") {
        "image/webp"
    } else if str_eq_ci(ext, "svg") {
        "image/svg+xml"
    } else {
        "application/octet-stream"
    }
}

/// The content type served for a key, from its extension: `jpg`/`jpeg`,
/// `png`, `gif`, `webp` and `svg` (in any ASCII case) map to their image
/// types, anything else to the opaque octet-stream type.
pub fn content_type_for(path: &str) -> (r: &'static str)
    ensures
        r@ == spec_content_type(path@),
{
    let n = path.unicode_len();
    let mut i: usize = 0;
    let mut dot: Option<usize> = None;
    while i < n
        invariant
            n == path@.len(),
            0 <= i <= n,
            match dot {
                Some(k) => k < i && path@[k as int] == '.' && (forall|j: int|
                    k < j < i ==> path@[j] != '.'),
                None => forall|j: int| 0 <= j < i ==> path@[j] != '.',
            },
        decreases n - i,
    {
        if path.get_char(i) == '.' {
            dot = Some(i);
        }
        i += 1;
    }
    match dot {
        Some(k) => {
            proof {
                lemma_last_dot_witness(path@, k as int);
            }
            let ext = path.substring_char(k + 1, n);
            mime_for_extension(ext)
        },
        None => {
            proof {
                lemma_last_dot_none(path@);
            }
            mime_for_extension(path)
        },
    }
}

/// The cache-control directive on success responses: public, seven days.
pub fn cache_control_value() -> (r: &'static str)
    ensures
        r@ == "public, max-age=604800"@,
{
    "public, max-age=604800"
}

} // verus!
