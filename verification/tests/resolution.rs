use image_proxy::cache::CacheStatus;
use image_proxy::proxy::{
    cache_control_value, content_type_for, initial_phase, step, Effects, GatewayReason,
    NegativeCacheAnswer, NotFoundReason, OriginAnswer, Phase, Resolution, StoreFetch, StoreProbe,
    TierEvent,
};

fn assert_no_effects(eff: &Effects) {
    assert!(eff.store_put.is_none());
    assert!(!eff.invalidate);
    assert!(eff.record.is_none());
}

#[test]
fn cached_reject_short_circuits() {
    let phase = initial_phase();
    let (next, eff) = step(phase, TierEvent::NegativeCache(NegativeCacheAnswer::Reject));
    assert!(matches!(
        next,
        Phase::Done(Resolution::NotFound(NotFoundReason::CachedReject))
    ));
    assert_no_effects(&eff);
}

#[test]
fn negative_cache_outage_fails_open() {
    let (next, eff) = step(
        Phase::CheckNegativeCache,
        TierEvent::NegativeCache(NegativeCacheAnswer::Unavailable),
    );
    assert!(matches!(next, Phase::CheckStoreHead));
    assert_no_effects(&eff);
}

#[test]
fn store_hit_serves_without_origin() {
    // the key is present in the store; resolution must end there
    let (next, eff) = step(Phase::CheckStoreHead, TierEvent::StoreHead(StoreProbe::Present));
    assert!(matches!(next, Phase::CheckStoreGet));
    assert_no_effects(&eff);
    let body = vec![9u8, 8, 7];
    let (next, eff) = step(Phase::CheckStoreGet, TierEvent::StoreGet(StoreFetch::Data(body.clone())));
    match next {
        Phase::Done(Resolution::Serve { body: served }) => assert_eq!(served, body),
        _ => panic!("a store hit must serve directly"),
    }
    assert_no_effects(&eff);
}

#[test]
fn store_failures_fall_through_to_origin() {
    let (next, _) = step(Phase::CheckStoreHead, TierEvent::StoreHead(StoreProbe::Unavailable));
    assert!(matches!(next, Phase::FetchOrigin));
    let (next, _) = step(Phase::CheckStoreHead, TierEvent::StoreHead(StoreProbe::Absent));
    assert!(matches!(next, Phase::FetchOrigin));
    let (next, _) = step(Phase::CheckStoreGet, TierEvent::StoreGet(StoreFetch::Empty));
    assert!(matches!(next, Phase::FetchOrigin));
    let (next, _) = step(Phase::CheckStoreGet, TierEvent::StoreGet(StoreFetch::Unavailable));
    assert!(matches!(next, Phase::FetchOrigin));
}

#[test]
fn origin_success_serves_and_writes_back() {
    // scenario: a key never seen before, origin answers 200 with bytes B
    let body = b"fresh image bytes".to_vec();
    let (next, eff) = step(
        Phase::FetchOrigin,
        TierEvent::Origin(OriginAnswer::Response {
            status: 200,
            body: body.clone(),
            content_type: Some("image/jpeg".to_string()),
        }),
    );
    match next {
        Phase::Done(Resolution::Serve { body: served }) => assert_eq!(served, body),
        _ => panic!("a 200 from origin must serve"),
    }
    let put = eff.store_put.expect("a 200 from origin must be written back");
    assert_eq!(put.body, body);
    assert_eq!(put.content_type.as_deref(), Some("image/jpeg"));
    assert!(eff.invalidate);
    assert_eq!(eff.record, None);

    // a later request for the same key is then served from the store
    let (next, _) = step(Phase::CheckStoreHead, TierEvent::StoreHead(StoreProbe::Present));
    assert!(matches!(next, Phase::CheckStoreGet));
    let (next, eff) = step(Phase::CheckStoreGet, TierEvent::StoreGet(StoreFetch::Data(body.clone())));
    match next {
        Phase::Done(Resolution::Serve { body: served }) => assert_eq!(served, body),
        _ => panic!("the stored copy must serve the repeat request"),
    }
    assert_no_effects(&eff);
}

#[test]
fn origin_not_found_is_remembered() {
    // scenario: the origin answers 404; the absence is recorded
    let (next, eff) = step(
        Phase::FetchOrigin,
        TierEvent::Origin(OriginAnswer::Response { status: 404, body: vec![], content_type: None }),
    );
    assert!(matches!(
        next,
        Phase::Done(Resolution::NotFound(NotFoundReason::OriginMissing))
    ));
    assert!(eff.store_put.is_none());
    assert!(!eff.invalidate);
    assert_eq!(eff.record, Some(CacheStatus::NotFound));

    // a second request inside the TTL window is rejected by the cache alone
    let (next, eff) = step(
        Phase::CheckNegativeCache,
        TierEvent::NegativeCache(NegativeCacheAnswer::Reject),
    );
    assert!(matches!(
        next,
        Phase::Done(Resolution::NotFound(NotFoundReason::CachedReject))
    ));
    assert_no_effects(&eff);
}

#[test]
fn origin_server_error_is_remembered() {
    let (next, eff) = step(
        Phase::FetchOrigin,
        TierEvent::Origin(OriginAnswer::Response { status: 503, body: vec![], content_type: None }),
    );
    match next {
        Phase::Done(Resolution::GatewayError(GatewayReason::OriginServerError(s))) => {
            assert_eq!(s, 503)
        }
        _ => panic!("a 5xx from origin must end gateway-error"),
    }
    assert_eq!(eff.record, Some(CacheStatus::ServerError));
    assert!(eff.store_put.is_none());
    assert!(!eff.invalidate);
}

#[test]
fn origin_transport_failure_is_remembered() {
    // scenario: connection refused; recorded under the short error TTL
    let (next, eff) = step(Phase::FetchOrigin, TierEvent::Origin(OriginAnswer::TransportFailure));
    assert!(matches!(
        next,
        Phase::Done(Resolution::GatewayError(GatewayReason::TransportFailure))
    ));
    assert_eq!(eff.record, Some(CacheStatus::ServerError));
    assert!(eff.store_put.is_none());
    assert!(!eff.invalidate);
}

#[test]
fn unexpected_origin_status_is_not_cached() {
    let (next, eff) = step(
        Phase::FetchOrigin,
        TierEvent::Origin(OriginAnswer::Response { status: 302, body: vec![], content_type: None }),
    );
    match next {
        Phase::Done(Resolution::GatewayError(GatewayReason::UnexpectedStatus(s))) => {
            assert_eq!(s, 302)
        }
        _ => panic!("an unexpected status must end gateway-error"),
    }
    assert_no_effects(&eff);
}

#[test]
fn content_type_follows_the_extension() {
    assert_eq!(content_type_for("/a/b/photo.PNG"), "image/png");
    assert_eq!(content_type_for("/x"), "application/octet-stream");
    assert_eq!(content_type_for("/img/a.jpg"), "image/jpeg");
    assert_eq!(content_type_for("/img/a.JPEG"), "image/jpeg");
    assert_eq!(content_type_for("/img/a.gif"), "image/gif");
    assert_eq!(content_type_for("/img/a.WebP"), "image/webp");
    assert_eq!(content_type_for("/img/a.svg"), "image/svg+xml");
    assert_eq!(content_type_for("/img/a.bmp"), "application/octet-stream");
    assert_eq!(content_type_for("/img/archive.tar.gz"), "application/octet-stream");
    assert_eq!(content_type_for("/img/trailing."), "application/octet-stream");
    assert_eq!(content_type_for(""), "application/octet-stream");
}

#[test]
fn success_cache_directive_is_seven_days() {
    assert_eq!(cache_control_value(), "public, max-age=604800");
}
