use ccline_quota::quota::{
    hash_api_key, DetectStep, EndpointCache, PackyCodeApiResponse, SmartEndpointDetector,
    Timestamp, CACHE_TTL_SECS,
};

const MAIN: &str = "https://www.packycode.com/api/backend/users/info";
const SHARE: &str = "https://share.packycode.com/api/backend/users/info";

fn at(secs: u64) -> Timestamp {
    Timestamp { secs, nanos: 0 }
}

fn record(key: &str, url: &str, when: Timestamp, count: u32) -> EndpointCache {
    EndpointCache {
        api_key_hash: hash_api_key(key),
        successful_endpoint: url.to_string(),
        last_success_time: when,
        success_count: count,
    }
}

fn response(spent: &str, opus: bool) -> PackyCodeApiResponse {
    PackyCodeApiResponse { daily_spent_usd: spent.to_string(), opus_enabled: opus }
}

#[test]
fn fingerprint_is_deterministic() {
    assert_eq!(hash_api_key("sk-test-123"), hash_api_key("sk-test-123"));
    assert_eq!(hash_api_key(""), hash_api_key(""));
    assert_ne!(hash_api_key("sk-test-123"), hash_api_key("sk-test-124"));
}

#[test]
fn cache_valid_within_ttl_only() {
    let c = record("key", MAIN, at(1_000), 1);
    assert!(c.is_valid("key", at(1_000)));
    assert!(c.is_valid("key", at(1_000 + CACHE_TTL_SECS - 1)));
    assert!(c.is_valid("key", Timestamp { secs: 1_000 + CACHE_TTL_SECS - 1, nanos: 999_999_999 }));
    assert!(!c.is_valid("key", at(1_000 + CACHE_TTL_SECS)));
    assert!(!c.is_valid("key", at(1_000 + CACHE_TTL_SECS + 1)));
}

#[test]
fn cache_invalid_for_other_key_or_future_record() {
    let c = record("key", MAIN, at(1_000), 1);
    assert!(!c.is_valid("other", at(1_001)));
    assert!(!c.is_valid("key", at(999)));
}

#[test]
fn new_detector_lists_main_then_share() {
    let d = SmartEndpointDetector::new(None);
    assert_eq!(d.endpoints.len(), 2);
    assert_eq!(d.endpoints[0].url, MAIN);
    assert_eq!(d.endpoints[0].name, "main");
    assert_eq!(d.endpoints[1].url, SHARE);
    assert_eq!(d.endpoints[1].name, "share");
    assert!(d.cache.is_none());
}

#[test]
fn without_cache_every_endpoint_is_probed_in_order() {
    let mut d = SmartEndpointDetector::new(None);
    let now = at(5_000);
    let mut tried = Vec::new();
    let mut step = d.begin_detection("key", now);
    loop {
        match step {
            DetectStep::TryCached { index } | DetectStep::Probe { index } => {
                tried.push(index);
                step = d.advance(step, "key", now, None);
            }
            _ => break,
        }
    }
    assert_eq!(tried, vec![0, 1]);
    assert!(matches!(step, DetectStep::AllFailed));
    assert!(d.cache.is_none());
}

#[test]
fn cached_success_contacts_only_cached_endpoint() {
    let then = at(10_000);
    let now = at(10_060);
    let mut d = SmartEndpointDetector::new(Some(record("key", SHARE, then, 3)));
    let step = d.begin_detection("key", now);
    assert!(matches!(step, DetectStep::TryCached { index: 1 }));
    let next = d.advance(step, "key", now, Some(response("1.5", true)));
    match next {
        DetectStep::Found { url, response } => {
            assert_eq!(url, SHARE);
            assert_eq!(response.daily_spent_usd, "1.5");
            assert!(response.opus_enabled);
        }
        other => panic!("unexpected step {:?}", other),
    }
    let c = d.cache.as_ref().unwrap();
    assert_eq!(c.successful_endpoint, SHARE);
    assert_eq!(c.success_count, 4);
    assert_eq!(c.last_success_time, now);
    assert_eq!(c.api_key_hash, hash_api_key("key"));
}

#[test]
fn cached_failure_probes_whole_list() {
    let now = at(20_000);
    let mut d = SmartEndpointDetector::new(Some(record("key", SHARE, at(19_000), 7)));
    let mut tried = Vec::new();
    let mut step = d.begin_detection("key", now);
    let mut outcomes = vec![None, None, Some(response("2", false))].into_iter();
    loop {
        match step {
            DetectStep::TryCached { index } | DetectStep::Probe { index } => {
                tried.push(index);
                step = d.advance(step, "key", now, outcomes.next().unwrap());
            }
            _ => break,
        }
    }
    assert_eq!(tried, vec![1, 0, 1]);
    assert!(matches!(step, DetectStep::Found { ref url, .. } if url == SHARE));
    let c = d.cache.as_ref().unwrap();
    assert_eq!(c.success_count, 1);
    assert_eq!(c.last_success_time, now);
}

#[test]
fn fallback_success_replaces_record() {
    let now = at(200_000);
    let stale = record("old-key", SHARE, at(100), 9);
    let mut d = SmartEndpointDetector::new(Some(stale));
    let step = d.begin_detection("new-key", now);
    assert!(matches!(step, DetectStep::Probe { index: 0 }));
    let next = d.advance(step, "new-key", now, Some(response("0", false)));
    assert!(matches!(next, DetectStep::Found { ref url, .. } if url == MAIN));
    let c = d.cache.as_ref().unwrap();
    assert_eq!(c.api_key_hash, hash_api_key("new-key"));
    assert_eq!(c.successful_endpoint, MAIN);
    assert_eq!(c.success_count, 1);
    assert_eq!(c.last_success_time, now);
}

#[test]
fn stale_record_is_skipped() {
    let d = SmartEndpointDetector::new(Some(record("key", SHARE, at(0), 1)));
    let step = d.begin_detection("key", at(CACHE_TTL_SECS + 1));
    assert!(matches!(step, DetectStep::Probe { index: 0 }));
}

#[test]
fn detection_twice_selects_same_endpoint() {
    let now = at(30_000);
    let mut d = SmartEndpointDetector::new(Some(record("key", SHARE, at(29_000), 1)));
    let first = d.begin_detection("key", now);
    assert!(matches!(first, DetectStep::TryCached { index: 1 }));
    let _ = d.advance(first, "key", now, Some(response("3", true)));
    let second = d.begin_detection("key", at(30_001));
    assert!(matches!(second, DetectStep::TryCached { index: 1 }));
}

#[test]
fn success_count_saturates() {
    let now = at(40_000);
    let mut d = SmartEndpointDetector::new(Some(record("key", MAIN, now, u32::MAX)));
    let step = d.begin_detection("key", now);
    let _ = d.advance(step, "key", now, Some(response("1", true)));
    assert_eq!(d.cache.as_ref().unwrap().success_count, u32::MAX);
}
