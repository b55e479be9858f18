use cloud_storage_proxy::address::parse_byte_exec;
use cloud_storage_proxy::config::{effective_caching, BucketConfiguration, Caching, Config};
use cloud_storage_proxy::config::RateLimitingConfiguration;
use cloud_storage_proxy::rate_limiting::local::LocalRateLimiter;
use cloud_storage_proxy::rate_limiting::messages::{GetRateLimitingStats, PutRateLimitingStats};
use cloud_storage_proxy::rate_limiting::rate_limiting::{RateLimiterInstance, RateLimiting};

fn empty_caching() -> Caching {
    Caching { caching_type: None, ttl: None, capacity: None, host: None, port: None }
}

fn bucket(host: &str, cache_name: Option<&str>, over: Option<Caching>) -> BucketConfiguration {
    BucketConfiguration {
        host: host.to_string(),
        bucket: Some(format!("bucket-{}", host)),
        index: None,
        not_found: None,
        cache_name: cache_name.map(|s| s.to_string()),
        headers: None,
        cache_override: over,
    }
}

fn config(caching: Vec<(String, Caching)>, buckets: Vec<(String, BucketConfiguration)>) -> Config {
    Config {
        service_account_key: None,
        service_account_key_file: None,
        bind_address: None,
        port: None,
        caching: Some(caching),
        buckets: Some(buckets),
    }
}

#[test]
fn override_replaces_only_set_fields() {
    let mut global = empty_caching();
    global.caching_type = Some("local".to_string());
    global.capacity = Some(100);
    let mut over = empty_caching();
    over.ttl = Some(60);
    let merged = global.overridden_by(&over);
    assert_eq!(merged.caching_type, Some("local".to_string()));
    assert_eq!(merged.capacity, Some(100));
    assert_eq!(merged.ttl, Some(60));
    assert_eq!(merged.host, None);
    assert_eq!(merged.port, None);
}

#[test]
fn override_wins_over_global_value() {
    let mut global = empty_caching();
    global.caching_type = Some("local".to_string());
    global.ttl = Some(3600);
    let mut over = empty_caching();
    over.caching_type = Some("remote".to_string());
    over.ttl = Some(5);
    let merged = global.overridden_by(&over);
    assert_eq!(merged.caching_type, Some("remote".to_string()));
    assert_eq!(merged.ttl, Some(5));
}

#[test]
fn effective_settings_with_one_side_missing() {
    let mut over = empty_caching();
    over.capacity = Some(7);
    assert_eq!(effective_caching(None, Some(&over)).unwrap().capacity, Some(7));
    assert_eq!(effective_caching(Some(&over), None).unwrap().capacity, Some(7));
    assert!(effective_caching(None, None).is_none());
}

#[test]
fn bucket_settings_resolve_through_the_named_cache() {
    let mut global = empty_caching();
    global.caching_type = Some("local".to_string());
    global.capacity = Some(100);
    let mut over = empty_caching();
    over.ttl = Some(60);
    let cfg = config(vec![("main".to_string(), global)], vec![]);
    let b = bucket("a.com", Some("main"), Some(over));
    let eff = cfg.caching_for_bucket(&b).unwrap();
    assert_eq!(eff.caching_type, Some("local".to_string()));
    assert_eq!(eff.capacity, Some(100));
    assert_eq!(eff.ttl, Some(60));
    let plain = bucket("b.com", Some("main"), None);
    assert_eq!(cfg.caching_for_bucket(&plain).unwrap().ttl, None);
    let none = bucket("c.com", Some("other"), None);
    assert!(cfg.caching_for_bucket(&none).is_none());
}

#[test]
fn bucket_found_by_host() {
    let cfg = config(
        vec![],
        vec![
            ("one".to_string(), bucket("a.com", None, None)),
            ("two".to_string(), bucket("b.com", None, None)),
        ],
    );
    assert_eq!(cfg.bucket_configuration_by_host("b.com").unwrap().bucket, Some("bucket-b.com".to_string()));
    assert!(cfg.bucket_configuration_by_host("c.com").is_none());
    let mut no_buckets = config(vec![], vec![]);
    no_buckets.buckets = None;
    assert!(no_buckets.bucket_configuration_by_host("a.com").is_none());
}

#[test]
fn rate_limiter_counts_per_bucket_and_client() {
    let mut limiter = LocalRateLimiter::new();
    let put = |b: &str, c: &str| PutRateLimitingStats { bucket: b.to_string(), client: c.to_string() };
    let get = |b: &str, c: &str| GetRateLimitingStats { bucket: b.to_string(), client: c.to_string() };
    limiter.handle(put("b", "1.2.3.4"));
    limiter.handle(put("b", "1.2.3.4"));
    limiter.handle(put("b", "5.6.7.8"));
    assert_eq!(limiter.requests(&get("b", "1.2.3.4")).requests, 2);
    assert_eq!(limiter.requests(&get("b", "5.6.7.8")).requests, 1);
    assert_eq!(limiter.requests(&get("other", "1.2.3.4")).requests, 0);
    let e = limiter.requests(&get("b", "5.6.7.8"));
    assert_eq!((e.bucket.as_str(), e.client.as_str()), ("b", "5.6.7.8"));
}

#[test]
fn rate_limiters_made_from_configuration() {
    let limiters = RateLimiting::new(&vec![
        ("l".to_string(), RateLimitingConfiguration { rate_limiting_type: Some("local".to_string()) }),
        ("r".to_string(), RateLimitingConfiguration { rate_limiting_type: Some("redis".to_string()) }),
        ("n".to_string(), RateLimitingConfiguration { rate_limiting_type: None }),
    ]);
    assert!(matches!(limiters.get_rate_limiter("l"), Some(RateLimiterInstance::LocalRateLimiter(_))));
    assert!(limiters.get_rate_limiter("r").is_none());
    assert!(limiters.get_rate_limiter("n").is_none());
}

fn with_bind(address: Option<&str>) -> Config {
    let mut c = config(vec![], vec![]);
    c.bind_address = address.map(|s| s.to_string());
    c
}

#[test]
fn bind_address_reads_four_bytes() {
    assert_eq!(with_bind(Some("127.0.0.1")).ip_addr(), Some([127, 0, 0, 1]));
    assert_eq!(with_bind(None).ip_addr(), Some([0, 0, 0, 0]));
    assert_eq!(with_bind(Some("+10.0.0.255")).ip_addr(), Some([10, 0, 0, 255]));
}

#[test]
fn bind_address_skips_parts_that_are_not_bytes() {
    assert_eq!(with_bind(Some("1.2.x.3.4")).ip_addr(), Some([1, 2, 3, 4]));
    assert_eq!(with_bind(Some("1.2.256.4")).ip_addr(), None);
    assert_eq!(with_bind(Some("1.2.3")).ip_addr(), None);
    assert_eq!(with_bind(Some("")).ip_addr(), None);
    assert_eq!(with_bind(Some("1..2.3.4")).ip_addr(), Some([1, 2, 3, 4]));
    assert_eq!(with_bind(Some("1.2.3.4.5")).ip_addr(), None);
}

#[test]
fn byte_parsing_follows_from_str() {
    for t in ["0", "7", "255", "256", "+1", "+", "-1", "", "00012", "1a", " 1", "999999999999"] {
        assert_eq!(parse_byte_exec(t), t.parse::<u8>().ok(), "{}", t);
    }
}

#[test]
fn rate_limiter_counts_stay_per_key_after_many_requests() {
    let mut limiter = LocalRateLimiter::new();
    for _ in 0..5 {
        limiter.handle(PutRateLimitingStats { bucket: "b".to_string(), client: "c".to_string() });
    }
    let e = limiter.requests(&GetRateLimitingStats { bucket: "b".to_string(), client: "c".to_string() });
    assert_eq!(e.requests, 5);
}
