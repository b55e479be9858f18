use cloud_storage_proxy::caching::caching::{CacheInstance, CacheScope, Caching};
use cloud_storage_proxy::caching::messages::{CacheEntry, GetCacheEntry, PutCacheEntry};
use cloud_storage_proxy::config;
use cloud_storage_proxy::config::BucketConfiguration;
use cloud_storage_proxy::gcs::{object_url, GCSClientError, GetObjectResult};
use cloud_storage_proxy::proxy::{
    not_found_response, object_name_for_path, response_for_object, Action, Event, ProxyRequest, Response,
};
use std::cell::RefCell;

fn bucket_config(cache_name: Option<&str>, not_found: Option<&str>) -> BucketConfiguration {
    BucketConfiguration {
        host: "example.com".to_string(),
        bucket: Some("b".to_string()),
        index: None,
        not_found: not_found.map(|s| s.to_string()),
        cache_name: cache_name.map(|s| s.to_string()),
        headers: None,
        cache_override: None,
    }
}

fn local_config() -> config::Caching {
    config::Caching {
        caching_type: Some("local".to_string()),
        ttl: None,
        capacity: None,
        host: None,
        port: None,
    }
}

fn registry_with_local(name: &str) -> Caching {
    Caching::new(&vec![(name.to_string(), local_config())], &vec![])
}

fn object(body: &str, headers: &[(&str, &str)]) -> GetObjectResult {
    GetObjectResult {
        body: body.as_bytes().to_vec(),
        headers: headers.iter().map(|(k, v)| (k.to_string(), v.to_string())).collect(),
    }
}

/// Runs one request to its answer, performing each action against the registry's local
/// caches and the given origin.
fn serve(
    config: &BucketConfiguration,
    path: &str,
    registry: &mut Caching,
    origin: &dyn Fn(&str, &str) -> Result<GetObjectResult, GCSClientError>,
) -> Response {
    let (mut req, mut action) = ProxyRequest::start(config, "b", path, registry);
    loop {
        action = match action {
            Action::CacheGet { cache, get } => req.step(Event::CacheReply(registry.send_get_message(cache, &get))),
            Action::FetchObject { bucket, object } => req.step(Event::ObjectReply(origin(&bucket, &object))),
            Action::CachePut { cache, put, response } => {
                assert!(registry.send_put_message(cache, put).is_ok());
                return response;
            }
            Action::Respond { response } => return response,
        }
    }
}

fn cached_body(registry: &Caching, name: &str, key: &str) -> Option<Vec<u8>> {
    let scope = CacheScope::Named(name.to_string());
    let i = registry.find_cache(&scope)?;
    registry
        .send_get_message(i, &GetCacheEntry { bucket: "b".to_string(), key: key.to_string() })
        .ok()
        .map(|e| e.body)
}

#[test]
fn cache_hit_does_not_call_origin() {
    let mut registry = registry_with_local("c");
    let i = registry.find_cache(&CacheScope::Named("c".to_string())).unwrap();
    let put = PutCacheEntry {
        bucket: "b".to_string(),
        key: "file.txt".to_string(),
        entry: CacheEntry::from_body_and_headers(b"X".to_vec(), vec![]),
    };
    assert!(registry.send_put_message(i, put).is_ok());
    let origin = |_: &str, _: &str| -> Result<GetObjectResult, GCSClientError> { panic!("origin must not be called") };
    let r = serve(&bucket_config(Some("c"), None), "/file.txt", &mut registry, &origin);
    assert_eq!(r.status, 200);
    assert_eq!(r.body, b"X".to_vec());
    assert!(r.headers.is_empty());
}

#[test]
fn cache_miss_fetches_and_backfills() {
    let mut registry = registry_with_local("c");
    let calls = RefCell::new(0);
    let origin = |b: &str, o: &str| {
        *calls.borrow_mut() += 1;
        assert_eq!((b, o), ("b", "file.txt"));
        Ok(object("Y", &[("Content-Type", "text/plain")]))
    };
    let r = serve(&bucket_config(Some("c"), None), "/file.txt", &mut registry, &origin);
    assert_eq!(r.status, 200);
    assert_eq!(r.body, b"Y".to_vec());
    assert_eq!(r.headers, vec![("Content-Type".to_string(), "text/plain".to_string())]);
    assert_eq!(*calls.borrow(), 1);
    assert_eq!(cached_body(&registry, "c", "file.txt"), Some(b"Y".to_vec()));
    let again = serve(&bucket_config(Some("c"), None), "/file.txt", &mut registry, &origin);
    assert_eq!(again.body, b"Y".to_vec());
    assert_eq!(*calls.borrow(), 1);
}

#[test]
fn no_cache_name_goes_straight_to_origin() {
    let mut registry = registry_with_local("c");
    let origin = |_: &str, _: &str| Ok(object("Z", &[]));
    let config = bucket_config(None, None);
    let (_, first) = ProxyRequest::start(&config, "b", "/z", &registry);
    assert!(matches!(first, Action::FetchObject { .. }));
    let r = serve(&config, "/z", &mut registry, &origin);
    assert_eq!(r.status, 200);
    assert_eq!(r.body, b"Z".to_vec());
    assert_eq!(cached_body(&registry, "c", "z"), None);
}

#[test]
fn unknown_cache_name_degrades_to_passthrough() {
    let mut registry = registry_with_local("c");
    let origin = |_: &str, _: &str| Ok(object("W", &[]));
    let r = serve(&bucket_config(Some("missing"), None), "/w", &mut registry, &origin);
    assert_eq!(r.status, 200);
    assert_eq!(r.body, b"W".to_vec());
}

#[test]
fn not_found_serves_configured_page_with_404() {
    let mut registry = registry_with_local("c");
    let origin = |_: &str, o: &str| {
        if o == "missing.html" {
            Err(GCSClientError::ObjectNotFound)
        } else if o == "errors/404.html" {
            Ok(object("<h1>404</h1>", &[]))
        } else {
            panic!("unexpected object {}", o)
        }
    };
    let r = serve(&bucket_config(Some("c"), Some("errors/404.html")), "/missing.html", &mut registry, &origin);
    assert_eq!(r.status, 404);
    assert_eq!(r.body, b"<h1>404</h1>".to_vec());
    assert_eq!(cached_body(&registry, "c", "missing.html"), None);
    assert_eq!(cached_body(&registry, "c", "errors/404.html"), None);
}

#[test]
fn not_found_twice_gives_fixed_404() {
    let mut registry = registry_with_local("c");
    let origin = |_: &str, _: &str| Err(GCSClientError::ObjectNotFound);
    let r = serve(&bucket_config(Some("c"), None), "/missing", &mut registry, &origin);
    assert_eq!(r.status, 404);
    assert_eq!(r.body, b"not found.".to_vec());
    assert_eq!(not_found_response().body, b"not found.".to_vec());
}

#[test]
fn not_found_uses_default_page_name() {
    let mut registry = registry_with_local("c");
    let seen = RefCell::new(Vec::new());
    let origin = |_: &str, o: &str| {
        seen.borrow_mut().push(o.to_string());
        Err(GCSClientError::ObjectNotFound)
    };
    serve(&bucket_config(None, None), "/gone", &mut registry, &origin);
    assert_eq!(*seen.borrow(), vec!["gone".to_string(), "404.html".to_string()]);
}

#[test]
fn origin_failure_gives_500() {
    let mut registry = registry_with_local("c");
    let origin = |_: &str, _: &str| Err(GCSClientError::RequestFailed { details: "down".to_string() });
    let r = serve(&bucket_config(Some("c"), None), "/x", &mut registry, &origin);
    assert_eq!(r.status, 500);
    assert_eq!(r.body, b"failed to get gcs object".to_vec());
}

#[test]
fn unexpected_event_gives_500() {
    let registry = registry_with_local("c");
    let (mut req, _) = ProxyRequest::start(&bucket_config(None, None), "b", "/x", &registry);
    match req.step(Event::CacheReply(Ok(CacheEntry::from_body_and_headers(vec![], vec![])))) {
        Action::Respond { response } => assert_eq!(response.status, 500),
        _ => panic!("expected an answer"),
    }
}

#[test]
fn bucket_headers_are_appended() {
    let mut config = bucket_config(None, None);
    config.headers = Some(vec![("cache-control".to_string(), "max-age=60".to_string())]);
    let r = response_for_object(&config, object("B", &[("content-type", "text/html")]));
    assert_eq!(r.status, 200);
    assert_eq!(
        r.headers,
        vec![
            ("content-type".to_string(), "text/html".to_string()),
            ("cache-control".to_string(), "max-age=60".to_string())
        ]
    );
}

#[test]
fn object_names_from_paths() {
    assert_eq!(object_name_for_path("/a/b.txt", "index.html"), "a/b.txt");
    assert_eq!(object_name_for_path("/", "index.html"), "index.html");
    assert_eq!(object_name_for_path("", "index.html"), "index.html");
    assert_eq!(object_name_for_path("/docs/", "index.html"), "docs/index.html");
    assert_eq!(object_name_for_path("//x", "i"), "/x");
    assert_eq!(object_name_for_path("plain", "i"), "plain");
}

#[test]
fn index_object_is_requested_for_directories() {
    let mut registry = registry_with_local("c");
    let mut config = bucket_config(None, None);
    config.index = Some("home.html".to_string());
    let origin = |_: &str, o: &str| {
        assert_eq!(o, "docs/home.html");
        Ok(object("H", &[]))
    };
    assert_eq!(serve(&config, "/docs/", &mut registry, &origin).body, b"H".to_vec());
}

#[test]
fn origin_object_from_status() {
    assert!(matches!(GetObjectResult::new(404, vec![], vec![]), Err(GCSClientError::ObjectNotFound)));
    let o = GetObjectResult::new(200, vec![("a".to_string(), "b".to_string())], vec![9]).ok().unwrap();
    assert_eq!(o.body, vec![9]);
    assert_eq!(object_url("dir/x.png"), "https://c.storage.googleapis.com/dir/x.png");
}

#[test]
fn registry_skips_invalid_configs() {
    let mut bad_type = local_config();
    bad_type.caching_type = Some("memcached".to_string());
    let mut no_type = local_config();
    no_type.caching_type = None;
    let mut remote_without_port = local_config();
    remote_without_port.caching_type = Some("remote".to_string());
    remote_without_port.host = Some("h".to_string());
    let mut remote = remote_without_port.duplicate();
    remote.port = Some(6379);
    remote.ttl = Some(10);
    let registry = Caching::new(
        &vec![
            ("bad".to_string(), bad_type),
            ("none".to_string(), no_type),
            ("half".to_string(), remote_without_port),
            ("local".to_string(), local_config()),
            ("remote".to_string(), remote),
        ],
        &vec![],
    );
    assert!(registry.get_cache("bad").is_none());
    assert!(registry.get_cache("none").is_none());
    assert!(registry.get_cache("half").is_none());
    assert!(matches!(registry.get_cache("local"), Some(CacheInstance::LocalCache(_))));
    match registry.get_cache("remote") {
        Some(CacheInstance::Redis(r)) => {
            assert_eq!(r.host, "h");
            assert_eq!(r.port, 6379);
            assert_eq!(r.ttl, 10);
        }
        _ => panic!("expected a remote cache"),
    }
}

fn overriding_bucket() -> BucketConfiguration {
    let mut bucket = bucket_config(Some("c"), None);
    bucket.cache_override = Some(config::Caching {
        caching_type: None,
        ttl: Some(60),
        capacity: None,
        host: None,
        port: None,
    });
    bucket
}

#[test]
fn bucket_override_gets_its_own_cache() {
    let bucket = overriding_bucket();
    let mut registry = Caching::new(&vec![("c".to_string(), local_config())], &vec![("site".to_string(), overriding_bucket())]);
    let own = registry.cache_for_bucket(&bucket).unwrap();
    let shared = registry.find_cache(&CacheScope::Named("c".to_string())).unwrap();
    assert_ne!(own, shared);
    let origin = |_: &str, _: &str| Ok(object("O", &[]));
    serve(&bucket, "/o", &mut registry, &origin);
    assert!(registry
        .send_get_message(own, &GetCacheEntry { bucket: "b".to_string(), key: "o".to_string() })
        .is_ok());
    assert!(cached_body(&registry, "c", "o").is_none());
}

fn remote_config() -> config::Caching {
    config::Caching {
        caching_type: Some("remote".to_string()),
        ttl: None,
        capacity: None,
        host: Some("h".to_string()),
        port: Some(6379),
    }
}

#[test]
fn remote_handle_does_not_deliver() {
    let mut registry = Caching::new(&vec![("r".to_string(), remote_config())], &vec![]);
    let put = PutCacheEntry {
        bucket: "b".to_string(),
        key: "k".to_string(),
        entry: CacheEntry::from_body_and_headers(vec![1], vec![]),
    };
    assert!(matches!(
        registry.send_put_message(0, put),
        Err(cloud_storage_proxy::caching::messages::CacheError::FailedToSendMessage { .. })
    ));
    let got = registry.send_get_message(0, &GetCacheEntry { bucket: "b".to_string(), key: "k".to_string() });
    assert!(matches!(got, Err(cloud_storage_proxy::caching::messages::CacheError::FailedToSendMessage { .. })));
}

#[test]
fn removed_cache_no_longer_resolves() {
    let mut registry = Caching::new(
        &vec![("r".to_string(), remote_config()), ("l".to_string(), local_config())],
        &vec![],
    );
    assert_eq!(registry.count(), 2);
    registry.remove_cache(0);
    assert_eq!(registry.count(), 1);
    assert!(registry.get_cache("r").is_none());
    assert!(matches!(registry.get_cache("l"), Some(CacheInstance::LocalCache(_))));
}

#[test]
fn local_miss_reason_is_key_not_present() {
    let registry = registry_with_local("c");
    match registry.send_get_message(0, &GetCacheEntry { bucket: "b".to_string(), key: "none".to_string() }) {
        Err(cloud_storage_proxy::caching::messages::CacheError::FailedToGetKey { reason }) => {
            assert_eq!(reason, "Key not present")
        }
        _ => panic!("expected a miss"),
    }
}

#[test]
fn remote_settings_without_address_are_skipped() {
    let mut no_host = remote_config();
    no_host.host = None;
    let mut no_port = remote_config();
    no_port.port = None;
    let registry = Caching::new(&vec![("a".to_string(), no_host), ("b".to_string(), no_port)], &vec![]);
    assert_eq!(registry.count(), 0);
}
