use cloud_storage_proxy::caching::messages::{CacheEntry, CacheError, GetCacheEntry, PutCacheEntry};
use cloud_storage_proxy::caching::redis::{decimal_string, RedisCache, KEY_PREFIX};

fn put_msg(bucket: &str, key: &str) -> PutCacheEntry {
    PutCacheEntry {
        bucket: bucket.to_string(),
        key: key.to_string(),
        entry: CacheEntry::from_body_and_headers(vec![1, 2], vec![]),
    }
}

#[test]
fn set_key_is_prefix_bucket_and_key() {
    let cache = RedisCache::new("localhost".to_string(), 6379, None);
    let cmds = cache.put_commands(&put_msg("b", "k"), "{}".to_string());
    assert_eq!(cmds.len(), 2);
    assert_eq!(cmds[0], vec!["SET".to_string(), "cloud_storage_proxy:b:k".to_string(), "{}".to_string()]);
    assert_eq!(cmds[1], vec!["EXPIRE".to_string(), "cloud_storage_proxy:b:k".to_string(), "3600".to_string()]);
    assert_eq!(KEY_PREFIX, "cloud_storage_proxy");
}

#[test]
fn expire_uses_configured_ttl() {
    let cache = RedisCache::new("h".to_string(), 1, Some(60));
    let cmds = cache.put_commands(&put_msg("bucket", "dir/file.txt"), "payload".to_string());
    assert_eq!(cmds[0][1], "cloud_storage_proxy:bucket:dir/file.txt");
    assert_eq!(cmds[1][2], "60");
}

#[test]
fn get_command_reads_namespaced_key() {
    let cache = RedisCache::new("h".to_string(), 1, None);
    let cmd = cache.get_command(&GetCacheEntry { bucket: "b".to_string(), key: "k".to_string() });
    assert_eq!(cmd, vec!["GET".to_string(), "cloud_storage_proxy:b:k".to_string()]);
    assert_eq!(RedisCache::key_for("x", "y"), "cloud_storage_proxy:x:y");
}

#[test]
fn reply_reading() {
    assert_eq!(RedisCache::read_reply(Ok("data".to_string())).ok(), Some("data".to_string()));
    assert!(matches!(RedisCache::read_reply(Ok(String::new())), Err(CacheError::FailedToGetKey { .. })));
    match RedisCache::read_reply(Err("boom".to_string())) {
        Err(CacheError::FailedToGetKey { reason }) => assert_eq!(reason, "boom"),
        _ => panic!("expected FailedToGetKey"),
    }
}

#[test]
fn decoding_failure_is_serde_error() {
    match RedisCache::decoded_entry(Err("bad json".to_string())) {
        Err(CacheError::SerdeError { reason }) => assert_eq!(reason, "bad json"),
        _ => panic!("expected SerdeError"),
    }
    let ok = RedisCache::decoded_entry(Ok(CacheEntry::from_body_and_headers(vec![3], vec![])));
    assert_eq!(ok.ok().unwrap().body, vec![3]);
}

#[test]
fn decimal_notation() {
    assert_eq!(decimal_string(0), "0");
    assert_eq!(decimal_string(7), "7");
    assert_eq!(decimal_string(10), "10");
    assert_eq!(decimal_string(3600), "3600");
    assert_eq!(decimal_string(u64::MAX), "18446744073709551615");
}

#[test]
fn timeout_counts_as_failed_read() {
    assert!(matches!(RedisCache::timed_out(), CacheError::FailedToGetKey { .. }));
}
