use riot_api::cache::{ResponseCache, DEFAULT_LIFETIME_SECS};
use riot_api::request::{insert_query, Method, RequestKey};

fn key(url: &str, query: &[(&str, &str)]) -> RequestKey {
    RequestKey {
        method: Method::Get,
        url: url.to_string(),
        query: query.iter().map(|(k, v)| (k.to_string(), v.to_string())).collect(),
    }
}

#[test]
fn stored_body_is_found_at_once() {
    let mut c = ResponseCache::new(60);
    let body = b"{\"name\":\"X\"}".to_vec();
    let handed_back = c.store(key("https://h/a", &[]), body.clone(), 7);
    assert_eq!(handed_back, body);
    assert_eq!(c.lookup(&key("https://h/a", &[]), 7), Some(body));
}

#[test]
fn entry_expires_after_lifetime() {
    let mut c = ResponseCache::new(60);
    let t = 10_000;
    c.store(key("https://h/a", &[]), b"B".to_vec(), t);
    assert_eq!(c.lookup(&key("https://h/a", &[]), t + 60_000 - 1), Some(b"B".to_vec()));
    assert_eq!(c.lookup(&key("https://h/a", &[]), t + 60_000), None);
    assert_eq!(c.lookup(&key("https://h/a", &[]), t + 60_000 + 1), None);
}

#[test]
fn zero_lifetime_never_hits() {
    let mut c = ResponseCache::new(0);
    c.store(key("https://h/a", &[]), b"B".to_vec(), 5);
    assert_eq!(c.lookup(&key("https://h/a", &[]), 5), None);
}

#[test]
fn store_overwrites_and_restarts_lifetime() {
    let mut c = ResponseCache::with_default_lifetime();
    assert_eq!(c.lifetime_secs(), DEFAULT_LIFETIME_SECS);
    assert_eq!(DEFAULT_LIFETIME_SECS, 60);
    c.store(key("https://h/a", &[]), b"old".to_vec(), 0);
    c.store(key("https://h/a", &[]), b"new".to_vec(), 50_000);
    assert_eq!(c.lookup(&key("https://h/a", &[]), 100_000), Some(b"new".to_vec()));
}

#[test]
fn keys_differ_by_query_and_method() {
    let mut c = ResponseCache::new(60);
    c.store(key("https://h/ids", &[("count", "5")]), b"five".to_vec(), 0);
    c.store(key("https://h/ids", &[("count", "6")]), b"six".to_vec(), 0);
    assert_eq!(c.lookup(&key("https://h/ids", &[("count", "5")]), 1), Some(b"five".to_vec()));
    assert_eq!(c.lookup(&key("https://h/ids", &[("count", "6")]), 1), Some(b"six".to_vec()));
    assert_eq!(c.lookup(&key("https://h/ids", &[]), 1), None);
    let mut post = key("https://h/ids", &[("count", "5")]);
    post.method = Method::Post;
    assert_eq!(c.lookup(&post, 1), None);
}

#[test]
fn same_key_compares_all_parts() {
    assert!(key("u", &[("a", "1")]).same_as(&key("u", &[("a", "1")])));
    assert!(!key("u", &[("a", "1")]).same_as(&key("u", &[("a", "2")])));
    assert!(!key("u", &[("a", "1")]).same_as(&key("v", &[("a", "1")])));
    assert!(!key("u", &[("a", "1")]).same_as(&key("u", &[("a", "1"), ("b", "2")])));
}

#[test]
fn insert_query_omits_absent_values_and_replaces() {
    let mut q: Vec<(String, String)> = Vec::new();
    insert_query(&mut q, "startTime", &None);
    assert!(q.is_empty());
    insert_query(&mut q, "count", &Some("5".to_string()));
    insert_query(&mut q, "queue", &Some("420".to_string()));
    insert_query(&mut q, "count", &Some("7".to_string()));
    assert_eq!(
        q,
        vec![
            ("count".to_string(), "7".to_string()),
            ("queue".to_string(), "420".to_string())
        ]
    );
}

#[test]
fn method_names() {
    assert_eq!(Method::Get.as_str(), "GET");
    assert_eq!(Method::Delete.as_str(), "DELETE");
}
