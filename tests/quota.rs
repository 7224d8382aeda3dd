use riot_api::limiter::RateLimiter;
use riot_api::quota::{parse_number, parse_quota, split_bytes, MalformedQuota, QuotaSegment};

fn intervals(header: &str) -> Vec<u64> {
    parse_quota(header.as_bytes())
        .expect("quota parses")
        .iter()
        .map(|q| q.interval_ms())
        .collect()
}

#[test]
fn twenty_per_second_is_fifty_ms() {
    assert_eq!(intervals("20:1"), vec![50]);
}

#[test]
fn hundred_per_two_minutes_is_twelve_hundred_ms() {
    assert_eq!(intervals("100:120"), vec![1200]);
}

#[test]
fn interval_rounds_down() {
    assert_eq!(intervals("3:1"), vec![333]);
    assert_eq!(intervals("7:10"), vec![1428]);
}

#[test]
fn two_segments_in_order() {
    let segs = parse_quota(b"20:1,100:120").unwrap();
    assert_eq!(
        segs,
        vec![
            QuotaSegment { count: 20, window_secs: 1 },
            QuotaSegment { count: 100, window_secs: 120 }
        ]
    );
    assert_eq!(intervals("20:1,100:120"), vec![50, 1200]);
}

#[test]
fn malformed_quotas_are_rejected() {
    for h in ["", "20", "a:1", "20:", ":1", "0:1", "20:1,", "1:2:3", "20 :1", "-1:1", "20;1"] {
        assert_eq!(parse_quota(h.as_bytes()), Err(MalformedQuota), "{h}");
    }
}

#[test]
fn window_must_fit_in_milliseconds() {
    let max_window = u64::MAX / 1000;
    assert!(parse_quota(format!("1:{max_window}").as_bytes()).is_ok());
    assert_eq!(parse_quota(format!("1:{}", max_window + 1).as_bytes()), Err(MalformedQuota));
    assert_eq!(parse_quota(b"1:99999999999999999999999"), Err(MalformedQuota));
}

#[test]
fn numbers_parse_in_range() {
    assert_eq!(parse_number(b"0"), Some(0));
    assert_eq!(parse_number(b"007"), Some(7));
    assert_eq!(parse_number(b"18446744073709551615"), Some(u64::MAX));
    assert_eq!(parse_number(b"18446744073709551616"), None);
    assert_eq!(parse_number(b""), None);
    assert_eq!(parse_number(b"1x"), None);
}

#[test]
fn split_keeps_empty_pieces() {
    assert_eq!(split_bytes(b"a,,b,", b','), vec![b"a".to_vec(), vec![], b"b".to_vec(), vec![]]);
    assert_eq!(split_bytes(b"", b','), vec![Vec::<u8>::new()]);
}

#[test]
fn single_token_limiter_refills_once_per_interval() {
    let mut l = RateLimiter::new(50);
    assert_eq!(l.wait_ms(0), 0);
    l.take(1000);
    assert_eq!(l.ready_at, 1050);
    assert_eq!(l.wait_ms(1000), 50);
    assert_eq!(l.wait_ms(1049), 1);
    assert_eq!(l.wait_ms(1050), 0);
    let mut far = RateLimiter::new(10);
    far.take(u64::MAX - 3);
    assert_eq!(far.ready_at, u64::MAX);
}
