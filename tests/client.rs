use riot_api::cache::DEFAULT_LIFETIME_SECS;
use riot_api::client::{Client, Outcome, Stage, Step};
use riot_api::dto::Game;
use riot_api::region::Region;
use riot_api::registry::{ScopeState, GLOBAL_SCOPE};
use riot_api::request::{Method, RequestKey};
use riot_api::status::{is_success, ConfigurationError, Error, ErrorStatus, ProtocolError};
use riot_api::text::decimal_string;

const SCOPE: &str = "/lol/summoner/v4/summoners/by-name/{summonerName}";

fn by_name_key(client: &Client) -> RequestKey {
    RequestKey {
        method: Method::Get,
        url: client.url("/lol/summoner/v4/summoners/by-name/X", true),
        query: Vec::new(),
    }
}

fn header(s: &str) -> Option<Vec<u8>> {
    Some(s.as_bytes().to_vec())
}

#[test]
fn region_codes() {
    assert_eq!(Region::EUW.to_short_region(), "euw1");
    assert_eq!(Region::EUW.to_long_region(), "europe");
    assert_eq!(Region::KR.to_short_region(), "kr");
    assert_eq!(Region::KR.to_long_region(), "sea");
    assert_eq!(Region::LAS.to_short_region(), "la2");
    assert_eq!(Region::BR.to_long_region(), "americas");
    assert_eq!(Region::OCE.code(true), "oc1");
    assert_eq!(Region::OCE.code(false), "sea");
}

#[test]
fn url_uses_region_host() {
    let c = Client::new("key".to_string(), Region::EUW).unwrap();
    assert_eq!(
        c.url("/lol/status/v4/platform-data", true),
        "https://euw1.api.riotgames.com/lol/status/v4/platform-data"
    );
    assert_eq!(
        c.url("/riot/account/v1/accounts/by-puuid/p", false),
        "https://europe.api.riotgames.com/riot/account/v1/accounts/by-puuid/p"
    );
    assert_eq!(c.region(), Region::EUW);
}

#[test]
fn api_key_must_fit_a_header() {
    assert_eq!(
        Client::new("bad\nkey".to_string(), Region::NA).err(),
        Some(ConfigurationError::InvalidApiKey)
    );
    assert_eq!(
        Client::new("bad\u{7f}".to_string(), Region::NA).err(),
        Some(ConfigurationError::InvalidApiKey)
    );
    let c = Client::new("RGAPI-abc\tdef".to_string(), Region::NA).unwrap();
    assert_eq!(c.api_token().as_bytes(), b"RGAPI-abc\tdef");
    assert!(Client::new(String::new(), Region::NA).is_ok());
}

#[test]
fn status_threshold() {
    assert!(is_success(200));
    assert!(is_success(300));
    assert!(!is_success(301));
    assert!(!is_success(404));
}

#[test]
fn error_rendering() {
    let e = ErrorStatus::new(404, "Data not found".to_string());
    assert_eq!(e.to_string(), "Status: 404, Message: 'Data not found'");
    let neg = ErrorStatus::new(-7, String::new());
    assert_eq!(neg.to_string(), "Status: -7, Message: ''");
    let body = Error { status: ErrorStatus::new(403, "Forbidden".to_string()) };
    let s = body.into_status();
    assert_eq!(s.status_code, 403);
    assert_eq!(s.source, "Forbidden");
}

#[test]
fn decimal_text() {
    assert_eq!(decimal_string(0), "0");
    assert_eq!(decimal_string(1200), "1200");
    assert_eq!(decimal_string(-305), "-305");
    assert_eq!(decimal_string(i64::MIN), "-9223372036854775808");
    assert_eq!(decimal_string(i64::MAX), "9223372036854775807");
}

#[test]
fn game_names() {
    assert_eq!(Game::LOR.as_str(), "lor");
    assert_eq!(Game::VAL.as_str(), "val");
}

#[test]
fn success_response_is_cached_and_gated() {
    let mut c = Client::with_cache("key".to_string(), Region::EUW, None).unwrap();
    let key = by_name_key(&c);
    assert_eq!(c.next_step(Stage::Global, SCOPE, &key, 0), Step::Send);
    let body = br#"{"name":"X","id":"i","puuid":"p"}"#.to_vec();
    let out = c.handle_response(key, SCOPE, 200, &header("20:1,100:120"), &header("10:60"), body.clone(), 0);
    let bytes = match out {
        Ok(Outcome::Success(b)) => b,
        other => panic!("expected a success, got {other:?}"),
    };
    assert_eq!(bytes, body);
    let value: serde_json::Value = serde_json::from_slice(&bytes).unwrap();
    assert_eq!(value["name"], "X");
    assert!(matches!(c.next_step(Stage::Global, SCOPE, &by_name_key(&c), 0), Step::Wait(Stage::Global, 1200)));
    assert!(matches!(c.next_step(Stage::Global, SCOPE, &by_name_key(&c), 1200), Step::Wait(Stage::Endpoint, 4800)));
    assert_eq!(
        c.next_step(Stage::Endpoint, SCOPE, &by_name_key(&c), 6000),
        Step::Cached(body)
    );
    assert_eq!(DEFAULT_LIFETIME_SECS, 60);
}

#[test]
fn failure_response_is_reported_not_cached() {
    let mut c = Client::with_cache("key".to_string(), Region::EUW, Some(60)).unwrap();
    let key = by_name_key(&c);
    let body = br#"{"status":{"message":"Data not found","status_code":404}}"#.to_vec();
    let out = c.handle_response(key, SCOPE, 404, &None, &None, body.clone(), 0);
    let bytes = match out {
        Ok(Outcome::Failure(b)) => b,
        other => panic!("expected a failure, got {other:?}"),
    };
    assert_eq!(bytes, body);
    let value: serde_json::Value = serde_json::from_slice(&bytes).unwrap();
    let status = ErrorStatus::new(
        value["status"]["status_code"].as_i64().unwrap() as i32,
        value["status"]["message"].as_str().unwrap().to_string(),
    );
    assert_eq!(status.status_code, 404);
    assert_eq!(status.source, "Data not found");
    assert_eq!(c.next_step(Stage::Global, SCOPE, &by_name_key(&c), 1), Step::Send);
}

#[test]
fn redirect_code_three_hundred_is_success() {
    let mut c = Client::with_cache("key".to_string(), Region::EUW, None).unwrap();
    let k = by_name_key(&c);
    assert!(matches!(
        c.handle_response(k, SCOPE, 300, &None, &None, b"1".to_vec(), 0),
        Ok(Outcome::Success(_))
    ));
    let k = by_name_key(&c);
    assert!(matches!(
        c.handle_response(k, SCOPE, 301, &None, &None, b"2".to_vec(), 0),
        Ok(Outcome::Failure(_))
    ));
    assert_eq!(c.next_step(Stage::Global, SCOPE, &by_name_key(&c), 0), Step::Cached(b"1".to_vec()));
}

#[test]
fn malformed_quota_fails_the_request() {
    let mut c = Client::new("key".to_string(), Region::EUW).unwrap();
    let k = by_name_key(&c);
    assert_eq!(
        c.handle_response(k, SCOPE, 200, &header("oops"), &header("20:1"), b"{}".to_vec(), 0),
        Err(ProtocolError::MalformedQuota)
    );
    let k = by_name_key(&c);
    assert_eq!(
        c.handle_response(k, SCOPE, 200, &header("20:1"), &header("20:x"), b"{}".to_vec(), 0),
        Err(ProtocolError::MalformedQuota)
    );
    // The global scope learned its quota before the endpoint header failed.
    assert!(matches!(c.next_step(Stage::Global, SCOPE, &by_name_key(&c), 0), Step::Wait(Stage::Global, 50)));
    assert_eq!(c.next_step(Stage::Global, SCOPE, &by_name_key(&c), 50), Step::Send);
}

#[test]
fn global_scope_name() {
    assert_eq!(GLOBAL_SCOPE, "global");
    let _ = ScopeState::Unconfigured;
}
