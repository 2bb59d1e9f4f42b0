use siwe_sessions::auth::{addr_matches, parse_address, Authorization};
use siwe_sessions::errors::AuthError;
use siwe_sessions::hexcode::{hex_decode, hex_upper};
use siwe_sessions::store::SessionStore;

fn record(issued_at: i64) -> Authorization {
    Authorization {
        resources: vec!["https://example.com/a".to_string()],
        issued_at,
        expiration_time: Some(issued_at + 600),
        not_before: None,
        address: vec![0xAA; 20],
    }
}

#[test]
fn hex_upper_renders_exact_digits() {
    assert_eq!(hex_upper(&vec![]), "");
    assert_eq!(hex_upper(&vec![0x00]), "00");
    assert_eq!(hex_upper(&vec![0x0F, 0xA0]), "0FA0");
    assert_eq!(hex_upper(&vec![0xDE, 0xAD, 0xBE, 0xEF]), "DEADBEEF");
}

#[test]
fn hex_decode_inverts_encoding_in_either_case() {
    assert_eq!(hex_decode("deadbeef"), Some(vec![0xDE, 0xAD, 0xBE, 0xEF]));
    assert_eq!(hex_decode("DeAdBeEf"), Some(vec![0xDE, 0xAD, 0xBE, 0xEF]));
    assert_eq!(hex_decode(""), Some(vec![]));
    assert_eq!(hex_decode("abc"), None);
    assert_eq!(hex_decode("zz"), None);
}

#[test]
fn parse_address_strips_prefix_and_checks_length() {
    let bare = "7ad046baed02ef99423ef6b53c5940987c5c159b".to_string();
    let prefixed = "0x7ad046baed02ef99423ef6b53c5940987c5c159b".to_string();
    let expected = vec![
        0x7a, 0xd0, 0x46, 0xba, 0xed, 0x02, 0xef, 0x99, 0x42, 0x3e, 0xf6, 0xb5, 0x3c, 0x59,
        0x40, 0x98, 0x7c, 0x5c, 0x15, 0x9b,
    ];
    assert_eq!(parse_address(&bare).unwrap(), expected);
    assert_eq!(parse_address(&prefixed).unwrap(), expected);
    assert_eq!(parse_address(&"0x1234".to_string()), Err(AuthError::MalformedRequest));
    assert_eq!(
        parse_address(&"0xzzd046baed02ef99423ef6b53c5940987c5c159b".to_string()),
        Err(AuthError::MalformedRequest)
    );
}

#[test]
fn addr_matches_compares_bytes() {
    assert!(addr_matches(&vec![1, 2, 3], &vec![1, 2, 3]));
    assert!(!addr_matches(&vec![1, 2, 3], &vec![1, 2, 4]));
    assert!(!addr_matches(&vec![1, 2, 3], &vec![1, 2]));
}

#[test]
fn store_returns_what_was_put_until_the_ttl_elapses() {
    let mut store = SessionStore::new();
    let put = store.put("tok".to_string(), record(1000), 60, 1000);
    assert!(put.is_ok());
    assert!(store.get(&"tok".to_string(), 1000).is_some());
    assert!(store.get(&"tok".to_string(), 1059).is_some());
    assert!(store.get(&"tok".to_string(), 1060).is_none());
    assert!(store.get(&"other".to_string(), 1000).is_none());
}

#[test]
fn store_keeps_distinct_tokens_independent() {
    let mut store = SessionStore::new();
    store.put("a".to_string(), record(1), 10, 0).unwrap();
    store.put("b".to_string(), record(2), 100, 0).unwrap();
    assert_eq!(store.get(&"a".to_string(), 5).unwrap().issued_at, 1);
    assert_eq!(store.get(&"b".to_string(), 5).unwrap().issued_at, 2);
    assert!(store.get(&"a".to_string(), 50).is_none());
    assert!(store.get(&"b".to_string(), 50).is_some());
}

#[test]
fn store_put_with_zero_ttl_is_dead_at_once() {
    let mut store = SessionStore::new();
    store.put("t".to_string(), record(0), 0, 500).unwrap();
    assert!(store.get(&"t".to_string(), 500).is_none());
}

#[test]
fn later_put_under_the_same_token_wins() {
    let mut store = SessionStore::new();
    store.put("t".to_string(), record(1), 100, 0).unwrap();
    store.put("t".to_string(), record(2), 100, 0).unwrap();
    assert_eq!(store.get(&"t".to_string(), 10).unwrap().issued_at, 2);
}

#[test]
fn parse_request_prefers_bearer() {
    let r = Authorization::parse_request(Some("b".to_string()), Some("c".to_string()));
    assert_eq!(r, Ok("b".to_string()));
    let r2 = Authorization::parse_request(None, Some("c".to_string()));
    assert_eq!(r2, Ok("c".to_string()));
    let r3 = Authorization::parse_request(None, None);
    assert_eq!(r3, Err(AuthError::Unauthenticated));
}
