use siwe_sessions::auth::{authorize, parse_address, AuthRequest, Authorization};
use siwe_sessions::errors::AuthError;
use siwe_sessions::hexcode::hex_upper;
use siwe_sessions::store::SessionStore;
use siwe_sessions::workstreams::{
    check_dates, Application, ApplicationState, DripsConfig, PaymentCurrency, Receiver,
    Workstream, WorkstreamState, WorkstreamType,
};

use k256::ecdsa::SigningKey;
use sha3::Digest;

/// A deterministic test key, its 20-byte address, and that address in
/// checksum form as sign-in messages embed it.
fn test_signer() -> (SigningKey, [u8; 20]) {
    let sk = SigningKey::from_slice(&[0x11u8; 32]).unwrap();
    let pt = sk.verifying_key().to_encoded_point(false);
    let h = sha3::Keccak256::digest(&pt.as_bytes()[1..]);
    let mut addr = [0u8; 20];
    addr.copy_from_slice(&h[12..]);
    (sk, addr)
}

fn build_message(
    addr: [u8; 20],
    issued_at: &str,
    expiration_time: Option<&str>,
    not_before: Option<&str>,
) -> siwe::Message {
    siwe::Message {
        domain: "localhost".parse().unwrap(),
        address: addr,
        statement: None,
        uri: "http://localhost/login".parse().unwrap(),
        version: siwe::Version::V1,
        chain_id: 1,
        nonce: "abcdefgh".to_string(),
        issued_at: issued_at.parse().unwrap(),
        expiration_time: expiration_time.map(|s| s.parse().unwrap()),
        not_before: not_before.map(|s| s.parse().unwrap()),
        request_id: None,
        resources: vec![],
    }
}

fn sign(message: &siwe::Message, sk: &SigningKey) -> String {
    let prehash = message.eip191_hash().unwrap();
    let (sig, recid) = sk.sign_prehash_recoverable(&prehash).unwrap();
    let mut bytes = sig.to_bytes().to_vec();
    bytes.push(recid.to_byte());
    hex_upper(&bytes)
}

/// 2021-12-20T12:00:00Z.
const NOON: i64 = 1640001600;

#[test]
fn not_yet_valid_message_is_refused() {
    let (sk, addr) = test_signer();
    let message = build_message(
        addr,
        "2021-12-20T12:00:00Z",
        Some("2021-12-20T14:00:00Z"),
        Some("2021-12-20T13:00:00Z"),
    );
    let req = AuthRequest { message: message.to_string(), signature: sign(&message, &sk) };
    let mut store = SessionStore::new();
    let early = Authorization::create(&mut store, &req, NOON);
    assert!(matches!(early, Err(AuthError::NotYetValid)));
    let on_time = Authorization::create(&mut store, &req, NOON + 3600);
    assert!(on_time.is_ok());
}

#[test]
fn hour_long_session_grants_owner_and_refuses_stranger() {
    let (sk, addr) = test_signer();
    let message = build_message(addr, "2021-12-20T12:00:00Z", Some("2021-12-20T13:00:00Z"), None);
    let req = AuthRequest { message: message.to_string(), signature: sign(&message, &sk) };
    let mut store = SessionStore::new();
    let token = Authorization::create(&mut store, &req, NOON).unwrap();
    let owner: Vec<u8> = addr.to_vec();
    let stranger = parse_address(&"0x7ad046baed02ef99423ef6b53c5940987c5c159b".to_string())
        .unwrap();
    assert_eq!(authorize(&store, Some(token.clone()), None, &owner, NOON + 1800), Ok(true));
    assert_eq!(authorize(&store, Some(token.clone()), None, &stranger, NOON + 1800), Ok(false));
    assert_eq!(
        authorize(&store, Some(token), None, &owner, NOON + 3600),
        Err(AuthError::SessionNotFound)
    );
}

#[test]
fn workstream_state_parses_case_insensitively() {
    assert_eq!(WorkstreamState::from_str("funded"), Ok(WorkstreamState::Funded));
    assert_eq!(WorkstreamState::from_str("FUNDED"), Ok(WorkstreamState::Funded));
    assert_eq!(WorkstreamState::from_str("Open"), Ok(WorkstreamState::Open));
    assert_eq!(WorkstreamState::from_str("finished"), Ok(WorkstreamState::Finished));
    assert_eq!(WorkstreamState::from_str("closed"), Err(AuthError::MalformedRequest));
    assert_eq!(WorkstreamState::from_str(""), Err(AuthError::MalformedRequest));
}

#[test]
fn defaults_are_open_and_pending() {
    assert_eq!(WorkstreamState::default(), WorkstreamState::Open);
    assert_eq!(ApplicationState::default(), ApplicationState::Pending);
}

#[test]
fn check_dates_refuses_windows_in_the_past() {
    assert!(check_dates(&None, &None, 100).is_ok());
    assert!(check_dates(&Some(100), &None, 100).is_ok());
    assert!(check_dates(&Some(99), &None, 100).is_err());
    assert!(check_dates(&None, &Some(100), 100).is_ok());
    assert!(check_dates(&None, &Some(99), 100).is_err());
    assert!(check_dates(&Some(150), &Some(200), 100).is_ok());
}

fn sample_workstream() -> Workstream {
    Workstream {
        id: "old-id".to_string(),
        wtype: WorkstreamType::Grant,
        creator: vec![0x01; 20],
        created_at: 500,
        starting_at: Some(2000),
        ending_at: Some(3000),
        description: "original".to_string(),
        drips_config: DripsConfig {
            drips_acct: 7,
            payment_currency: PaymentCurrency::Dai,
            drips_hub: vec![0x02; 20],
        },
        state: WorkstreamState::Open,
    }
}

#[test]
fn workstream_update_keeps_identity_fields() {
    let mut stored = sample_workstream();
    let mut submitted = sample_workstream();
    submitted.id = "forged-id".to_string();
    submitted.creator = vec![0x09; 20];
    submitted.created_at = 9999;
    submitted.description = "edited".to_string();
    submitted.state = WorkstreamState::Funded;
    submitted.wtype = WorkstreamType::Role;
    submitted.starting_at = Some(2500);
    assert!(Workstream::update(&mut stored, submitted, 1000).is_ok());
    assert_eq!(stored.id, "old-id");
    assert_eq!(stored.creator, vec![0x01; 20]);
    assert_eq!(stored.created_at, 500);
    assert_eq!(stored.description, "edited");
    assert_eq!(stored.state, WorkstreamState::Funded);
    assert_eq!(stored.wtype, WorkstreamType::Role);
    assert_eq!(stored.starting_at, Some(2500));
}

#[test]
fn workstream_update_refuses_past_dates() {
    let mut stored = sample_workstream();
    let mut submitted = sample_workstream();
    submitted.starting_at = Some(500);
    submitted.description = "edited".to_string();
    let r = Workstream::update(&mut stored, submitted, 1000);
    assert_eq!(r, Err(AuthError::MalformedRequest));
    assert_eq!(stored.description, "original");
}

#[test]
fn workstream_populate_fills_server_fields() {
    let mut w = sample_workstream();
    w.state = WorkstreamState::Funded;
    let user = "0x7ad046baed02ef99423ef6b53c5940987c5c159b".to_string();
    let hub = Some("0x0000000000000000000000000000000000000001".to_string());
    let id = Workstream::populate(&mut w, &user, &hub, 1000).unwrap();
    assert_eq!(id.len(), 36);
    assert_eq!(w.id, id);
    assert_eq!(w.creator, parse_address(&user).unwrap());
    assert_eq!(w.created_at, 1000);
    assert_eq!(w.state, WorkstreamState::Open);
    let mut hub_bytes = vec![0x00; 19];
    hub_bytes.push(0x01);
    assert_eq!(w.drips_config.drips_hub, hub_bytes);
    assert_eq!(w.drips_config.drips_acct, 7);
}

#[test]
fn workstream_populate_refuses_bad_input() {
    let user = "0x7ad046baed02ef99423ef6b53c5940987c5c159b".to_string();
    let hub = Some("0x0000000000000000000000000000000000000001".to_string());
    let mut w = sample_workstream();
    assert_eq!(
        Workstream::populate(&mut w, &"nonsense".to_string(), &hub, 1000),
        Err(AuthError::MalformedRequest)
    );
    assert_eq!(Workstream::populate(&mut w, &user, &None, 1000), Err(AuthError::MalformedRequest));
    let mut stale = sample_workstream();
    stale.ending_at = Some(100);
    assert_eq!(
        Workstream::populate(&mut stale, &user, &hub, 1000),
        Err(AuthError::MalformedRequest)
    );
    assert_eq!(stale.created_at, 500);
}

fn sample_application() -> Application {
    Application {
        id: "app-id".to_string(),
        title: "a title".to_string(),
        description: "apply".to_string(),
        workstream_id: "ws-1".to_string(),
        creator: vec![0x03; 20],
        receivers: vec![Receiver { address: vec![0x04; 20], payment_rate: 150 }],
        payment_currency: PaymentCurrency::Dai,
        created_at: 400,
        starting_at: Some(2000),
        ending_at: None,
        state: ApplicationState::Accepted,
    }
}

#[test]
fn application_populate_fills_server_fields() {
    let mut a = sample_application();
    let user = "0x7ad046baed02ef99423ef6b53c5940987c5c159b".to_string();
    Application::populate(&mut a, &user, &"ws-9".to_string(), 1000).unwrap();
    assert_eq!(a.id.len(), 36);
    assert_eq!(a.workstream_id, "ws-9");
    assert_eq!(a.creator, parse_address(&user).unwrap());
    assert_eq!(a.created_at, 1000);
    assert_eq!(a.state, ApplicationState::Pending);
    assert_eq!(a.title, "a title");
    let mut b = sample_application();
    Application::populate(&mut b, &user, &"ws-9".to_string(), 1000).unwrap();
    assert_ne!(a.id, b.id);
}

#[test]
fn application_update_keeps_provenance_fields() {
    let stored = sample_application();
    let mut submitted = sample_application();
    submitted.workstream_id = "forged".to_string();
    submitted.creator = vec![0x0A; 20];
    submitted.created_at = 9000;
    submitted.description = "edited".to_string();
    assert!(Application::update(&stored, &mut submitted, 1000).is_ok());
    assert_eq!(submitted.workstream_id, "ws-1");
    assert_eq!(submitted.creator, vec![0x03; 20]);
    assert_eq!(submitted.created_at, 400);
    assert_eq!(submitted.description, "edited");
}

#[test]
fn application_update_refuses_past_dates() {
    let stored = sample_application();
    let mut submitted = sample_application();
    submitted.starting_at = Some(10);
    assert_eq!(Application::update(&stored, &mut submitted, 1000), Err(AuthError::MalformedRequest));
}
