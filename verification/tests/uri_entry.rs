//! Tests of amount rendering, URI construction and the session entry point.

use payjoin_receiver::amount::format_btc_amount;
use payjoin_receiver::error::ErrorKind;
use payjoin_receiver::receiver::PayjoinReceiver;
use payjoin_receiver::session::SessionState;

const ADDR: &str = "bc1qw508d6qejxtdg4y5r3zarvary0c5xw7kv8f3t4";
const ENDPOINT: &str = "https://relay.example/session";

#[test]
fn amount_zero() {
    assert_eq!(format_btc_amount(0), "0.00000000");
}

#[test]
fn amount_fifty_thousand_sats() {
    assert_eq!(format_btc_amount(50_000), "0.00050000");
}

#[test]
fn amount_over_one_btc() {
    assert_eq!(format_btc_amount(123_456_789), "1.23456789");
}

#[test]
fn amount_all_money() {
    assert_eq!(format_btc_amount(2_100_000_000_000_000), "21000000.00000000");
}

#[test]
fn uri_with_amount_no_label() {
    let receiver = PayjoinReceiver::new(vec![1, 2, 3]);
    let start = receiver
        .receive_payjoin_adapter(
            ADDR.to_string(),
            Some(50_000),
            None,
            vec![9],
            &ENDPOINT.to_string(),
        )
        .expect("valid address must be accepted");
    assert_eq!(
        start.uri,
        format!("bitcoin:{ADDR}?pj={ENDPOINT}&amount=0.00050000")
    );
    assert!(start.uri.contains(ADDR));
    assert!(start.uri.contains("amount=0.0005"));
    assert!(!start.uri.contains("label="));
}

#[test]
fn uri_with_label() {
    let receiver = PayjoinReceiver::new(vec![]);
    let start = receiver
        .receive_payjoin_adapter(
            ADDR.to_string(),
            None,
            Some("invoice42".to_string()),
            vec![7],
            &ENDPOINT.to_string(),
        )
        .expect("valid address must be accepted");
    assert_eq!(start.uri, format!("bitcoin:{ADDR}?pj={ENDPOINT}&label=invoice42"));
    assert!(!start.uri.contains("amount="));
}

#[test]
fn malformed_address_rejected() {
    let receiver = PayjoinReceiver::new(vec![]);
    let err = receiver
        .receive_payjoin_adapter(
            "not an address".to_string(),
            Some(1),
            None,
            vec![],
            &ENDPOINT.to_string(),
        )
        .expect_err("malformed address must be rejected");
    assert_eq!(err, ErrorKind::MalformedAddress);
}

#[test]
fn session_starts_polling_and_embeds_request() {
    let receiver = PayjoinReceiver::new(vec![5, 5]);
    let start = receiver
        .receive_payjoin_adapter(
            ADDR.to_string(),
            Some(1234),
            None,
            vec![0xaa, 0xbb],
            &ENDPOINT.to_string(),
        )
        .unwrap();
    assert!(matches!(start.session.state, SessionState::AwaitingProposal));
    assert_eq!(start.session.address, ADDR);
    assert_eq!(start.session.amount, Some(1234));
    assert_eq!(start.session.label, None);
    assert_eq!(start.session.session_key, vec![0xaa, 0xbb]);
}

#[test]
fn identical_requests_make_independent_sessions() {
    let receiver = PayjoinReceiver::new(vec![]);
    let s1 = receiver
        .receive_payjoin_adapter(
            ADDR.to_string(),
            Some(50_000),
            None,
            vec![1, 1, 1],
            &ENDPOINT.to_string(),
        )
        .unwrap();
    let s2 = receiver
        .receive_payjoin_adapter(
            ADDR.to_string(),
            Some(50_000),
            None,
            vec![2, 2, 2],
            &ENDPOINT.to_string(),
        )
        .unwrap();
    assert_eq!(s1.uri, s2.uri);
    assert_ne!(s1.session.session_key, s2.session.session_key);
    assert_eq!(s1.session.address, s2.session.address);
}
