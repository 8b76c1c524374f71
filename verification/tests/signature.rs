use chrono::Utc;
use hmac::{Hmac, Mac};
use qefro_backend_sdk::signature::{format_signature, sign, signature_matches, verify_signature_at};
use qefro_backend_sdk::{Qefro, QefroConfig};
use sha2::Sha256;

type HmacSha256 = Hmac<Sha256>;

#[test]
fn signature_roundtrip() {
    let app: Qefro = Qefro::new(QefroConfig::new("secret"));
    let body = r#"{"protocol_version":"1","request_id":"00000000-0000-0000-0000-000000000001","type":"ping"}"#;
    let ts = Utc::now().timestamp();
    let payload = format!("v1:{ts}:{body}");
    let mut mac = HmacSha256::new_from_slice(b"secret").unwrap();
    mac.update(payload.as_bytes());
    let sig = format!("v1={}", hex::encode(mac.finalize().into_bytes()));
    assert!(app.verify_signature(&sig, ts, body));
    assert!(!app.verify_signature("v1=deadbeef", ts, body));
}

#[test]
fn signature_of_a_known_request() {
    let sig = "v1=14ea7fd0a36d8557c745d82072f653f4e553e593c57ac365fab425da48e1c495";
    assert_eq!(sign("secret", 1700000000, "{}"), sig);
    assert_eq!(
        sign("key", -5, "h\u{e9}"),
        "v1=a582268015b278701a23f73cd53f58f91071ca69e2588cdfdc516b76963669e2"
    );
    let config = QefroConfig::new("secret");
    assert!(verify_signature_at(&config, 1700000000, sig, 1700000000, "{}"));
    assert!(!verify_signature_at(&config, 1700000000, sig, 1700000000, "{} "));
    assert!(!verify_signature_at(&config, 1700000000, sig, 1700000001, "{}"));
    assert!(!verify_signature_at(&QefroConfig::new("other"), 1700000000, sig, 1700000000, "{}"));
}

#[test]
fn signature_expires_with_the_skew() {
    let config = QefroConfig::new("secret");
    let sig = sign("secret", 1000, "x");
    assert!(verify_signature_at(&config, 1300, &sig, 1000, "x"));
    assert!(!verify_signature_at(&config, 1301, &sig, 1000, "x"));
    assert!(verify_signature_at(&config, 700, &sig, 1000, "x"));
    assert!(!verify_signature_at(&config, 699, &sig, 1000, "x"));
}

#[test]
fn far_timestamps_are_not_timely() {
    let config = QefroConfig::new("secret");
    let sig = sign("secret", i64::MIN, "x");
    assert!(!verify_signature_at(&config, 1000, &sig, i64::MIN, "x"));
    let sig = sign("secret", i64::MAX, "x");
    assert!(!verify_signature_at(&config, -1000, &sig, i64::MAX, "x"));
}

#[test]
fn codes_are_written_in_lower_hexadecimal() {
    assert_eq!(format_signature(&[0x00, 0xab, 0xf0]), "v1=00abf0");
    assert!(signature_matches(&[0x00, 0xab], "v1=00ab"));
    assert!(!signature_matches(&[0x00, 0xab], "v1=00AB"));
    assert!(!signature_matches(&[0x00, 0xab], "v1=00ab0"));
    assert!(!signature_matches(&[], ""));
}
