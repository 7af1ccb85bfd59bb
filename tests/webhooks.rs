use hmac::{Hmac, Mac};
use paddle_rust_sdk::error::SignatureError;
use paddle_rust_sdk::webhooks::{
    authenticate, authenticate_at, MaximumVariance, Signature, MAX_UTC_TIMESTAMP, MIN_UTC_TIMESTAMP,
};
use paddle_rust_sdk::Error;
use sha2::Sha256;

const HEADER: &str =
    "ts=1671552777;h1=eb4d0dc8853be92b7f063b9f3ba5233eb920a09459b6e6b2c26705b4364db151";

fn to_hex(bytes: &[u8]) -> String {
    bytes.iter().map(|b| format!("{:02x}", b)).collect()
}

fn sign(key: &str, ts: i64, body: &str) -> Vec<u8> {
    let mut mac = <Hmac<Sha256> as Mac>::new_from_slice(key.as_bytes()).unwrap();
    mac.update(format!("{}:{}", ts, body).as_bytes());
    mac.finalize().into_bytes().to_vec()
}

fn header_for(key: &str, ts: i64, body: &str) -> String {
    format!("ts={};h1={}", ts, to_hex(&sign(key, ts, body)))
}

fn is_signature_error(r: &Result<Signature, Error>, want: SignatureError) -> bool {
    matches!(r, Err(Error::PaddleSignature(e)) if *e == want)
}

#[test]
fn parsing_correctly() {
    let signature_str =
        "ts=1671552777;h1=eb4d0dc8853be92b7f063b9f3ba5233eb920a09459b6e6b2c26705b4364db151";

    let _sig: Signature = signature_str.parse().expect("To parse correctly");
}

#[test]
fn malformed_parameters() {
    let signature_str =
        "ts=1671552777h1=eb4d0dc8853be92b7f063b9f3ba5233eb920a09459b6e6b2c26705b4364db151";
    assert!(signature_str.parse::<Signature>().is_err());

    let signature_str =
        "ts=1671552a777;h1=eb4d0dc8853be92b7f063b9f3ba5233eb920a09459b6e6b2c26705b4364db151";
    assert!(signature_str.parse::<Signature>().is_err());
}

#[test]
fn example_header_gives_timestamp_and_32_byte_mac() {
    let sig = Signature::parse(HEADER).unwrap();
    // 2022-12-20T14:52:57Z
    assert_eq!(sig.timestamp, 1671552777);
    assert_eq!(sig.signature.len(), 32);
    assert_eq!(sig.signature[0], 0xeb);
    assert_eq!(sig.signature[1], 0x4d);
    assert_eq!(sig.signature[31], 0x51);
    assert_eq!(to_hex(&sig.signature), &HEADER[17..]);
}

#[test]
fn missing_separator_is_wrong_part_count() {
    let r = Signature::parse(
        "ts=1671552777h1=eb4d0dc8853be92b7f063b9f3ba5233eb920a09459b6e6b2c26705b4364db151",
    );
    assert!(is_signature_error(&r, SignatureError::InvalidFormat));
    let r = Signature::parse("ts=1;h1=ab;x=y");
    assert!(is_signature_error(&r, SignatureError::InvalidFormat));
}

#[test]
fn empty_header_is_refused() {
    assert!(is_signature_error(&Signature::parse(""), SignatureError::Empty));
}

#[test]
fn part_without_single_equals_is_refused() {
    assert!(is_signature_error(&Signature::parse("ts1;h1=ab"), SignatureError::InvalidPartFormat));
    assert!(is_signature_error(&Signature::parse("ts=1=2;h1=ab"), SignatureError::InvalidPartFormat));
    assert!(is_signature_error(&Signature::parse("ts=1;h1ab"), SignatureError::InvalidPartFormat));
    assert!(is_signature_error(&Signature::parse("ts=1;h1=a=b"), SignatureError::InvalidPartFormat));
}

#[test]
fn missing_field_is_parse_error() {
    assert!(is_signature_error(&Signature::parse("ts=1;v1=ab"), SignatureError::ParseError));
    assert!(is_signature_error(&Signature::parse("x=1;h1=ab"), SignatureError::ParseError));
}

#[test]
fn bad_integers_are_integer_errors() {
    assert!(matches!(Signature::parse("ts=1671552a777;h1=ab"), Err(Error::ParseIntError(_))));
    assert!(matches!(Signature::parse("ts=;h1=ab"), Err(Error::ParseIntError(_))));
    assert!(matches!(Signature::parse("ts=99999999999999999999;h1=ab"), Err(Error::ParseIntError(_))));
    assert!(matches!(Signature::parse("ts=1;h1=zz"), Err(Error::ParseIntError(_))));
    assert!(matches!(Signature::parse("ts=1;h1=ab-1"), Err(Error::ParseIntError(_))));
    assert!(matches!(Signature::parse("ts=1;h1=+f"), Err(Error::ParseIntError(_))));
    assert!(matches!(Signature::parse("ts=1;h1=abc"), Err(Error::ParseIntError(_))));
    assert!(matches!(Signature::parse("ts=1;h1=a"), Err(Error::ParseIntError(_))));
    assert!(matches!(Signature::parse("ts=1;h1=\u{e9}a"), Err(Error::ParseIntError(_))));
}

#[test]
fn parts_in_either_order_and_signed_values() {
    let sig = Signature::parse("h1=00ff;ts=-5").unwrap();
    assert_eq!(sig.timestamp, -5);
    assert_eq!(sig.signature, vec![0x00, 0xff]);
    let sig = Signature::parse("ts=+7;h1=AB").unwrap();
    assert_eq!(sig.timestamp, 7);
    assert_eq!(sig.signature, vec![0xab]);
    let sig = Signature::parse("ts=7;h1=").unwrap();
    assert!(sig.signature.is_empty());
}

#[test]
fn unknown_keys_are_ignored_but_still_counted_as_parts() {
    assert!(is_signature_error(&Signature::parse("ts=1;h2=ab"), SignatureError::ParseError));
}

#[test]
fn correct_mac_verifies_and_any_change_fails() {
    let key = "pdl_ntfset_secret";
    let body = "{\"event_id\":\"evt_1\"}";
    let ts: i64 = 1671552777;
    let sig = Signature::parse(&header_for(key, ts, body)).unwrap();
    assert!(sig.verify_at(body, key, MaximumVariance(None), 0, 0).is_ok());

    assert!(matches!(sig.verify_at("{\"event_id\":\"evt_2\"}", key, MaximumVariance(None), 0, 0), Err(Error::MacError(_))));
    assert!(matches!(sig.verify_at(body, "pdl_ntfset_secreT", MaximumVariance(None), 0, 0), Err(Error::MacError(_))));

    let moved = Signature { timestamp: ts + 1, signature: sig.signature.clone() };
    assert!(matches!(moved.verify_at(body, key, MaximumVariance(None), 0, 0), Err(Error::MacError(_))));

    let mut flipped = sig.signature.clone();
    flipped[5] ^= 0x01;
    let changed = Signature { timestamp: ts, signature: flipped };
    assert!(matches!(changed.verify_at(body, key, MaximumVariance(None), 0, 0), Err(Error::MacError(_))));

    let short = Signature { timestamp: ts, signature: sig.signature[..31].to_vec() };
    assert!(matches!(short.verify_at(body, key, MaximumVariance(None), 0, 0), Err(Error::MacError(_))));
}

#[test]
fn stale_signature_is_refused_before_the_mac() {
    let key = "k";
    let body = "b";
    let t: i64 = 1_000_000;
    let sig = Signature::parse(&header_for(key, t, body)).unwrap();
    let five = MaximumVariance::seconds(5);
    assert!(sig.verify_at(body, key, five, t + 5, 0).is_ok());
    assert!(sig.verify_at(body, key, five, t - 100, 0).is_ok());
    assert!(matches!(
        sig.verify_at(body, key, five, t + 5, 1),
        Err(Error::PaddleSignature(SignatureError::MaxVarianceExceeded(5)))
    ));
    assert!(matches!(
        sig.verify_at(body, key, five, t + 6, 0),
        Err(Error::PaddleSignature(SignatureError::MaxVarianceExceeded(5)))
    ));
    // staleness is checked first, even when the MAC is wrong
    assert!(matches!(
        sig.verify_at("other", key, five, t + 6, 0),
        Err(Error::PaddleSignature(SignatureError::MaxVarianceExceeded(5)))
    ));
}

#[test]
fn unlimited_variance_accepts_an_old_signature() {
    let key = "k";
    let body = "{}";
    let t: i64 = 86_400;
    let header = header_for(key, t, body);
    assert!(authenticate(body, key, &header, MaximumVariance(None)).is_ok());
    assert!(matches!(
        authenticate(body, key, &header, MaximumVariance::default()),
        Err(Error::PaddleSignature(SignatureError::MaxVarianceExceeded(5)))
    ));
}

#[test]
fn authenticate_reports_header_faults_first() {
    assert!(matches!(
        authenticate_at("{}", "k", "", MaximumVariance(None), 0, 0),
        Err(Error::PaddleSignature(SignatureError::Empty))
    ));
    let header = header_for("k", 10, "{}");
    assert!(authenticate_at("{}", "k", &header, MaximumVariance::seconds(1), 11, 0).is_ok());
    assert!(matches!(
        authenticate_at("{}", "k", &header, MaximumVariance::seconds(1), 12, 0),
        Err(Error::PaddleSignature(SignatureError::MaxVarianceExceeded(1)))
    ));
}

#[test]
fn default_variance_is_five_seconds() {
    assert_eq!(MaximumVariance::default(), MaximumVariance(Some(5)));
    assert_eq!(MaximumVariance::seconds(30), MaximumVariance(Some(30)));
}

#[test]
fn timestamp_outside_the_calendar_is_not_a_timestamp() {
    assert!(is_signature_error(&Signature::parse("ts=9000000000000000;h1=ab"), SignatureError::ParseError));
    assert!(is_signature_error(&Signature::parse("ts=-9000000000000000;h1=ab"), SignatureError::ParseError));
    assert!(Signature::parse("ts=8000000000000;h1=ab").is_ok());
}

#[test]
fn timestamp_range_is_that_of_chrono() {
    assert_eq!(chrono::DateTime::<chrono::Utc>::MIN_UTC.timestamp(), MIN_UTC_TIMESTAMP);
    assert_eq!(chrono::DateTime::<chrono::Utc>::MAX_UTC.timestamp(), MAX_UTC_TIMESTAMP);
    assert!(chrono::DateTime::from_timestamp(MIN_UTC_TIMESTAMP, 0).is_some());
    assert!(chrono::DateTime::from_timestamp(MIN_UTC_TIMESTAMP - 1, 0).is_none());
    assert!(chrono::DateTime::from_timestamp(MAX_UTC_TIMESTAMP, 0).is_some());
    assert!(chrono::DateTime::from_timestamp(MAX_UTC_TIMESTAMP + 1, 0).is_none());
    let h = format!("ts={};h1=ab", MAX_UTC_TIMESTAMP);
    assert_eq!(Signature::parse(&h).unwrap().timestamp, MAX_UTC_TIMESTAMP);
    let h = format!("ts={};h1=ab", MAX_UTC_TIMESTAMP + 1);
    assert!(is_signature_error(&Signature::parse(&h), SignatureError::ParseError));
    let h = format!("ts={};h1=ab", MIN_UTC_TIMESTAMP);
    assert_eq!(Signature::parse(&h).unwrap().timestamp, MIN_UTC_TIMESTAMP);
    let h = format!("ts={};h1=ab", MIN_UTC_TIMESTAMP - 1);
    assert!(is_signature_error(&Signature::parse(&h), SignatureError::ParseError));
}
