use relay_server::auth::{
    create_session, create_session_at, generate_otp, generate_session_token, otp_from_number,
    token_from_bytes, validate_otp, validate_otp_at, Session, SessionStatus,
};
use relay_server::clock::now_millis;
use relay_server::error::ErrorKind;

#[test]
fn test_generate_otp_format() {
    let otp = generate_otp();
    assert_eq!(otp.len(), 8, "OTP should be 8 digits");
    assert!(
        otp.chars().all(|c| c.is_ascii_digit()),
        "OTP should contain only digits"
    );
}

#[test]
fn test_generate_otp_uniqueness() {
    let otps: Vec<String> = (0..10).map(|_| generate_otp()).collect();
    let unique: std::collections::HashSet<&String> = otps.iter().collect();
    assert!(unique.len() > 1, "Generated OTPs should vary");
}

#[test]
fn test_generate_session_token_format() {
    let token = generate_session_token();
    assert_eq!(token.len(), 64, "Token should be 64 hex characters");
    assert!(
        token.chars().all(|c| c.is_ascii_hexdigit()),
        "Token should contain only hex characters"
    );
}

#[test]
fn test_generate_session_token_uniqueness() {
    let tokens: Vec<String> = (0..10).map(|_| generate_session_token()).collect();
    let unique: std::collections::HashSet<&String> = tokens.iter().collect();
    assert!(unique.len() > 1, "Generated tokens should vary");
}

#[test]
fn test_create_session() {
    let session = create_session("my-machine");
    assert!(!session.id.is_empty(), "Session ID should not be empty");
    assert!(
        uuid::Uuid::parse_str(&session.id).is_ok(),
        "Session ID should be a valid UUID"
    );
    assert_eq!(session.otp.len(), 8, "OTP should be 8 digits");
    assert_eq!(session.hostname, "my-machine");
    assert_eq!(session.status, SessionStatus::Pending);
    assert!(session.token.is_none(), "Token should be None initially");

    let expected_duration = chrono::Duration::minutes(5).num_milliseconds();
    let actual_duration = session.expires_at - session.created_at;
    assert_eq!(actual_duration, expected_duration);
}

#[test]
fn test_validate_otp_correct() {
    let session = create_session("test-host");
    let otp = session.otp.clone();
    assert!(validate_otp(&session, &otp), "Correct OTP should validate");
}

#[test]
fn test_validate_otp_wrong() {
    let session = create_session("test-host");
    assert!(
        !validate_otp(&session, "00000000"),
        "Wrong OTP should not validate"
    );
}

#[test]
fn test_validate_otp_expired() {
    let now = now_millis();
    let session = Session {
        id: uuid::Uuid::new_v4().to_string(),
        otp: "12345678".to_string(),
        hostname: "test-host".to_string(),
        status: SessionStatus::Pending,
        token: None,
        created_at: now - chrono::Duration::minutes(10).num_milliseconds(),
        expires_at: now - chrono::Duration::minutes(5).num_milliseconds(),
    };
    assert!(
        !validate_otp(&session, "12345678"),
        "Expired session OTP should not validate"
    );
}

#[test]
fn test_session_status_serialization() {
    let status = SessionStatus::Pending;
    let json = format!("\"{}\"", status.as_str());
    assert_eq!(json, "\"pending\"");

    let status = SessionStatus::Granted;
    let json = format!("\"{}\"", status.as_str());
    assert_eq!(json, "\"granted\"");

    let status = SessionStatus::Denied;
    let json = format!("\"{}\"", status.as_str());
    assert_eq!(json, "\"denied\"");

    let status = SessionStatus::Expired;
    let json = format!("\"{}\"", status.as_str());
    assert_eq!(json, "\"expired\"");
}

#[test]
fn test_session_status_deserialization() {
    let status: SessionStatus = SessionStatus::parse("\"pending\"".trim_matches('"')).unwrap();
    assert_eq!(status, SessionStatus::Pending);

    let status: SessionStatus = SessionStatus::parse("\"granted\"".trim_matches('"')).unwrap();
    assert_eq!(status, SessionStatus::Granted);
}

#[test]
fn session_status_parse_rejects_other_names() {
    assert_eq!(SessionStatus::parse("denied"), Some(SessionStatus::Denied));
    assert_eq!(SessionStatus::parse("expired"), Some(SessionStatus::Expired));
    assert_eq!(SessionStatus::parse("Pending"), None);
    assert_eq!(SessionStatus::parse(""), None);
}

#[test]
fn otp_from_number_writes_the_decimal_numeral() {
    assert_eq!(otp_from_number(10_000_000), "10000000");
    assert_eq!(otp_from_number(99_999_999), "99999999");
    assert_eq!(otp_from_number(12_345_678), "12345678");
    assert_eq!(otp_from_number(40_302_010), "40302010");
}

#[test]
fn generated_otp_lies_in_range() {
    for _ in 0..200 {
        let otp = generate_otp();
        let n: u32 = otp.parse().unwrap();
        assert!((10_000_000..100_000_000).contains(&n));
    }
}

#[test]
fn token_from_bytes_is_lowercase_hex() {
    assert_eq!(token_from_bytes(&vec![]), "");
    assert_eq!(token_from_bytes(&vec![0x00, 0x0f, 0xa0, 0xff]), "000fa0ff");
    assert_eq!(token_from_bytes(&vec![0x12, 0xab, 0xcd, 0xef, 0x09]), "12abcdef09");
    let bytes: Vec<u8> = (0..32).collect();
    let token = token_from_bytes(&bytes);
    assert_eq!(
        token,
        "000102030405060708090a0b0c0d0e0f101112131415161718191a1b1c1d1e1f"
    );
}

#[test]
fn generated_token_is_lowercase() {
    for _ in 0..50 {
        let token = generate_session_token();
        assert_eq!(token.len(), 64);
        assert!(token
            .chars()
            .all(|c| c.is_ascii_digit() || ('a'..='f').contains(&c)));
    }
}

#[test]
fn create_session_at_fills_every_field() {
    let session = create_session_at("box", "id-1".to_string(), "11112222".to_string(), 1_000);
    assert_eq!(session.id, "id-1");
    assert_eq!(session.otp, "11112222");
    assert_eq!(session.hostname, "box");
    assert_eq!(session.status, SessionStatus::Pending);
    assert_eq!(session.token, None);
    assert_eq!(session.created_at, 1_000);
    assert_eq!(session.expires_at, 301_000);
}

#[test]
fn create_session_at_holds_expiry_at_the_end_of_time() {
    let session = create_session_at("box", "id".to_string(), "11112222".to_string(), i64::MAX - 5);
    assert_eq!(session.expires_at, i64::MAX);
}

#[test]
fn validate_otp_at_checks_password_and_time() {
    let session = create_session_at("box", "id".to_string(), "11112222".to_string(), 0);
    assert!(validate_otp_at(&session, "11112222", 0));
    assert!(validate_otp_at(&session, "11112222", 300_000));
    assert!(!validate_otp_at(&session, "11112222", 300_001));
    assert!(!validate_otp_at(&session, "11112223", 10));
    assert!(!validate_otp_at(&session, "", 10));
}

#[test]
fn grant_checks_state_then_password_then_time() {
    let mut session = create_session_at("box", "id".to_string(), "11112222".to_string(), 0);
    assert_eq!(session.check_grant("11112222", 300_000), Ok(()));
    assert_eq!(session.check_grant("11112222", 300_001), Err(ErrorKind::Gone));
    assert_eq!(session.check_grant("00000000", 5), Err(ErrorKind::Unauthorized));
    assert_eq!(
        session.check_grant("00000000", 300_001),
        Err(ErrorKind::Unauthorized)
    );
    assert_eq!(session.check_deny(), Ok(()));
    session.status = SessionStatus::Denied;
    assert_eq!(session.check_grant("11112222", 5), Err(ErrorKind::Conflict));
    assert_eq!(session.check_grant("00000000", 300_001), Err(ErrorKind::Conflict));
    assert_eq!(session.check_deny(), Err(ErrorKind::Conflict));
}

#[test]
fn observed_status_shows_expiry_of_pending_only() {
    let mut session = create_session_at("box", "id".to_string(), "11112222".to_string(), 0);
    assert_eq!(session.observed_status(300_000), SessionStatus::Pending);
    assert_eq!(session.observed_status(300_001), SessionStatus::Expired);
    session.status = SessionStatus::Granted;
    assert_eq!(session.observed_status(300_001), SessionStatus::Granted);
    session.status = SessionStatus::Denied;
    assert_eq!(session.observed_status(900_000), SessionStatus::Denied);
}

#[test]
fn error_kinds_map_to_statuses() {
    assert_eq!(ErrorKind::NotFound.status_code(), 404);
    assert_eq!(ErrorKind::Validation.status_code(), 400);
    assert_eq!(ErrorKind::Unauthorized.status_code(), 401);
    assert_eq!(ErrorKind::Conflict.status_code(), 409);
    assert_eq!(ErrorKind::Gone.status_code(), 410);
    assert_eq!(ErrorKind::Timeout.status_code(), 504);
    assert_eq!(ErrorKind::Internal.status_code(), 500);
}

#[test]
fn a_created_session_expires_exactly_five_minutes_later() {
    for _ in 0..20 {
        let session = create_session("box");
        assert_eq!(session.expires_at - session.created_at, 300_000);
        assert!(session.created_at >= 0);
        assert_ne!(session.otp.as_bytes()[0], b'0');
    }
}
