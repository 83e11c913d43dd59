use relay_server::auth::{
    create_session, create_session_at, generate_session_token, validate_otp, Session,
    SessionStatus,
};
use relay_server::clock::now_millis;
use relay_server::error::ErrorKind;
use relay_server::session_store::SessionStore;

fn minutes(n: i64) -> i64 {
    chrono::Duration::minutes(n).num_milliseconds()
}

#[test]
fn session_store_test_create_and_get_session() {
    let mut store = SessionStore::new();
    let session = create_session("test-host");
    let id = session.id.clone();

    store.create(session.clone());
    let retrieved = store.get(&id);

    assert!(retrieved.is_some());
    let retrieved = retrieved.unwrap();
    assert_eq!(retrieved.id, id);
    assert_eq!(retrieved.hostname, "test-host");
    assert_eq!(retrieved.status, SessionStatus::Pending);
}

#[test]
fn session_store_test_get_nonexistent_session() {
    let store = SessionStore::new();
    let result = store.get("nonexistent-id");
    assert!(result.is_none());
}

#[test]
fn test_update_session() {
    let mut store = SessionStore::new();
    let mut session = create_session("test-host");
    let id = session.id.clone();

    store.create(session.clone());

    session.status = SessionStatus::Granted;
    session.token = Some("test-token".to_string());
    store.update(&id, session);

    let retrieved = store.get(&id).unwrap();
    assert_eq!(retrieved.status, SessionStatus::Granted);
    assert_eq!(retrieved.token, Some("test-token".to_string()));
}

#[test]
fn session_store_test_delete_session() {
    let mut store = SessionStore::new();
    let session = create_session("test-host");
    let id = session.id.clone();

    store.create(session);
    assert!(store.get(&id).is_some());

    store.delete(&id);
    assert!(store.get(&id).is_none());
}

#[test]
fn test_cleanup_expired_sessions() {
    let mut store = SessionStore::new();
    let now = now_millis();

    let expired_session = Session {
        id: uuid::Uuid::new_v4().to_string(),
        otp: "12345678".to_string(),
        hostname: "expired-host".to_string(),
        status: SessionStatus::Pending,
        token: None,
        created_at: now - minutes(10),
        expires_at: now - minutes(5),
    };
    let expired_id = expired_session.id.clone();
    store.create(expired_session);

    let active_session = create_session("active-host");
    let active_id = active_session.id.clone();
    store.create(active_session);

    let granted_session = Session {
        id: uuid::Uuid::new_v4().to_string(),
        otp: "87654321".to_string(),
        hostname: "granted-host".to_string(),
        status: SessionStatus::Granted,
        token: Some("some-token".to_string()),
        created_at: now - minutes(10),
        expires_at: now - minutes(5),
    };
    let granted_id = granted_session.id.clone();
    store.create(granted_session);

    store.cleanup_expired();

    assert!(store.get(&expired_id).is_none());
    assert!(store.get(&active_id).is_some());
    assert!(store.get(&granted_id).is_some());
}

#[test]
fn test_session_lifecycle_grant() {
    let mut store = SessionStore::new();
    let session = create_session("my-machine");
    let id = session.id.clone();
    let otp = session.otp.clone();

    store.create(session);

    let s = store.get(&id).unwrap();
    assert_eq!(s.status, SessionStatus::Pending);
    assert!(s.token.is_none());

    let mut s = store.get(&id).unwrap();
    if validate_otp(&s, &otp) {
        s.status = SessionStatus::Granted;
        s.token = Some(generate_session_token());
        store.update(&id, s);
    }

    let s = store.get(&id).unwrap();
    assert_eq!(s.status, SessionStatus::Granted);
    assert!(s.token.is_some());
    assert_eq!(s.token.as_ref().unwrap().len(), 64);
}

#[test]
fn test_session_lifecycle_deny() {
    let mut store = SessionStore::new();
    let session = create_session("my-machine");
    let id = session.id.clone();

    store.create(session);

    let mut s = store.get(&id).unwrap();
    s.status = SessionStatus::Denied;
    store.update(&id, s);

    let s = store.get(&id).unwrap();
    assert_eq!(s.status, SessionStatus::Denied);
    assert!(s.token.is_none());
}

fn store_with(id: &str, otp: &str, now: i64) -> SessionStore {
    let mut store = SessionStore::new();
    store.create(create_session_at("host", id.to_string(), otp.to_string(), now));
    store
}

#[test]
fn grant_with_issues_the_token_once() {
    let mut store = store_with("a", "12345678", 1_000);
    let granted = store
        .grant_with("a", "12345678", 2_000, "t".repeat(64))
        .unwrap();
    assert_eq!(granted.status, SessionStatus::Granted);
    assert_eq!(granted.token, Some("t".repeat(64)));
    assert_eq!(granted.id, "a");
    let stored = store.get("a").unwrap();
    assert_eq!(stored.status, SessionStatus::Granted);
    assert_eq!(stored.token, Some("t".repeat(64)));
    assert_eq!(stored.created_at, 1_000);
    assert_eq!(stored.expires_at, 301_000);

    let again = store.grant_with("a", "12345678", 2_000, "u".repeat(64));
    assert_eq!(again.unwrap_err(), ErrorKind::Conflict);
    assert_eq!(store.get("a").unwrap().token, Some("t".repeat(64)));
    assert_eq!(store.deny("a").unwrap_err(), ErrorKind::Conflict);
}

#[test]
fn grant_with_reports_each_failure() {
    let mut store = store_with("a", "12345678", 1_000);
    assert_eq!(
        store
            .grant_with("b", "12345678", 2_000, "t".to_string())
            .unwrap_err(),
        ErrorKind::NotFound
    );
    assert_eq!(
        store
            .grant_with("a", "00000000", 2_000, "t".to_string())
            .unwrap_err(),
        ErrorKind::Unauthorized
    );
    assert_eq!(
        store
            .grant_with("a", "00000000", 999_000, "t".to_string())
            .unwrap_err(),
        ErrorKind::Unauthorized
    );
    assert_eq!(
        store
            .grant_with("a", "12345678", 301_001, "t".to_string())
            .unwrap_err(),
        ErrorKind::Gone
    );
    let stored = store.get("a").unwrap();
    assert_eq!(stored.status, SessionStatus::Pending);
    assert_eq!(stored.token, None);
    assert!(store.grant_with("a", "12345678", 301_000, "t".to_string()).is_ok());
}

#[test]
fn grant_now_issues_a_hex_token() {
    let mut store = SessionStore::new();
    let session = create_session("host");
    let (id, otp) = (session.id.clone(), session.otp.clone());
    store.create(session);
    assert_eq!(store.grant(&id, "0000000").unwrap_err(), ErrorKind::Unauthorized);
    assert_eq!(store.grant("nope", &otp).unwrap_err(), ErrorKind::NotFound);
    let granted = store.grant(&id, &otp).unwrap();
    let token = granted.token.unwrap();
    assert_eq!(token.len(), 64);
    assert!(token
        .chars()
        .all(|c| c.is_ascii_digit() || ('a'..='f').contains(&c)));
    assert_eq!(store.get(&id).unwrap().token, Some(token));
    assert_eq!(store.grant(&id, &otp).unwrap_err(), ErrorKind::Conflict);
}

#[test]
fn deny_is_final() {
    let mut store = store_with("a", "12345678", 1_000);
    assert_eq!(store.deny("zzz").unwrap_err(), ErrorKind::NotFound);
    let denied = store.deny("a").unwrap();
    assert_eq!(denied.status, SessionStatus::Denied);
    assert_eq!(denied.token, None);
    assert_eq!(store.get("a").unwrap().status, SessionStatus::Denied);
    assert_eq!(store.deny("a").unwrap_err(), ErrorKind::Conflict);
    assert_eq!(
        store
            .grant_with("a", "12345678", 2_000, "t".to_string())
            .unwrap_err(),
        ErrorKind::Conflict
    );
}

#[test]
fn observe_at_shows_expired_without_storing_it() {
    let store = store_with("a", "12345678", 0);
    assert_eq!(store.observe_at("a", 300_000).unwrap().status, SessionStatus::Pending);
    assert_eq!(store.observe_at("a", 300_001).unwrap().status, SessionStatus::Expired);
    assert_eq!(store.get("a").unwrap().status, SessionStatus::Pending);
    assert!(store.observe_at("b", 0).is_none());
}

#[test]
fn cleanup_expired_at_removes_only_lapsed_pending_sessions() {
    let mut store = SessionStore::new();
    store.create(create_session_at("h", "old".to_string(), "11111111".to_string(), 0));
    store.create(create_session_at("h", "edge".to_string(), "11111111".to_string(), 100));
    store.create(create_session_at("h", "granted".to_string(), "11111111".to_string(), 0));
    store.create(create_session_at("h", "denied".to_string(), "11111111".to_string(), 0));
    store
        .grant_with("granted", "11111111", 10, "t".to_string())
        .unwrap();
    store.deny("denied").unwrap();

    store.cleanup_expired_at(300_100);
    assert!(store.get("old").is_none());
    assert!(store.get("edge").is_some());
    assert!(store.get("granted").is_some());
    assert!(store.get("denied").is_some());

    store.cleanup_expired_at(300_101);
    assert!(store.get("edge").is_none());
    assert_eq!(store.get("granted").unwrap().token, Some("t".to_string()));
    assert_eq!(store.get("denied").unwrap().status, SessionStatus::Denied);
}

#[test]
fn update_stores_under_the_given_key() {
    let mut store = SessionStore::new();
    let session = create_session_at("h", "inner".to_string(), "11111111".to_string(), 0);
    store.update("outer", session);
    assert!(store.get("inner").is_none());
    assert_eq!(store.get("outer").unwrap().id, "inner");
}
