use relay_server::clock::now_millis;
use relay_server::rtc_session::{
    create_rtc_session_handler, create_rtc_session_handler_with, delete_rtc_session_handler,
    get_rtc_session_handler, join_rtc_session_handler, join_rtc_session_handler_at, session_url,
    CreateRtcSessionRequest, JoinRtcSessionRequest, RtcSessionInner, RtcSessionStore,
};

fn hours(n: i64) -> i64 {
    chrono::Duration::hours(n).num_milliseconds()
}

fn create_request(app_id: &str, channel: &str, token: &str, host_uid: u32) -> CreateRtcSessionRequest {
    CreateRtcSessionRequest {
        app_id: app_id.to_string(),
        channel: channel.to_string(),
        token: token.to_string(),
        host_uid,
    }
}

fn join_request(name: &str) -> JoinRtcSessionRequest {
    JoinRtcSessionRequest { name: name.to_string() }
}

#[test]
fn rtc_session_test_create_and_get_session() {
    let mut store = RtcSessionStore::new();
    let session = store.create(
        "test-id".into(),
        "app123".into(),
        "my-channel".into(),
        "token-abc".into(),
        5678,
    );

    assert_eq!(session.id, "test-id");
    assert_eq!(session.app_id, "app123");
    assert_eq!(session.channel, "my-channel");
    assert_eq!(session.host_uid, 5678);

    let retrieved = store.get("test-id");
    assert!(retrieved.is_some());
    let retrieved = retrieved.unwrap();
    assert_eq!(retrieved.app_id, "app123");
    assert_eq!(retrieved.channel, "my-channel");
    assert_eq!(retrieved.token, "token-abc");
    assert_eq!(retrieved.host_uid, 5678);
}

#[test]
fn rtc_session_test_get_nonexistent() {
    let store = RtcSessionStore::new();
    assert!(store.get("does-not-exist").is_none());
}

#[test]
fn rtc_session_test_delete_session() {
    let mut store = RtcSessionStore::new();
    store.create("del-me".into(), "app".into(), "ch".into(), "tok".into(), 1);
    assert!(store.get("del-me").is_some());
    assert!(store.delete("del-me"));
    assert!(store.get("del-me").is_none());
}

#[test]
fn rtc_session_test_join_assigns_unique_uids() {
    let mut store = RtcSessionStore::new();
    store.create("join-test".into(), "app".into(), "ch".into(), "tok".into(), 1);

    let r1 = store.join("join-test", "Alice".into()).unwrap();
    let r2 = store.join("join-test", "Bob".into()).unwrap();
    let r3 = store.join("join-test", "Charlie".into()).unwrap();

    assert_eq!(r1.uid, 1000);
    assert_eq!(r2.uid, 1001);
    assert_eq!(r3.uid, 1002);
}

#[test]
fn rtc_session_test_join_nonexistent() {
    let mut store = RtcSessionStore::new();
    assert!(store.join("nope", "Alice".into()).is_err());
}

#[test]
fn rtc_session_test_join_returns_correct_session_info() {
    let mut store = RtcSessionStore::new();
    store.create(
        "info-test".into(),
        "my-app".into(),
        "room1".into(),
        "secret-token".into(),
        42,
    );

    let resp = store.join("info-test", "Dave".into()).unwrap();
    assert_eq!(resp.app_id, "my-app");
    assert_eq!(resp.channel, "room1");
    assert_eq!(resp.token, "secret-token");
    assert_eq!(resp.name, "Dave");
}

#[test]
fn rtc_session_test_join_records_participant_name() {
    let mut store = RtcSessionStore::new();
    store.create("part-test".into(), "app".into(), "ch".into(), "tok".into(), 1);

    let _ = store.join("part-test", "Alice".into());

    let session = store.get("part-test").unwrap();
    assert_eq!(session.participants.len(), 1);
    assert_eq!(
        session.participants[0].display_name,
        Some("Alice".to_string())
    );
    assert_eq!(session.participants[0].uid, 1000);
}

#[test]
fn rtc_session_test_cleanup_expired() {
    let mut store = RtcSessionStore::new();

    // A session whose four hours ran out an hour ago.
    store.create_at(
        "expired".into(),
        "a".into(),
        "c".into(),
        "t".into(),
        1,
        now_millis() - hours(5),
    );

    store.create("active".into(), "a".into(), "c".into(), "t".into(), 1);

    store.cleanup_expired();

    assert!(store.get("expired").is_none());
    assert!(store.get("active").is_some());
}

#[test]
fn rtc_session_test_cleanup_preserves_active() {
    let mut store = RtcSessionStore::new();
    store.create("keep-me".into(), "a".into(), "c".into(), "t".into(), 1);

    store.cleanup_expired();

    assert!(store.get("keep-me").is_some());
}

#[test]
fn rtc_session_test_uid_counter_starts_at_1000() {
    let mut store = RtcSessionStore::new();
    store.create("uid-test".into(), "a".into(), "c".into(), "t".into(), 1);

    let resp = store.join("uid-test", "First".into()).unwrap();
    assert_eq!(resp.uid, 1000);
}

#[test]
fn rtc_session_test_concurrent_joins() {
    let store = std::sync::Arc::new(std::sync::Mutex::new(RtcSessionStore::new()));
    store
        .lock()
        .unwrap()
        .create("concurrent".into(), "a".into(), "c".into(), "t".into(), 1);

    let mut uids = Vec::new();
    for i in 0..10 {
        let joined = store
            .lock()
            .unwrap()
            .join("concurrent", format!("User{}", i))
            .ok()
            .map(|r| r.uid);
        if let Some(uid) = joined {
            uids.push(uid);
        }
    }

    uids.sort();
    uids.dedup();
    assert_eq!(uids.len(), 8, "Should allow maximum 8 participants");
    assert_eq!(*uids.first().unwrap(), 1000);
    assert_eq!(*uids.last().unwrap(), 1007);
}

#[test]
fn rtc_session_test_max_participants_enforced() {
    let mut store = RtcSessionStore::new();
    store.create("full-test".into(), "a".into(), "c".into(), "t".into(), 1);

    for i in 0..8 {
        let result = store.join("full-test", format!("User{}", i));
        assert!(result.is_ok(), "User {} should join successfully", i);
    }

    let result = store.join("full-test", "User9".into());
    assert!(result.is_err());
    assert!(result.unwrap_err().contains("full"));
}

#[test]
fn rtc_session_test_create_session_handler() {
    let mut store = RtcSessionStore::new();
    let (status, resp) = create_rtc_session_handler(
        &mut store,
        Some("station.agora.build"),
        None,
        create_request("app1", "room", "tok", 5678),
    );

    assert_eq!(status, 201);
    assert!(!resp.id.is_empty());
    assert!(resp.url.starts_with("https://station.agora.build/session/"));
}

#[test]
fn rtc_session_test_get_session_handler() {
    let mut store = RtcSessionStore::new();
    store.create("get-test".into(), "app1".into(), "room1".into(), "tok".into(), 99);

    let resp = get_rtc_session_handler(&store, "get-test").unwrap();
    assert_eq!(resp.app_id, "app1");
    assert_eq!(resp.channel, "room1");
    assert_eq!(resp.host_uid, 99);
}

#[test]
fn rtc_session_test_get_session_not_found() {
    let store = RtcSessionStore::new();
    let (status, error) = get_rtc_session_handler(&store, "nonexistent").unwrap_err();
    assert_eq!(status, 404);
    assert_eq!(error.error, "Session not found");
}

#[test]
fn rtc_session_test_join_session_handler() {
    let mut store = RtcSessionStore::new();
    store.create("join-h".into(), "app1".into(), "room1".into(), "tok1".into(), 42);

    let resp = join_rtc_session_handler(&mut store, "join-h", join_request("Alice")).unwrap();
    assert_eq!(resp.app_id, "app1");
    assert_eq!(resp.channel, "room1");
    assert_eq!(resp.token, "tok1");
    assert_eq!(resp.uid, 1000);
    assert_eq!(resp.name, "Alice");
}

#[test]
fn rtc_session_test_join_session_not_found() {
    let mut store = RtcSessionStore::new();
    let (status, _) = join_rtc_session_handler(&mut store, "nope", join_request("Alice")).unwrap_err();
    assert_eq!(status, 404);
}

#[test]
fn rtc_session_test_delete_session_handler() {
    let mut store = RtcSessionStore::new();
    store.create("del-h".into(), "a".into(), "c".into(), "t".into(), 1);
    assert_eq!(delete_rtc_session_handler(&mut store, "del-h").unwrap(), 200);
}

#[test]
fn rtc_session_test_delete_session_not_found() {
    let mut store = RtcSessionStore::new();
    let (status, failure) = delete_rtc_session_handler(&mut store, "nope").unwrap_err();
    assert_eq!(status, 404);
    assert_eq!(failure.error, "Session not found");
}

#[test]
fn rtc_session_test_full_lifecycle() {
    let mut store = RtcSessionStore::new();

    let (status, created) = create_rtc_session_handler(
        &mut store,
        None,
        None,
        create_request("app1", "room", "tok", 5678),
    );
    assert_eq!(status, 201);
    let session_id = created.id;

    assert!(get_rtc_session_handler(&store, &session_id).is_ok());

    let join1 = join_rtc_session_handler(&mut store, &session_id, join_request("Alice")).unwrap();
    assert_eq!(join1.uid, 1000);

    let join2 = join_rtc_session_handler(&mut store, &session_id, join_request("Bob")).unwrap();
    assert_eq!(join2.uid, 1001);

    assert_eq!(delete_rtc_session_handler(&mut store, &session_id).unwrap(), 200);

    let (status, _) = get_rtc_session_handler(&store, &session_id).unwrap_err();
    assert_eq!(status, 404);
}

#[test]
fn test_join_session_full_handler() {
    let mut store = RtcSessionStore::new();
    store.create("full-h".into(), "app1".into(), "room1".into(), "tok1".into(), 42);

    for i in 0..8 {
        store.join("full-h", format!("User{}", i)).unwrap();
    }

    let (status, error) =
        join_rtc_session_handler(&mut store, "full-h", join_request("User9")).unwrap_err();
    assert_eq!(status, 409);
    assert!(error.error.contains("full"));
}

#[test]
fn test_concurrent_cleanup_and_join() {
    let mut store = RtcSessionStore::new();
    store.create("race-test".into(), "a".into(), "c".into(), "t".into(), 1);

    store.cleanup_expired();
    let _ = store.join("race-test", "RaceUser".into());

    let session = store.get("race-test");
    assert!(session.is_some(), "Session should not be cleaned up while active");
}

#[test]
fn test_session_url_format() {
    let mut store = RtcSessionStore::new();
    let (_, resp) = create_rtc_session_handler(
        &mut store,
        Some("station.agora.build"),
        None,
        create_request("app1", "room", "tok", 5678),
    );

    assert!(resp.url.starts_with("https://station.agora.build/session/"));
    assert!(resp.url.contains(&resp.id));
    assert!(uuid::Uuid::parse_str(&resp.id).is_ok(), "Session ID should be valid UUID");
}

#[test]
fn test_participant_names_persistence() {
    let mut store = RtcSessionStore::new();
    store.create("name-test".into(), "app".into(), "ch".into(), "tok".into(), 1);

    store.join("name-test", "Alice".into()).unwrap();
    store.join("name-test", "Bob".into()).unwrap();
    store.join("name-test", "Charlie".into()).unwrap();

    let session = store.get("name-test").unwrap();
    assert_eq!(session.participants.len(), 3);

    let names: Vec<String> = session
        .participants
        .iter()
        .filter_map(|p| p.display_name.clone())
        .collect();
    assert_eq!(names, vec!["Alice", "Bob", "Charlie"]);
}

#[test]
fn test_delete_session_with_participants() {
    let mut store = RtcSessionStore::new();
    store.create("del-part".into(), "app".into(), "ch".into(), "tok".into(), 1);

    store.join("del-part", "User1".into()).unwrap();
    store.join("del-part", "User2".into()).unwrap();

    assert!(store.delete("del-part"));
    assert!(store.get("del-part").is_none());
}

#[test]
fn test_cleanup_does_not_remove_active_sessions_with_participants() {
    let mut store = RtcSessionStore::new();
    store.create("active-with-parts".into(), "a".into(), "c".into(), "t".into(), 1);

    store.join("active-with-parts", "User1".into()).unwrap();
    store.join("active-with-parts", "User2".into()).unwrap();

    store.cleanup_expired();

    let session = store.get("active-with-parts");
    assert!(session.is_some());
    assert_eq!(session.unwrap().participants.len(), 2);
}

#[test]
fn ten_joins_give_eight_uids_in_order() {
    let mut store = RtcSessionStore::new();
    store.create_at("s".into(), "a".into(), "c".into(), "t".into(), 1, 0);
    let mut uids = Vec::new();
    let mut refusals = Vec::new();
    for i in 0..10 {
        match store.join_at("s", format!("U{}", i), 10 + i) {
            Ok(joined) => uids.push(joined.uid),
            Err(message) => refusals.push(message),
        }
    }
    assert_eq!(uids, vec![1000, 1001, 1002, 1003, 1004, 1005, 1006, 1007]);
    assert_eq!(
        refusals,
        vec![
            "Session is full (maximum 8 participants)",
            "Session is full (maximum 8 participants)"
        ]
    );
    let session = store.get("s").unwrap();
    assert_eq!(session.uid_counter_value, 1008);
    assert_eq!(session.participants.len(), 8);
    for (i, p) in session.participants.iter().enumerate() {
        assert_eq!(p.uid, 1000 + i as u32);
        assert_eq!(p.display_name, Some(format!("U{}", i)));
        assert_eq!(p.joined_at, 10 + i as i64);
    }
}

#[test]
fn a_refused_join_leaves_the_counter_alone() {
    let mut inner = RtcSessionInner::new_at("s".into(), "a".into(), "c".into(), "t".into(), 9, 50);
    assert_eq!(inner.uid_counter, 1000);
    assert_eq!(inner.created_at, 50);
    assert_eq!(inner.expires_at, 50 + hours(4));
    for i in 0..8 {
        inner.join_at(format!("U{}", i), 60).unwrap();
    }
    assert_eq!(inner.uid_counter, 1008);
    assert!(inner.join_at("late".into(), 61).is_err());
    assert_eq!(inner.uid_counter, 1008);
    assert_eq!(inner.participants.len(), 8);
    let snapshot = inner.snapshot();
    assert_eq!(snapshot.uid_counter_value, 1008);
    assert_eq!(snapshot.host_uid, 9);
    assert_eq!(snapshot.participants.len(), 8);
}

#[test]
fn the_counter_wraps_at_the_end_of_its_range() {
    let mut inner = RtcSessionInner::new_at("s".into(), "a".into(), "c".into(), "t".into(), 9, 0);
    inner.uid_counter = u32::MAX;
    let joined = inner.join_at("x".into(), 1).unwrap();
    assert_eq!(joined.uid, u32::MAX);
    assert_eq!(inner.uid_counter, 0);
}

#[test]
fn join_reports_the_unknown_session() {
    let mut store = RtcSessionStore::new();
    assert_eq!(
        store.join_at("nope", "A".into(), 0).unwrap_err(),
        "Session not found"
    );
    assert!(!store.delete("nope"));
}

#[test]
fn cleanup_expired_at_goes_by_the_expiry_instant() {
    let mut store = RtcSessionStore::new();
    store.create_at("a".into(), "a".into(), "c".into(), "t".into(), 1, 0);
    store.create_at("b".into(), "a".into(), "c".into(), "t".into(), 1, 1);
    store.cleanup_expired_at(hours(4));
    assert!(store.get("a").is_some());
    store.cleanup_expired_at(hours(4) + 1);
    assert!(store.get("a").is_none());
    assert!(store.get("b").is_some());
    store.cleanup_expired_at(hours(4) + 2);
    assert!(store.get("b").is_none());
}

#[test]
fn session_url_picks_the_protocol() {
    assert_eq!(
        session_url(None, None, "abc"),
        "http://localhost:8080/session/abc"
    );
    assert_eq!(
        session_url(Some("example.org"), None, "abc"),
        "https://example.org/session/abc"
    );
    assert_eq!(
        session_url(Some("example.org"), Some("http"), "abc"),
        "http://example.org/session/abc"
    );
    assert_eq!(
        session_url(Some("localhost:3000"), Some("https"), "abc"),
        "https://localhost:3000/session/abc"
    );
    assert_eq!(
        session_url(Some("my.localhost.test"), None, "i"),
        "http://my.localhost.test/session/i"
    );
    assert_eq!(
        session_url(Some("127.0.0.1:80"), None, "i"),
        "http://127.0.0.1:80/session/i"
    );
    assert_eq!(
        session_url(Some("192.168.1.5"), None, "i"),
        "http://192.168.1.5/session/i"
    );
    assert_eq!(session_url(Some("10.0.0.1"), None, "i"), "http://10.0.0.1/session/i");
    assert_eq!(
        session_url(Some("110.0.0.1"), None, "i"),
        "https://110.0.0.1/session/i"
    );
    assert_eq!(
        session_url(Some("1.127.0.0.1"), None, "i"),
        "https://1.127.0.0.1/session/i"
    );
    assert_eq!(session_url(Some(""), None, "i"), "https:///session/i");
}

#[test]
fn create_handler_refuses_fields_out_of_range() {
    let mut store = RtcSessionStore::new();
    let (status, resp) = create_rtc_session_handler_with(
        &mut store,
        None,
        None,
        create_request("", "room", "tok", 1),
        "id".into(),
        0,
    );
    assert_eq!(status, 400);
    assert_eq!(resp.id, "");
    assert_eq!(resp.url, "Validation error: app_id: length is out of range");
    assert!(store.get("id").is_none());

    let long_channel = "c".repeat(65);
    let (status, resp) = create_rtc_session_handler_with(
        &mut store,
        None,
        None,
        create_request("app", &long_channel, "tok", 1),
        "id".into(),
        0,
    );
    assert_eq!(status, 400);
    assert_eq!(resp.url, "Validation error: channel: length is out of range");

    let (status, resp) = create_rtc_session_handler_with(
        &mut store,
        None,
        None,
        create_request("app", "room", &"t".repeat(4097), 1),
        "id".into(),
        0,
    );
    assert_eq!(status, 400);
    assert_eq!(resp.url, "Validation error: token: length is out of range");

    let (status, resp) = create_rtc_session_handler_with(
        &mut store,
        Some("h"),
        Some("wss"),
        create_request(&"a".repeat(255), &"c".repeat(64), &"t".repeat(4096), 1),
        "id".into(),
        7,
    );
    assert_eq!(status, 201);
    assert_eq!(resp.id, "id");
    assert_eq!(resp.url, "wss://h/session/id");
    let stored = store.get("id").unwrap();
    assert_eq!(stored.created_at, 7);
    assert_eq!(stored.expires_at, 7 + hours(4));
    assert_eq!(stored.uid_counter_value, 1000);
}

#[test]
fn validation_counts_characters() {
    let name = "é".repeat(100);
    assert_eq!(name.len(), 200);
    assert!(join_request(&name).validate().is_ok());
    assert!(join_request(&"é".repeat(101)).validate().is_err());
    assert!(join_request("").validate().is_err());
}

#[test]
fn join_handler_checks_the_name_first() {
    let mut store = RtcSessionStore::new();
    let (status, error) =
        join_rtc_session_handler_at(&mut store, "nope", join_request(""), 0).unwrap_err();
    assert_eq!(status, 400);
    assert_eq!(error.error, "Validation error: name: length is out of range");
    let (status, error) =
        join_rtc_session_handler_at(&mut store, "nope", join_request("A"), 0).unwrap_err();
    assert_eq!(status, 404);
    assert_eq!(error.error, "Session not found");
    store.create_at("s".into(), "a".into(), "c".into(), "t".into(), 1, 0);
    for i in 0..8 {
        let joined =
            join_rtc_session_handler_at(&mut store, "s", join_request("A"), 5).unwrap();
        assert_eq!(joined.uid, 1000 + i);
    }
    let (status, error) =
        join_rtc_session_handler_at(&mut store, "s", join_request("A"), 5).unwrap_err();
    assert_eq!(status, 409);
    assert_eq!(error.error, "Session is full (maximum 8 participants)");
}
