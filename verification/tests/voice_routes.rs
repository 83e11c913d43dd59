use relay_server::voice_routes::{
    atem_response_handler, atem_response_handler_at, create_voice_session_handler,
    create_voice_session_handler_with, delete_voice_session_handler, get_voice_session_handler,
    list_voice_sessions_handler, trigger_voice_session_handler, trigger_voice_session_handler_at,
};
use relay_server::voice_session::{
    AtemResponseRequest, CreateVoiceSessionRequest, VoiceSessionState, VoiceSessionStore,
};

#[test]
fn test_create_voice_session() {
    let mut store = VoiceSessionStore::new();
    let req = CreateVoiceSessionRequest {
        atem_id: "atem-123".to_string(),
        channel: "test-channel".to_string(),
    };

    let response = create_voice_session_handler(&mut store, &req);
    assert_eq!(response.atem_id, "atem-123");
    assert_eq!(response.channel, "test-channel");
}

#[test]
fn test_trigger_voice_session() {
    let mut store = VoiceSessionStore::new();
    store.create(
        "test-123".to_string(),
        "atem-456".to_string(),
        "channel-789".to_string(),
    );

    store.add_transcription("test-123", "Hello world".to_string());

    let result = trigger_voice_session_handler(&mut store, "test-123");

    assert!(result.is_ok());
    let response = result.unwrap();
    assert_eq!(response.accumulated_text, "Hello world");
}

#[test]
fn test_atem_response() {
    let mut store = VoiceSessionStore::new();
    store.create(
        "test-123".to_string(),
        "atem-456".to_string(),
        "channel-789".to_string(),
    );

    let req = AtemResponseRequest {
        session_id: "test-123".to_string(),
        response: "Here's the implementation...".to_string(),
    };

    let result = atem_response_handler(&mut store, &req);
    assert!(result.is_ok());

    let session = store.get("test-123").unwrap();
    assert_eq!(session.response, Some("Here's the implementation...".to_string()));
}

#[test]
fn test_get_voice_session() {
    let mut store = VoiceSessionStore::new();
    store.create(
        "test-123".to_string(),
        "atem-456".to_string(),
        "channel-789".to_string(),
    );

    let result = get_voice_session_handler(&store, "test-123");

    assert!(result.is_ok());
    let response = result.unwrap();
    assert_eq!(response.session_id, "test-123");
    assert_eq!(response.atem_id, "atem-456");
}

#[test]
fn test_delete_voice_session() {
    let mut store = VoiceSessionStore::new();
    store.create(
        "test-123".to_string(),
        "atem-456".to_string(),
        "channel-789".to_string(),
    );

    let status = delete_voice_session_handler(&mut store, "test-123");
    assert_eq!(status, 200);

    let session = store.get("test-123");
    assert!(session.is_none());
}

#[test]
fn test_list_voice_sessions() {
    let mut store = VoiceSessionStore::new();
    store.create("test-1".to_string(), "atem".to_string(), "ch".to_string());
    store.create("test-2".to_string(), "atem".to_string(), "ch".to_string());

    let response = list_voice_sessions_handler(&store);
    assert_eq!(response.count, 2);
}

#[test]
fn test_trigger_nonexistent_session() {
    let mut store = VoiceSessionStore::new();

    let result = trigger_voice_session_handler(&mut store, "nonexistent");

    assert!(result.is_err());
    assert_eq!(result.unwrap_err().0, 404);
}

#[test]
fn test_response_nonexistent_session() {
    let mut store = VoiceSessionStore::new();

    let req = AtemResponseRequest {
        session_id: "nonexistent".to_string(),
        response: "Some response".to_string(),
    };

    let result = atem_response_handler(&mut store, &req);

    assert!(result.is_err());
    assert_eq!(result.unwrap_err().0, 404);
}

#[test]
fn voice_routes_test_get_nonexistent_session() {
    let store = VoiceSessionStore::new();

    let result = get_voice_session_handler(&store, "nonexistent");

    assert!(result.is_err());
    assert_eq!(result.unwrap_err().0, 404);
}

#[test]
fn test_trigger_empty_buffer() {
    let mut store = VoiceSessionStore::new();
    store.create(
        "test-empty".to_string(),
        "atem-1".to_string(),
        "channel-1".to_string(),
    );

    let result = trigger_voice_session_handler(&mut store, "test-empty");

    assert!(result.is_ok());
    let response = result.unwrap();
    assert_eq!(response.accumulated_text, "");
}

#[test]
fn test_trigger_sets_state() {
    let mut store = VoiceSessionStore::new();
    store.create(
        "test-state".to_string(),
        "atem-1".to_string(),
        "channel-1".to_string(),
    );

    store.add_transcription("test-state", "Hello".to_string());
    trigger_voice_session_handler(&mut store, "test-state").unwrap();

    let session = store.get("test-state").unwrap();
    assert_eq!(session.state, VoiceSessionState::Triggered);
}

#[test]
fn test_response_sets_state() {
    let mut store = VoiceSessionStore::new();
    store.create(
        "test-resp".to_string(),
        "atem-1".to_string(),
        "channel-1".to_string(),
    );

    let req = AtemResponseRequest {
        session_id: "test-resp".to_string(),
        response: "Done!".to_string(),
    };
    atem_response_handler(&mut store, &req).unwrap();

    let session = store.get("test-resp").unwrap();
    assert_eq!(session.state, VoiceSessionState::ResponseReady);
    assert_eq!(session.response, Some("Done!".to_string()));
}

#[test]
fn test_multiple_transcriptions_accumulated() {
    let mut store = VoiceSessionStore::new();
    store.create(
        "test-multi".to_string(),
        "atem-1".to_string(),
        "channel-1".to_string(),
    );

    store.add_transcription("test-multi", "Please".to_string());
    store.add_transcription("test-multi", "create".to_string());
    store.add_transcription("test-multi", "a function".to_string());

    let result = trigger_voice_session_handler(&mut store, "test-multi");

    assert!(result.is_ok());
    let response = result.unwrap();
    assert_eq!(response.accumulated_text, "Please create a function");
}

#[test]
fn the_handlers_at_given_instants() {
    let mut store = VoiceSessionStore::new();
    let req = CreateVoiceSessionRequest { atem_id: "atem".into(), channel: "ch".into() };
    let created = create_voice_session_handler_with(&mut store, &req, "V".into(), 77);
    assert_eq!(created.session_id, "V");
    assert_eq!(created.created_at, 77);

    store.add_transcription_at("V", "a".into(), 80);
    store.add_transcription_at("V", "b".into(), 81);
    let waiter = store.register_waiter("V".into());

    let triggered = trigger_voice_session_handler_at(&mut store, "V", 90).unwrap();
    assert_eq!(triggered.session_id, "V");
    assert_eq!(triggered.atem_id, "atem");
    assert_eq!(triggered.accumulated_text, "a b");

    let info = get_voice_session_handler(&store, "V").unwrap();
    assert_eq!(info.state, VoiceSessionState::Triggered);
    assert_eq!(info.buffer_size, 2);
    assert_eq!(info.accumulated_text, "a b");
    assert!(!info.has_response);
    assert_eq!((info.created_at, info.last_activity, info.request_count), (77, 90, 0));
    assert_eq!(info.channel, "ch");

    let respond = AtemResponseRequest { session_id: "V".into(), response: "ok".into() };
    let (answer, woken) = atem_response_handler_at(&mut store, &respond, 95).unwrap();
    assert!(answer.success);
    assert_eq!(answer.message, "Response received for session V");
    assert_eq!(woken, vec![waiter]);

    let info = get_voice_session_handler(&store, "V").unwrap();
    assert_eq!(info.state, VoiceSessionState::ResponseReady);
    assert!(info.has_response);
    assert_eq!(info.last_activity, 95);

    let (_, woken) = atem_response_handler_at(&mut store, &respond, 96).unwrap();
    assert!(woken.is_empty());

    let (status, failure) = get_voice_session_handler(&store, "W").unwrap_err();
    assert_eq!((status, failure.error.as_str()), (404, "Session not found"));

    let list = list_voice_sessions_handler(&store);
    assert_eq!(list.sessions, vec!["V"]);
    assert_eq!(list.count, 1);
    assert_eq!(delete_voice_session_handler(&mut store, "V"), 200);
    assert_eq!(delete_voice_session_handler(&mut store, "V"), 200);
    assert_eq!(list_voice_sessions_handler(&store).count, 0);
}
