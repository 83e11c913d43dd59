//! What the endpoints of the voice sessions decide.

use vstd::prelude::*;
use crate::clock::now_millis;
use crate::error::{status_of, ErrorKind};
use crate::ident::{is_uuid_text, new_id};
use crate::routes::ErrorResponse;
use crate::text::texts;
use crate::voice_session::{
    AtemResponseRequest, AtemResponseResponse, CreateVoiceSessionRequest,
    CreateVoiceSessionResponse, TriggerResponse, VoiceSessionState, VoiceSessionStore,
    VoiceSessionView,
};

verus! {

/// What is shown of a voice session for debugging.
#[derive(Debug)]
pub struct VoiceSessionInfo {
    pub session_id: String,
    pub atem_id: String,
    pub channel: String,
    pub state: VoiceSessionState,
    pub buffer_size: usize,
    pub accumulated_text: String,
    pub has_response: bool,
    /// Milliseconds since the epoch.
    pub created_at: i64,
    /// Milliseconds since the epoch.
    pub last_activity: i64,
    pub request_count: u32,
}

/// The identifiers of the stored sessions and their number.
#[derive(Debug)]
pub struct VoiceSessionList {
    pub sessions: Vec<String>,
    pub count: usize,
}

/// What every endpoint answers for an unknown session.
pub const VOICE_SESSION_NOT_FOUND: &'static str = "Session not found";

/// The failure that reports an unknown session.
pub fn not_found() -> (failure: (u16, ErrorResponse))
    ensures
        failure.0 == status_of(ErrorKind::NotFound),
        failure.1.error@ == VOICE_SESSION_NOT_FOUND@,
{
    (
        ErrorKind::NotFound.status_code(),
        ErrorResponse { error: String::from_str(VOICE_SESSION_NOT_FOUND) },
    )
}

/// What is answered when a response was taken for the session `id`.
pub open spec fn received_message(id: Seq<char>) -> Seq<char> {
    "Response received for session "@ + id
}

/// Creates a voice session under `session_id` at `now` for the controller
/// and channel that the request names.
pub fn create_voice_session_handler_with(
    store: &mut VoiceSessionStore,
    req: &CreateVoiceSessionRequest,
    session_id: String,
    now: i64,
) -> (created: CreateVoiceSessionResponse)
    ensures
        created.session_id@ == session_id@,
        created.atem_id@ == req.atem_id@,
        created.channel@ == req.channel@,
        created.created_at == now,
        final(store)@ == old(store)@.insert(
            session_id@,
            VoiceSessionView::fresh(session_id@, req.atem_id@, req.channel@, now),
        ),
        forall|id: Seq<char>| #[trigger] final(store).waiting(id) == old(store).waiting(id),
        final(store).next_waiter_id() == old(store).next_waiter_id(),
{
    let session = store.create_at(session_id, req.atem_id.clone(), req.channel.clone(), now);
    CreateVoiceSessionResponse {
        session_id: session.session_id,
        atem_id: session.atem_id,
        channel: session.channel,
        created_at: session.created_at,
    }
}

/// Creates a voice session now, under a fresh identifier.
pub fn create_voice_session_handler(
    store: &mut VoiceSessionStore,
    req: &CreateVoiceSessionRequest,
) -> (created: CreateVoiceSessionResponse)
    ensures
        is_uuid_text(created.session_id@),
        created.atem_id@ == req.atem_id@,
        created.channel@ == req.channel@,
        final(store)@ == old(store)@.insert(
            created.session_id@,
            VoiceSessionView::fresh(
                created.session_id@,
                req.atem_id@,
                req.channel@,
                created.created_at,
            ),
        ),
        forall|id: Seq<char>| #[trigger] final(store).waiting(id) == old(store).waiting(id),
        final(store).next_waiter_id() == old(store).next_waiter_id(),
{
    let now = now_millis();
    create_voice_session_handler_with(store, req, new_id(), now)
}

/// Triggers the session at `now` and answers the accumulated text; an
/// unknown session is answered with status 404 and changes nothing.
pub fn trigger_voice_session_handler_at(
    store: &mut VoiceSessionStore,
    session_id: &str,
    now: i64,
) -> (reply: Result<TriggerResponse, (u16, ErrorResponse)>)
    ensures
        match reply {
            Ok(triggered) => {
                &&& old(store)@.dom().contains(session_id@)
                &&& triggered.session_id@ == old(store)@[session_id@].session_id
                &&& triggered.atem_id@ == old(store)@[session_id@].atem_id
                &&& triggered.accumulated_text@ == old(store)@[session_id@].accumulated_text()
                &&& final(store)@ == old(store)@.insert(
                    session_id@,
                    old(store)@[session_id@].triggered(now),
                )
            },
            Err((status, failure)) => {
                &&& !old(store)@.dom().contains(session_id@)
                &&& status == status_of(ErrorKind::NotFound)
                &&& failure.error@ == VOICE_SESSION_NOT_FOUND@
                &&& final(store)@ == old(store)@
            },
        },
        forall|id: Seq<char>| #[trigger] final(store).waiting(id) == old(store).waiting(id),
        final(store).next_waiter_id() == old(store).next_waiter_id(),
{
    let accumulated_text = match store.trigger_at(session_id, now) {
        Some(text) => text,
        None => {
            return Err(not_found());
        },
    };
    match store.get(session_id) {
        Some(session) => Ok(
            TriggerResponse {
                session_id: session.session_id,
                accumulated_text,
                atem_id: session.atem_id,
            },
        ),
        None => Err(not_found()),
    }
}

/// Triggers the session, now, and answers the accumulated text; an unknown
/// session is answered with status 404 and changes nothing.
pub fn trigger_voice_session_handler(store: &mut VoiceSessionStore, session_id: &str) -> (reply:
    Result<TriggerResponse, (u16, ErrorResponse)>)
    ensures
        match reply {
            Ok(triggered) => {
                &&& old(store)@.dom().contains(session_id@)
                &&& triggered.session_id@ == old(store)@[session_id@].session_id
                &&& triggered.atem_id@ == old(store)@[session_id@].atem_id
                &&& triggered.accumulated_text@ == old(store)@[session_id@].accumulated_text()
                &&& final(store)@ == old(store)@.insert(
                    session_id@,
                    old(store)@[session_id@].triggered(final(store)@[session_id@].last_activity),
                )
            },
            Err((status, failure)) => {
                &&& !old(store)@.dom().contains(session_id@)
                &&& status == status_of(ErrorKind::NotFound)
                &&& failure.error@ == VOICE_SESSION_NOT_FOUND@
                &&& final(store)@ == old(store)@
            },
        },
        forall|id: Seq<char>| #[trigger] final(store).waiting(id) == old(store).waiting(id),
        final(store).next_waiter_id() == old(store).next_waiter_id(),
{
    trigger_voice_session_handler_at(store, session_id, now_millis())
}

/// Takes the controller's response for a session at `now`: the session
/// becomes ready with it, and the answer comes with the waiters that are to
/// be woken with the response. An unknown session is answered with status
/// 404 and changes nothing.
pub fn atem_response_handler_at(
    store: &mut VoiceSessionStore,
    req: &AtemResponseRequest,
    now: i64,
) -> (reply: Result<(AtemResponseResponse, Vec<u64>), (u16, ErrorResponse)>)
    ensures
        match reply {
            Ok((answer, woken)) => {
                &&& old(store)@.dom().contains(req.session_id@)
                &&& answer.success
                &&& answer.message@ == received_message(req.session_id@)
                &&& woken@ == old(store).waiting(req.session_id@)
                &&& final(store)@ == old(store)@.insert(
                    req.session_id@,
                    old(store)@[req.session_id@].with_response(req.response@, now),
                )
                &&& final(store).waiting(req.session_id@) == Seq::<u64>::empty()
            },
            Err((status, failure)) => {
                &&& !old(store)@.dom().contains(req.session_id@)
                &&& status == status_of(ErrorKind::NotFound)
                &&& failure.error@ == VOICE_SESSION_NOT_FOUND@
                &&& final(store)@ == old(store)@
                &&& final(store).waiting(req.session_id@) == old(store).waiting(req.session_id@)
            },
        },
        forall|id: Seq<char>|
            id != req.session_id@ ==> #[trigger] final(store).waiting(id) == old(store).waiting(id),
        final(store).next_waiter_id() == old(store).next_waiter_id(),
{
    match store.set_response_at(req.session_id.as_str(), req.response.clone(), now) {
        Some(woken) => {
            let mut message = String::from_str("Response received for session ");
            message.append(req.session_id.as_str());
            Ok((AtemResponseResponse { success: true, message }, woken))
        },
        None => Err(not_found()),
    }
}

/// Takes the controller's response for a session, now. All waiters that
/// were registered for the session are handed back to be woken, and their
/// entry is gone from the table.
pub fn atem_response_handler(store: &mut VoiceSessionStore, req: &AtemResponseRequest) -> (reply:
    Result<(AtemResponseResponse, Vec<u64>), (u16, ErrorResponse)>)
    ensures
        match reply {
            Ok((answer, woken)) => {
                &&& old(store)@.dom().contains(req.session_id@)
                &&& answer.success
                &&& answer.message@ == received_message(req.session_id@)
                &&& woken@ == old(store).waiting(req.session_id@)
                &&& final(store)@ == old(store)@.insert(
                    req.session_id@,
                    old(store)@[req.session_id@].with_response(
                        req.response@,
                        final(store)@[req.session_id@].last_activity,
                    ),
                )
                &&& final(store).waiting(req.session_id@) == Seq::<u64>::empty()
            },
            Err((status, failure)) => {
                &&& !old(store)@.dom().contains(req.session_id@)
                &&& status == status_of(ErrorKind::NotFound)
                &&& failure.error@ == VOICE_SESSION_NOT_FOUND@
                &&& final(store)@ == old(store)@
                &&& final(store).waiting(req.session_id@) == old(store).waiting(req.session_id@)
            },
        },
        forall|id: Seq<char>|
            id != req.session_id@ ==> #[trigger] final(store).waiting(id) == old(store).waiting(id),
        final(store).next_waiter_id() == old(store).next_waiter_id(),
{
    atem_response_handler_at(store, req, now_millis())
}

/// What is shown of the session for debugging; an unknown session is
/// answered with status 404.
pub fn get_voice_session_handler(store: &VoiceSessionStore, session_id: &str) -> (reply: Result<
    VoiceSessionInfo,
    (u16, ErrorResponse),
>)
    ensures
        match reply {
            Ok(info) => {
                &&& store@.dom().contains(session_id@)
                &&& info.session_id@ == store@[session_id@].session_id
                &&& info.atem_id@ == store@[session_id@].atem_id
                &&& info.channel@ == store@[session_id@].channel
                &&& info.state == store@[session_id@].state
                &&& info.buffer_size == store@[session_id@].buffer.len()
                &&& info.accumulated_text@ == store@[session_id@].accumulated_text()
                &&& info.has_response == store@[session_id@].response is Some
                &&& info.created_at == store@[session_id@].created_at
                &&& info.last_activity == store@[session_id@].last_activity
                &&& info.request_count == store@[session_id@].request_count
            },
            Err((status, failure)) => {
                &&& !store@.dom().contains(session_id@)
                &&& status == status_of(ErrorKind::NotFound)
                &&& failure.error@ == VOICE_SESSION_NOT_FOUND@
            },
        },
{
    match store.get(session_id) {
        Some(session) => {
            let accumulated_text = session.get_accumulated_text();
            let buffer_size = session.buffer.len();
            let has_response = session.response.is_some();
            assert(texts(session.buffer@).len() == session.buffer@.len());
            Ok(
                VoiceSessionInfo {
                    session_id: session.session_id,
                    atem_id: session.atem_id,
                    channel: session.channel,
                    state: session.state,
                    buffer_size,
                    accumulated_text,
                    has_response,
                    created_at: session.created_at,
                    last_activity: session.last_activity,
                    request_count: session.request_count,
                },
            )
        },
        None => Err(not_found()),
    }
}

/// Removes the session, if there is one; the answer is status 200 either
/// way.
pub fn delete_voice_session_handler(store: &mut VoiceSessionStore, session_id: &str) -> (status:
    u16)
    ensures
        status == 200,
        final(store)@ == old(store)@.remove(session_id@),
        forall|id: Seq<char>| #[trigger] final(store).waiting(id) == old(store).waiting(id),
        final(store).next_waiter_id() == old(store).next_waiter_id(),
{
    store.delete(session_id);
    200
}

/// The identifiers of all stored sessions, and their number.
pub fn list_voice_sessions_handler(store: &VoiceSessionStore) -> (list: VoiceSessionList)
    ensures
        texts(list.sessions@) == store.ids(),
        list.count == store.ids().len(),
{
    let sessions = store.list_session_ids();
    let count = sessions.len();
    assert(texts(sessions@).len() == sessions@.len());
    VoiceSessionList { sessions, count }
}

} // verus!
