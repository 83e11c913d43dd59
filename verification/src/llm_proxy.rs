//! The chat endpoint in front of the voice sessions: a request is buffered
//! and answered at once, or waits for the session's response, or takes the
//! response that is ready.

use vstd::prelude::*;
use crate::clock::{now_millis, seconds_of_millis, whole_seconds};
use crate::error::{status_of, ErrorKind};
use crate::ident::{is_uuid_text, new_id};
use crate::voice_session::{VoiceSessionState, VoiceSessionStore, VoiceSessionView};

verus! {

/// How long a request waits for the session's response, in seconds.
pub const WAIT_TIMEOUT_SECS: u64 = 30;

/// One message of a chat.
#[derive(Debug, Clone)]
pub struct ChatMessage {
    pub role: String,
    pub content: String,
}

/// A chat completion request.
#[derive(Debug)]
pub struct ChatCompletionRequest {
    pub messages: Vec<ChatMessage>,
    pub stream: bool,
    pub session_id: Option<String>,
}

/// One choice of a chat completion.
#[derive(Debug)]
pub struct Choice {
    pub index: u32,
    pub message: ChatMessage,
    pub finish_reason: String,
}

/// A chat completion.
#[derive(Debug)]
pub struct ChatCompletionResponse {
    pub id: String,
    pub object: String,
    /// Seconds since the epoch.
    pub created: i64,
    pub model: String,
    pub choices: Vec<Choice>,
}

impl ChatCompletionResponse {
    /// The envelope of a completion: one choice with index 0, spoken by the
    /// assistant, finished by `stop`, under the identifier `chatcmpl-` and
    /// `id`.
    pub open spec fn is_envelope(&self, id: Seq<char>, created: i64, content: Seq<char>) -> bool {
        &&& self.id@ == "chatcmpl-"@ + id
        &&& self.object@ == "chat.completion"@
        &&& self.created == created
        &&& self.model@ == "atem-voice-proxy"@
        &&& self.choices@.len() == 1
        &&& self.choices@[0].index == 0
        &&& self.choices@[0].message.role@ == "assistant"@
        &&& self.choices@[0].message.content@ == content
        &&& self.choices@[0].finish_reason@ == "stop"@
    }

    /// The text of the completion's one choice.
    pub open spec fn content(&self) -> Seq<char> {
        self.choices@[0].message.content@
    }
}

/// Why a chat request fails.
#[derive(Debug, Clone, Copy, PartialEq, Eq, Structural)]
pub enum ChatFailure {
    /// No header names a session.
    MissingSessionId,
    /// The session is unknown.
    SessionNotFound,
    /// The session is ready but holds no response.
    ResponseMissing,
    /// The waiter's channel was closed before a response came.
    ChannelClosed,
    /// No response came within the bound.
    TimedOut,
}

/// The kind of a chat failure.
pub open spec fn failure_kind(failure: ChatFailure) -> ErrorKind {
    match failure {
        ChatFailure::MissingSessionId => ErrorKind::Validation,
        ChatFailure::SessionNotFound => ErrorKind::NotFound,
        ChatFailure::ResponseMissing => ErrorKind::Internal,
        ChatFailure::ChannelClosed => ErrorKind::Internal,
        ChatFailure::TimedOut => ErrorKind::Timeout,
    }
}

/// The message of a chat failure.
pub open spec fn failure_text(failure: ChatFailure) -> Seq<char> {
    match failure {
        ChatFailure::MissingSessionId =>
            "Session ID not found. Ensure X-Voice-Session-ID header is set or session is active."@,
        ChatFailure::SessionNotFound => "Session not found"@,
        ChatFailure::ResponseMissing => "Response ready but not found"@,
        ChatFailure::ChannelClosed => "Response channel closed"@,
        ChatFailure::TimedOut => "Timeout waiting for Atem response"@,
    }
}

impl ChatFailure {
    /// The kind of the failure.
    pub fn kind(self) -> (kind: ErrorKind)
        ensures
            kind == failure_kind(self),
    {
        match self {
            ChatFailure::MissingSessionId => ErrorKind::Validation,
            ChatFailure::SessionNotFound => ErrorKind::NotFound,
            ChatFailure::ResponseMissing => ErrorKind::Internal,
            ChatFailure::ChannelClosed => ErrorKind::Internal,
            ChatFailure::TimedOut => ErrorKind::Timeout,
        }
    }

    /// The message of the failure.
    pub fn message(self) -> (text: &'static str)
        ensures
            text@ == failure_text(self),
    {
        match self {
            ChatFailure::MissingSessionId =>
                "Session ID not found. Ensure X-Voice-Session-ID header is set or session is active.",
            ChatFailure::SessionNotFound => "Session not found",
            ChatFailure::ResponseMissing => "Response ready but not found",
            ChatFailure::ChannelClosed => "Response channel closed",
            ChatFailure::TimedOut => "Timeout waiting for Atem response",
        }
    }
}

/// What the store decides on a chat request.
#[derive(Debug)]
pub enum ChatDecision {
    /// The session is accumulating: answer with an empty completion.
    Empty,
    /// The session is triggered: wait on the registered waiter.
    Wait { session_id: String, waiter: u64 },
    /// The session was ready: answer with its response; the session is gone.
    Respond(String),
    /// The request fails.
    Fail(ChatFailure),
}

/// How a wait for the session's response ended.
#[derive(Debug)]
pub enum WaitOutcome {
    /// The response came.
    Completed(String),
    /// The notifier was dropped.
    Dropped,
    /// The bound ran out.
    TimedOut,
}

/// The answer to a chat request.
#[derive(Debug)]
pub enum ChatReply {
    Completion(ChatCompletionResponse),
    Failure { status: u16, error: String },
}

/// What the one who serves the request is to do next.
#[derive(Debug)]
pub enum ChatStep {
    /// Send the reply.
    Reply(ChatReply),
    /// Wait for the waiter to complete, at most `WAIT_TIMEOUT_SECS` seconds,
    /// and hand what happened to `llm_chat_resume`.
    Wait { session_id: String, waiter: u64 },
}

/// The view of an optional text slice.
pub open spec fn opt_view(o: Option<&str>) -> Option<Seq<char>> {
    match o {
        Some(s) => Some(s@),
        None => None,
    }
}

/// The session that a request names: the voice-session header's value, or
/// else the session header's.
pub open spec fn named_session(
    voice_header: Option<Seq<char>>,
    session_header: Option<Seq<char>>,
) -> Option<
    Seq<char>,
> {
    match voice_header {
        Some(id) => Some(id),
        None => session_header,
    }
}

/// The identifier of the session that the request's headers name. The
/// voice-session header goes before the session header; without either no
/// session is named.
pub fn extract_session_id(voice_header: Option<&str>, session_header: Option<&str>) -> (id: Option<
    String,
>)
    ensures
        match id {
            Some(s) => named_session(opt_view(voice_header), opt_view(session_header)) == Some(s@),
            None => named_session(opt_view(voice_header), opt_view(session_header)) is None,
        },
{
    match voice_header {
        Some(id) => Some(id.to_owned()),
        None => match session_header {
            Some(id) => Some(id.to_owned()),
            None => None,
        },
    }
}

/// The content of the last message, or the empty text where there is none.
pub open spec fn last_content(messages: Seq<ChatMessage>) -> Seq<char> {
    if messages.len() == 0 {
        Seq::empty()
    } else {
        messages.last().content@
    }
}

/// The content of the request's last message, or the empty text.
pub fn last_user_message(req: &ChatCompletionRequest) -> (content: String)
    ensures
        content@ == last_content(req.messages@),
{
    let n = req.messages.len();
    if n == 0 {
        String::new()
    } else {
        req.messages[n - 1].content.clone()
    }
}

/// A completion with the given content, identifier and time of creation.
pub fn create_response_with(content: String, id: &str, created: i64) -> (response:
    ChatCompletionResponse)
    ensures
        response.is_envelope(id@, created, content@),
{
    let mut full_id = String::from_str("chatcmpl-");
    full_id.append(id);
    let mut choices: Vec<Choice> = Vec::new();
    choices.push(
        Choice {
            index: 0,
            message: ChatMessage { role: String::from_str("assistant"), content },
            finish_reason: String::from_str("stop"),
        },
    );
    ChatCompletionResponse {
        id: full_id,
        object: String::from_str("chat.completion"),
        created,
        model: String::from_str("atem-voice-proxy"),
        choices,
    }
}

/// A completion with the given content, a fresh identifier and the current
/// time.
pub fn create_response(content: String) -> (response: ChatCompletionResponse)
    ensures
        exists|id: Seq<char>|
            is_uuid_text(id) && #[trigger] response.is_envelope(id, response.created, content@),
{
    let created = seconds_of_millis(now_millis());
    let id = new_id();
    let response = create_response_with(content, id.as_str(), created);
    assert(response.is_envelope(id@, response.created, content@));
    response
}

/// A completion without content, a fresh identifier and the current time.
pub fn create_empty_response() -> (response: ChatCompletionResponse)
    ensures
        exists|id: Seq<char>|
            is_uuid_text(id) && #[trigger] response.is_envelope(
                id,
                response.created,
                Seq::empty(),
            ),
{
    create_response(String::new())
}

/// The sessions after a request with the given message was counted and
/// buffered for the session `id` at `now`.
pub open spec fn after_request(
    sessions: Map<Seq<char>, VoiceSessionView>,
    id: Seq<char>,
    message: Seq<char>,
    now: i64,
) -> Map<Seq<char>, VoiceSessionView> {
    if sessions.dom().contains(id) {
        sessions.insert(id, sessions[id].counted().with_transcription(message, now))
    } else {
        sessions
    }
}

/// What a chat request finds.
pub enum ChatCase {
    /// No header names a session.
    Unnamed,
    /// The named session is unknown.
    Unknown,
    /// The named session is accumulating.
    Accumulating,
    /// The named session is triggered.
    Triggered,
    /// The named session is ready and holds this response.
    Ready(Seq<char>),
    /// The named session is ready but holds no response.
    ReadyWithout,
}

/// What a chat request for the named session finds among the sessions.
pub open spec fn chat_case(
    sessions: Map<Seq<char>, VoiceSessionView>,
    named: Option<Seq<char>>,
) -> ChatCase {
    match named {
        None => ChatCase::Unnamed,
        Some(id) => if !sessions.dom().contains(id) {
            ChatCase::Unknown
        } else {
            match sessions[id].state {
                VoiceSessionState::Accumulating => ChatCase::Accumulating,
                VoiceSessionState::Triggered => ChatCase::Triggered,
                VoiceSessionState::ResponseReady => match sessions[id].response {
                    Some(text) => ChatCase::Ready(text),
                    None => ChatCase::ReadyWithout,
                },
            }
        },
    }
}

/// No waiter was registered or woken, and the next waiter's number is what
/// it was.
pub open spec fn waiters_unchanged(before: VoiceSessionStore, after: VoiceSessionStore) -> bool {
    &&& forall|id: Seq<char>| #[trigger] after.waiting(id) == before.waiting(id)
    &&& after.next_waiter_id() == before.next_waiter_id()
}

/// The number after `n`; it wraps at the end of the range.
pub open spec fn number_after(n: u64) -> u64 {
    if n == u64::MAX {
        0
    } else {
        (n + 1) as u64
    }
}

/// How a chat request with the given message at `now` changes the store.
/// Without a named session, or for an unknown one, nothing changes. Else the
/// request is counted and its message buffered; a triggered session gets one
/// more waiter, with the next number, and a ready session that holds a
/// response is deleted. In every other case the waiters stay as they are.
pub open spec fn chat_effect(
    before: VoiceSessionStore,
    after: VoiceSessionStore,
    named: Option<Seq<char>>,
    message: Seq<char>,
    now: i64,
) -> bool {
    match chat_case(before@, named) {
        ChatCase::Unnamed => after@ == before@ && waiters_unchanged(before, after),
        ChatCase::Unknown => after@ == before@ && waiters_unchanged(before, after),
        ChatCase::Accumulating => {
            &&& after@ == after_request(before@, named->0, message, now)
            &&& waiters_unchanged(before, after)
        },
        ChatCase::Triggered => {
            &&& after@ == after_request(before@, named->0, message, now)
            &&& after.waiting(named->0) == before.waiting(named->0).push(before.next_waiter_id())
            &&& forall|other: Seq<char>|
                other != named->0 ==> #[trigger] after.waiting(other) == before.waiting(other)
            &&& after.next_waiter_id() == number_after(before.next_waiter_id())
        },
        ChatCase::Ready(_) => {
            &&& after@ == before@.remove(named->0)
            &&& waiters_unchanged(before, after)
        },
        ChatCase::ReadyWithout => {
            &&& after@ == after_request(before@, named->0, message, now)
            &&& waiters_unchanged(before, after)
        },
    }
}

/// The decision that each case asks for. The waiter of a triggered session
/// is the one with the number `next_waiter`.
pub open spec fn decision_fits(
    case: ChatCase,
    named: Option<Seq<char>>,
    next_waiter: u64,
    decision: ChatDecision,
) -> bool {
    match case {
        ChatCase::Unnamed => decision matches ChatDecision::Fail(ChatFailure::MissingSessionId),
        ChatCase::Unknown => decision matches ChatDecision::Fail(ChatFailure::SessionNotFound),
        ChatCase::Accumulating => decision is Empty,
        ChatCase::Triggered => {
            &&& decision matches ChatDecision::Wait { session_id, waiter }
            &&& session_id@ == named->0
            &&& waiter == next_waiter
        },
        ChatCase::Ready(text) => decision matches ChatDecision::Respond(answer) && answer@ == text,
        ChatCase::ReadyWithout => decision matches ChatDecision::Fail(
            ChatFailure::ResponseMissing,
        ),
    }
}

/// Whether `reply` is the failure `failure`, with its status and message.
pub open spec fn is_failure(reply: ChatReply, failure: ChatFailure) -> bool {
    &&& reply matches ChatReply::Failure { status, error }
    &&& status == status_of(failure_kind(failure))
    &&& error@ == failure_text(failure)
}

/// Whether `reply` is a completion with the given content in its envelope.
pub open spec fn is_completion(
    reply: ChatReply,
    reply_id: Seq<char>,
    created: i64,
    content: Seq<char>,
) -> bool {
    reply matches ChatReply::Completion(c) && c.is_envelope(reply_id, created, content)
}

/// The step that each case asks for: status 400 without a named session,
/// 404 for an unknown one, an empty completion for an accumulating one, a
/// wait on the waiter `next_waiter` for a triggered one, the response in a
/// completion for a ready one, and status 500 where a ready session holds no
/// response. Completions stand under `reply_id` and are created at
/// `created`.
pub open spec fn step_fits(
    case: ChatCase,
    named: Option<Seq<char>>,
    next_waiter: u64,
    reply_id: Seq<char>,
    created: i64,
    step: ChatStep,
) -> bool {
    match case {
        ChatCase::Unnamed => step matches ChatStep::Reply(reply) && is_failure(
            reply,
            ChatFailure::MissingSessionId,
        ),
        ChatCase::Unknown => step matches ChatStep::Reply(reply) && is_failure(
            reply,
            ChatFailure::SessionNotFound,
        ),
        ChatCase::Accumulating => step matches ChatStep::Reply(reply) && is_completion(
            reply,
            reply_id,
            created,
            Seq::empty(),
        ),
        ChatCase::Triggered => {
            &&& step matches ChatStep::Wait { session_id, waiter }
            &&& session_id@ == named->0
            &&& waiter == next_waiter
        },
        ChatCase::Ready(text) => step matches ChatStep::Reply(reply) && is_completion(
            reply,
            reply_id,
            created,
            text,
        ),
        ChatCase::ReadyWithout => step matches ChatStep::Reply(reply) && is_failure(
            reply,
            ChatFailure::ResponseMissing,
        ),
    }
}

/// Serving a chat request at `now`, with completions under `reply_id`:
/// how the store changes and which step is taken.
pub open spec fn chat_served(
    before: VoiceSessionStore,
    after: VoiceSessionStore,
    named: Option<Seq<char>>,
    message: Seq<char>,
    now: i64,
    reply_id: Seq<char>,
    step: ChatStep,
) -> bool {
    &&& chat_effect(before, after, named, message, now)
    &&& step_fits(
        chat_case(before@, named),
        named,
        before.next_waiter_id(),
        reply_id,
        whole_seconds(now) as i64,
        step,
    )
}

/// Decides on a chat request for the named session at `now`. The request
/// is counted and its message buffered; then an accumulating session gives
/// an empty answer, a triggered one a waiter to wait on, and a ready one its
/// response, with which the session is deleted. Without a named session, or
/// for an unknown one, the request fails and nothing changes.
pub fn llm_chat_decision_at(
    store: &mut VoiceSessionStore,
    session_id: Option<&str>,
    message: String,
    now: i64,
) -> (decision: ChatDecision)
    ensures
        chat_effect(*old(store), *final(store), opt_view(session_id), message@, now),
        decision_fits(
            chat_case(old(store)@, opt_view(session_id)),
            opt_view(session_id),
            old(store).next_waiter_id(),
            decision,
        ),
{
    let id = match session_id {
        Some(id) => id,
        None => {
            return ChatDecision::Fail(ChatFailure::MissingSessionId);
        },
    };
    let ghost text = message@;
    store.increment_requests(id);
    store.add_transcription_at(id, message, now);
    assert(store@ =~= after_request(old(store)@, id@, text, now));
    match store.get_state(id) {
        Some(VoiceSessionState::Accumulating) => ChatDecision::Empty,
        Some(VoiceSessionState::Triggered) => {
            let waiter = store.register_waiter(id.to_owned());
            ChatDecision::Wait { session_id: id.to_owned(), waiter }
        },
        Some(VoiceSessionState::ResponseReady) => {
            let cached = match store.get(id) {
                Some(session) => session.response,
                None => None,
            };
            match cached {
                Some(text) => {
                    store.delete(id);
                    assert(store@ =~= old(store)@.remove(id@));
                    ChatDecision::Respond(text)
                },
                None => ChatDecision::Fail(ChatFailure::ResponseMissing),
            }
        },
        None => ChatDecision::Fail(ChatFailure::SessionNotFound),
    }
}

/// The reply that reports a failure.
pub fn failure_reply(failure: ChatFailure) -> (reply: ChatReply)
    ensures
        is_failure(reply, failure),
{
    ChatReply::Failure {
        status: failure.kind().status_code(),
        error: String::from_str(failure.message()),
    }
}

/// The step that a decision asks for, with completions under the
/// identifier `reply_id`, created at `created`.
pub fn step_for(decision: ChatDecision, reply_id: &str, created: i64) -> (step: ChatStep)
    ensures
        match decision {
            ChatDecision::Empty => step matches ChatStep::Reply(reply) && is_completion(
                reply,
                reply_id@,
                created,
                Seq::empty(),
            ),
            ChatDecision::Respond(text) => step matches ChatStep::Reply(reply) && is_completion(
                reply,
                reply_id@,
                created,
                text@,
            ),
            ChatDecision::Wait { session_id, waiter } => step == (ChatStep::Wait {
                session_id,
                waiter,
            }),
            ChatDecision::Fail(failure) => step matches ChatStep::Reply(reply) && is_failure(
                reply,
                failure,
            ),
        },
{
    match decision {
        ChatDecision::Empty => ChatStep::Reply(
            ChatReply::Completion(create_response_with(String::new(), reply_id, created)),
        ),
        ChatDecision::Respond(text) => ChatStep::Reply(
            ChatReply::Completion(create_response_with(text, reply_id, created)),
        ),
        ChatDecision::Wait { session_id, waiter } => ChatStep::Wait { session_id, waiter },
        ChatDecision::Fail(failure) => ChatStep::Reply(failure_reply(failure)),
    }
}

/// Serves a chat request at `now`: the session is taken from the headers,
/// the request is counted and its last message buffered, and the session's
/// state decides. Status 400 without a named session, 404 for an unknown
/// one, an empty completion for an accumulating one, a wait for a triggered
/// one, and for a ready one its response, with which the session is
/// deleted.
pub fn llm_chat_handler_at(
    store: &mut VoiceSessionStore,
    voice_header: Option<&str>,
    session_header: Option<&str>,
    req: &ChatCompletionRequest,
    now: i64,
    reply_id: &str,
) -> (step: ChatStep)
    ensures
        chat_served(
            *old(store),
            *final(store),
            named_session(opt_view(voice_header), opt_view(session_header)),
            last_content(req.messages@),
            now,
            reply_id@,
            step,
        ),
{
    let named = extract_session_id(voice_header, session_header);
    let message = last_user_message(req);
    let decision = match &named {
        Some(id) => llm_chat_decision_at(store, Some(id.as_str()), message, now),
        None => llm_chat_decision_at(store, None, message, now),
    };
    step_for(decision, reply_id, seconds_of_millis(now))
}

/// Serves a chat request, now, with completions under a fresh identifier:
/// what `llm_chat_handler_at` does, at the instant at which the call reads
/// the clock. Status 400 without a named session, 404 for an unknown one,
/// an empty completion for an accumulating one, a wait on a newly
/// registered waiter for a triggered one, and for a ready one its response,
/// with which the session is deleted.
pub fn llm_chat_handler(
    store: &mut VoiceSessionStore,
    voice_header: Option<&str>,
    session_header: Option<&str>,
    req: &ChatCompletionRequest,
) -> (step: ChatStep)
    ensures
        exists|now: i64, reply_id: Seq<char>|
            is_uuid_text(reply_id) && #[trigger] chat_served(
                *old(store),
                *final(store),
                named_session(opt_view(voice_header), opt_view(session_header)),
                last_content(req.messages@),
                now,
                reply_id,
                step,
            ),
{
    let now = now_millis();
    let reply_id = new_id();
    let step = llm_chat_handler_at(
        store,
        voice_header,
        session_header,
        req,
        now,
        reply_id.as_str(),
    );
    assert(chat_served(
        *old(store),
        *store,
        named_session(opt_view(voice_header), opt_view(session_header)),
        last_content(req.messages@),
        now,
        reply_id@,
        step,
    ));
    step
}

/// What follows each outcome of a wait: the response that came, in a
/// completion; status 500 where the notifier was dropped; status 504 where
/// the bound ran out.
pub open spec fn resumed(
    outcome: WaitOutcome,
    reply_id: Seq<char>,
    created: i64,
    reply: ChatReply,
) -> bool {
    match outcome {
        WaitOutcome::Completed(text) => is_completion(reply, reply_id, created, text@),
        WaitOutcome::Dropped => is_failure(reply, ChatFailure::ChannelClosed),
        WaitOutcome::TimedOut => is_failure(reply, ChatFailure::TimedOut),
    }
}

/// The reply after a wait, with a completion under the identifier
/// `reply_id`, created at `created`: the response that came, or status 500
/// where the notifier was dropped, or status 504 where the bound ran out.
pub fn llm_chat_resume_with(outcome: WaitOutcome, reply_id: &str, created: i64) -> (reply:
    ChatReply)
    ensures
        resumed(outcome, reply_id@, created, reply),
{
    match outcome {
        WaitOutcome::Completed(text) => ChatReply::Completion(
            create_response_with(text, reply_id, created),
        ),
        WaitOutcome::Dropped => failure_reply(ChatFailure::ChannelClosed),
        WaitOutcome::TimedOut => failure_reply(ChatFailure::TimedOut),
    }
}

/// The reply after a wait: the response that came, in a completion made
/// now under a fresh identifier, or status 500 where the notifier was
/// dropped, or status 504 where the bound ran out.
pub fn llm_chat_resume(outcome: WaitOutcome) -> (reply: ChatReply)
    ensures
        exists|reply_id: Seq<char>, created: i64|
            is_uuid_text(reply_id) && #[trigger] resumed(outcome, reply_id, created, reply),
{
    let created = seconds_of_millis(now_millis());
    let reply_id = new_id();
    let reply = llm_chat_resume_with(outcome, reply_id.as_str(), created);
    assert(resumed(outcome, reply_id@, created, reply));
    reply
}

/// The statuses of the failures of a chat request.
pub proof fn lemma_failure_statuses()
    ensures
        status_of(failure_kind(ChatFailure::MissingSessionId)) == 400,
        status_of(failure_kind(ChatFailure::SessionNotFound)) == 404,
        status_of(failure_kind(ChatFailure::ResponseMissing)) == 500,
        status_of(failure_kind(ChatFailure::ChannelClosed)) == 500,
        status_of(failure_kind(ChatFailure::TimedOut)) == 504,
{
}

} // verus!
