//! The requests and replies of the grant handshake, and what each endpoint
//! decides.

use vstd::prelude::*;
use crate::auth::{
    create_session_at, generate_otp, is_otp_text, is_token_text, status_name, Session,
    SessionStatus, SESSION_TTL_MILLIS,
};
use crate::clock::{later, now_millis, CLOCK_LIMIT_MILLIS};
use crate::error::{status_of, ErrorKind};
use crate::ident::{is_uuid_text, new_id};
use crate::session_store::{deny_outcome, grant_outcome, SessionStore};
use crate::text::clone_opt;
use crate::validate::{has_length_between, validation_error, validation_message};
use crate::web::auth_page::{auth_page_text, render_auth_page};

verus! {

/// Asks for a new session for a host.
#[derive(Debug)]
pub struct CreateSessionRequest {
    pub hostname: String,
}

/// The new session, with its password.
#[derive(Debug)]
pub struct CreateSessionResponse {
    pub id: String,
    pub otp: String,
    pub hostname: String,
    pub status: SessionStatus,
    /// Milliseconds since the epoch.
    pub created_at: i64,
    /// Milliseconds since the epoch.
    pub expires_at: i64,
}

/// The status of a session; the token is there only for a granted one.
#[derive(Debug)]
pub struct SessionStatusResponse {
    pub id: String,
    pub status: SessionStatus,
    pub token: Option<String>,
}

/// The password that a grant presents.
#[derive(Debug)]
pub struct GrantRequest {
    pub otp: String,
}

/// The body of every failure: a short message.
#[derive(Debug)]
pub struct ErrorResponse {
    pub error: String,
}

/// The query of the fallback page.
#[derive(Debug)]
pub struct AuthPageQuery {
    pub id: String,
    pub tag: String,
}

/// The status of a reply that created something.
pub const STATUS_CREATED: u16 = 201;

/// The status of a reply that succeeded.
pub const STATUS_OK: u16 = 200;

/// What the page endpoint answers for an unknown session.
pub const SESSION_NOT_FOUND_PAGE: &'static str =
    "<h1>Session not found</h1><p>The requested session does not exist or has been removed.</p>";

/// The message that reports a failure of a grant or a denial on a session
/// whose stored status is `status`.
pub open spec fn failure_message(kind: ErrorKind, status: SessionStatus) -> Seq<char> {
    match kind {
        ErrorKind::NotFound => "Session not found"@,
        ErrorKind::Conflict => "Session is already "@ + status_name(status),
        ErrorKind::Gone => "Session has expired"@,
        ErrorKind::Unauthorized => "Invalid OTP"@,
        _ => "Internal error"@,
    }
}

/// The message for a failure of a grant or a denial.
pub fn failure_text(kind: ErrorKind, status: SessionStatus) -> (message: String)
    ensures
        message@ == failure_message(kind, status),
{
    match kind {
        ErrorKind::NotFound => String::from_str("Session not found"),
        ErrorKind::Conflict => {
            let mut message = String::from_str("Session is already ");
            message.append(status.as_str());
            message
        },
        ErrorKind::Gone => String::from_str("Session has expired"),
        ErrorKind::Unauthorized => String::from_str("Invalid OTP"),
        _ => String::from_str("Internal error"),
    }
}

impl CreateSessionRequest {
    /// The host name has between 1 and 255 characters.
    pub open spec fn is_valid(&self) -> bool {
        1 <= self.hostname@.len() <= 255
    }

    /// Checks the bounds of the request's fields.
    pub fn validate(&self) -> (outcome: Result<(), String>)
        ensures
            match outcome {
                Ok(_) => self.is_valid(),
                Err(message) => !self.is_valid() && message@ == validation_message("hostname"@),
            },
    {
        if has_length_between(self.hostname.as_str(), 1, 255) {
            Ok(())
        } else {
            Err(validation_error("hostname"))
        }
    }
}

/// Creates a session with the given identifier and password at `now`: an
/// invalid host name is refused with status 400 and nothing is stored;
/// otherwise the pending session is stored under its identifier and shown
/// with status 201.
pub fn create_session_handler_with(
    sessions: &mut SessionStore,
    body: &CreateSessionRequest,
    id: String,
    otp: String,
    now: i64,
) -> (reply: Result<(u16, CreateSessionResponse), (u16, ErrorResponse)>)
    ensures
        match reply {
            Ok((status, created)) => {
                &&& body.is_valid()
                &&& status == STATUS_CREATED
                &&& created.id == id
                &&& created.otp == otp
                &&& created.hostname@ == body.hostname@
                &&& created.status == SessionStatus::Pending
                &&& created.created_at == now
                &&& created.expires_at == later(now, SESSION_TTL_MILLIS)
                &&& final(sessions)@.dom() == old(sessions)@.dom().insert(id@)
                &&& final(sessions)@[id@].id == id
                &&& final(sessions)@[id@].otp == otp
                &&& final(sessions)@[id@].hostname@ == body.hostname@
                &&& final(sessions)@[id@].status == SessionStatus::Pending
                &&& final(sessions)@[id@].token is None
                &&& final(sessions)@[id@].created_at == now
                &&& final(sessions)@[id@].expires_at == later(now, SESSION_TTL_MILLIS)
                &&& forall|other: Seq<char>|
                    other != id@ && old(sessions)@.dom().contains(other)
                        ==> #[trigger] final(sessions)@[other] == old(sessions)@[other]
            },
            Err((status, failure)) => {
                &&& !body.is_valid()
                &&& status == status_of(ErrorKind::Validation)
                &&& failure.error@ == validation_message("hostname"@)
                &&& final(sessions)@ == old(sessions)@
            },
        },
{
    match body.validate() {
        Err(message) => Err(
            (ErrorKind::Validation.status_code(), ErrorResponse { error: message }),
        ),
        Ok(()) => {
            let session = create_session_at(body.hostname.as_str(), id, otp, now);
            let created = CreateSessionResponse {
                id: session.id.clone(),
                otp: session.otp.clone(),
                hostname: session.hostname.clone(),
                status: session.status,
                created_at: session.created_at,
                expires_at: session.expires_at,
            };
            sessions.create(session);
            Ok((STATUS_CREATED, created))
        },
    }
}

/// Creates a session now, with a fresh identifier and password. An invalid
/// host name is refused with status 400 and nothing is stored; otherwise the
/// pending session is stored and shown with status 201.
pub fn create_session_handler(sessions: &mut SessionStore, body: &CreateSessionRequest) -> (reply:
    Result<(u16, CreateSessionResponse), (u16, ErrorResponse)>)
    ensures
        match reply {
            Ok((status, created)) => {
                &&& body.is_valid()
                &&& status == STATUS_CREATED
                &&& is_uuid_text(created.id@)
                &&& is_otp_text(created.otp@)
                &&& created.otp@[0] != '0'
                &&& created.hostname@ == body.hostname@
                &&& created.status == SessionStatus::Pending
                &&& 0 <= created.created_at < CLOCK_LIMIT_MILLIS
                &&& created.expires_at == created.created_at + SESSION_TTL_MILLIS
                &&& final(sessions)@.dom() == old(sessions)@.dom().insert(created.id@)
                &&& final(sessions)@[created.id@].id == created.id
                &&& final(sessions)@[created.id@].otp == created.otp
                &&& final(sessions)@[created.id@].hostname@ == body.hostname@
                &&& final(sessions)@[created.id@].status == SessionStatus::Pending
                &&& final(sessions)@[created.id@].token is None
                &&& final(sessions)@[created.id@].created_at == created.created_at
                &&& final(sessions)@[created.id@].expires_at == created.expires_at
                &&& forall|other: Seq<char>|
                    other != created.id@ && old(sessions)@.dom().contains(other)
                        ==> #[trigger] final(sessions)@[other] == old(sessions)@[other]
            },
            Err((status, failure)) => {
                &&& !body.is_valid()
                &&& status == status_of(ErrorKind::Validation)
                &&& failure.error@ == validation_message("hostname"@)
                &&& final(sessions)@ == old(sessions)@
            },
        },
{
    let now = now_millis();
    create_session_handler_with(sessions, body, new_id(), generate_otp(), now)
}

/// The status of the session `id` as an observer reads it at `now`, with
/// the token only where that status is granted. An unknown session is
/// reported with status 404.
pub fn get_session_status_handler_at(sessions: &SessionStore, id: &str, now: i64) -> (reply: Result<
    SessionStatusResponse,
    (u16, ErrorResponse),
>)
    ensures
        match reply {
            Ok(shown) => {
                &&& sessions@.dom().contains(id@)
                &&& shown.id == sessions@[id@].id
                &&& shown.status == sessions@[id@].status_at(now)
                &&& shown.token == (if shown.status == SessionStatus::Granted {
                    sessions@[id@].token
                } else {
                    None
                })
            },
            Err((status, failure)) => {
                &&& !sessions@.dom().contains(id@)
                &&& status == status_of(ErrorKind::NotFound)
                &&& failure.error@ == failure_message(ErrorKind::NotFound, SessionStatus::Pending)
            },
        },
{
    match sessions.observe_at(id, now) {
        Some(observed) => {
            let token = if observed.status == SessionStatus::Granted {
                observed.token
            } else {
                None
            };
            Ok(SessionStatusResponse { id: observed.id, status: observed.status, token })
        },
        None => Err(
            (
                ErrorKind::NotFound.status_code(),
                ErrorResponse { error: failure_text(ErrorKind::NotFound, SessionStatus::Pending) },
            ),
        ),
    }
}

/// The status of the session `id` as an observer reads it now. A session
/// that is granted or denied shows that status whatever the time; a pending
/// one shows as pending or as expired.
pub fn get_session_status_handler(sessions: &SessionStore, id: &str) -> (reply: Result<
    SessionStatusResponse,
    (u16, ErrorResponse),
>)
    ensures
        match reply {
            Ok(shown) => {
                &&& sessions@.dom().contains(id@)
                &&& shown.id == sessions@[id@].id
                &&& exists|now: i64| shown.status == #[trigger] sessions@[id@].status_at(now)
                &&& sessions@[id@].status != SessionStatus::Pending ==> shown.status
                    == sessions@[id@].status
                &&& sessions@[id@].status == SessionStatus::Pending ==> shown.status
                    == SessionStatus::Pending || shown.status == SessionStatus::Expired
                &&& shown.token == (if shown.status == SessionStatus::Granted {
                    sessions@[id@].token
                } else {
                    None
                })
            },
            Err((status, failure)) => {
                &&& !sessions@.dom().contains(id@)
                &&& status == status_of(ErrorKind::NotFound)
                &&& failure.error@ == failure_message(ErrorKind::NotFound, SessionStatus::Pending)
            },
        },
{
    get_session_status_handler_at(sessions, id, now_millis())
}

/// The stored status of the session `id`, or pending for an unknown one.
pub open spec fn stored_status(sessions: Map<Seq<char>, Session>, id: Seq<char>) -> SessionStatus {
    if sessions.dom().contains(id) {
        sessions[id].status
    } else {
        SessionStatus::Pending
    }
}

fn grant_failure(sessions: &SessionStore, id: &str, kind: ErrorKind) -> (failure: (
    u16,
    ErrorResponse,
))
    ensures
        failure.0 == status_of(kind),
        failure.1.error@ == failure_message(kind, stored_status(sessions@, id@)),
{
    let status = match sessions.get(id) {
        Some(session) => session.status,
        None => SessionStatus::Pending,
    };
    (kind.status_code(), ErrorResponse { error: failure_text(kind, status) })
}

/// Grants the session `id` at `now` with the presented password and issues
/// `token`. The failures, in the order in which they are looked for: an
/// unknown session (404), a session that is not pending (409), another
/// password (401), a session that has run out (410). On a failure nothing
/// changes.
pub fn grant_session_handler_with(
    sessions: &mut SessionStore,
    id: &str,
    body: &GrantRequest,
    now: i64,
    token: String,
) -> (reply: Result<SessionStatusResponse, (u16, ErrorResponse)>)
    ensures
        match reply {
            Ok(shown) => {
                &&& grant_outcome(old(sessions)@, id@, body.otp@, now) is Ok
                &&& shown.id == old(sessions)@[id@].id
                &&& shown.status == SessionStatus::Granted
                &&& shown.token == Some(token)
                &&& final(sessions)@ == old(sessions)@.insert(
                    id@,
                    old(sessions)@[id@].granted(token),
                )
            },
            Err((status, failure)) => {
                &&& grant_outcome(old(sessions)@, id@, body.otp@, now) matches Err(kind)
                &&& status == status_of(kind)
                &&& failure.error@ == failure_message(kind, stored_status(old(sessions)@, id@))
                &&& final(sessions)@ == old(sessions)@
            },
        },
{
    match sessions.grant_with(id, body.otp.as_str(), now, token) {
        Ok(session) => Ok(
            SessionStatusResponse {
                id: session.id.clone(),
                status: session.status,
                token: clone_opt(&session.token),
            },
        ),
        Err(kind) => Err(grant_failure(sessions, id, kind)),
    }
}

/// Grants the session `id` with the presented password, now, and issues a
/// fresh token of 64 lower-case hexadecimal digits. Replies 404 exactly for
/// an unknown session, 409 exactly for a session that is not pending, 401
/// exactly for a pending session with another password, and 410 only for a
/// pending session with this password; on a failure nothing changes.
pub fn grant_session_handler(sessions: &mut SessionStore, id: &str, body: &GrantRequest) -> (reply:
    Result<SessionStatusResponse, (u16, ErrorResponse)>)
    ensures
        match reply {
            Ok(shown) => {
                &&& exists|now: i64|
                    #[trigger] grant_outcome(old(sessions)@, id@, body.otp@, now) is Ok
                &&& old(sessions)@.dom().contains(id@)
                &&& old(sessions)@[id@].status == SessionStatus::Pending
                &&& old(sessions)@[id@].otp@ == body.otp@
                &&& shown.id == old(sessions)@[id@].id
                &&& shown.status == SessionStatus::Granted
                &&& shown.token matches Some(t) && is_token_text(t@)
                &&& final(sessions)@ == old(sessions)@.insert(
                    id@,
                    old(sessions)@[id@].granted(shown.token->0),
                )
            },
            Err((status, failure)) => {
                &&& final(sessions)@ == old(sessions)@
                &&& exists|now: i64|
                    {
                        let outcome = #[trigger] grant_outcome(
                            old(sessions)@,
                            id@,
                            body.otp@,
                            now,
                        );
                        &&& outcome matches Err(kind)
                        &&& status == status_of(kind)
                        &&& failure.error@ == failure_message(
                            kind,
                            stored_status(old(sessions)@, id@),
                        )
                    }
                &&& status == 404 <==> !old(sessions)@.dom().contains(id@)
                &&& status == 409
                    <==> old(sessions)@.dom().contains(id@)
                    && old(sessions)@[id@].status != SessionStatus::Pending
                &&& status == 401
                    <==> old(sessions)@.dom().contains(id@)
                    && old(sessions)@[id@].status == SessionStatus::Pending
                    && old(sessions)@[id@].otp@ != body.otp@
                &&& status == 404 || status == 409 || status == 401 || status == 410
            },
        },
{
    match sessions.grant(id, body.otp.as_str()) {
        Ok(session) => Ok(
            SessionStatusResponse {
                id: session.id.clone(),
                status: session.status,
                token: clone_opt(&session.token),
            },
        ),
        Err(kind) => Err(grant_failure(sessions, id, kind)),
    }
}

/// Denies the session `id`. An unknown session is reported with 404 and a
/// session that is not pending with 409; on a failure nothing changes.
pub fn deny_session_handler(sessions: &mut SessionStore, id: &str) -> (reply: Result<
    SessionStatusResponse,
    (u16, ErrorResponse),
>)
    ensures
        match reply {
            Ok(shown) => {
                &&& deny_outcome(old(sessions)@, id@) is Ok
                &&& shown.id == old(sessions)@[id@].id
                &&& shown.status == SessionStatus::Denied
                &&& shown.token is None
                &&& final(sessions)@ == old(sessions)@.insert(id@, old(sessions)@[id@].denied())
            },
            Err((status, failure)) => {
                &&& deny_outcome(old(sessions)@, id@) matches Err(kind)
                &&& status == status_of(kind)
                &&& failure.error@ == failure_message(kind, stored_status(old(sessions)@, id@))
                &&& final(sessions)@ == old(sessions)@
            },
        },
{
    match sessions.deny(id) {
        Ok(session) => Ok(
            SessionStatusResponse { id: session.id.clone(), status: session.status, token: None },
        ),
        Err(kind) => Err(grant_failure(sessions, id, kind)),
    }
}

/// The fallback page for the session named in the query, showing the
/// session's identifier, the query's tag as host name and the session's
/// password. An unknown session is answered with status 404 and a short
/// page.
pub fn auth_page_handler(sessions: &SessionStore, params: &AuthPageQuery) -> (reply: Result<
    String,
    (u16, String),
>)
    ensures
        match reply {
            Ok(html) => sessions@.dom().contains(params.id@) && html@ == auth_page_text(
                sessions@[params.id@].id@,
                params.tag@,
                sessions@[params.id@].otp@,
            ),
            Err((status, html)) => {
                &&& !sessions@.dom().contains(params.id@)
                &&& status == status_of(ErrorKind::NotFound)
                &&& html@ == SESSION_NOT_FOUND_PAGE@
            },
        },
{
    match sessions.get(params.id.as_str()) {
        Some(session) => Ok(
            render_auth_page(session.id.as_str(), params.tag.as_str(), session.otp.as_str()),
        ),
        None => Err((ErrorKind::NotFound.status_code(), String::from_str(SESSION_NOT_FOUND_PAGE))),
    }
}

} // verus!
