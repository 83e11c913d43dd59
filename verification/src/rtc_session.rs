//! RTC sessions: short-lived rooms with a cap on participants and a counter
//! that hands out their uids.

use vstd::prelude::*;
use crate::clock::{add_millis, later, now_millis, CLOCK_LIMIT_MILLIS};
use crate::error::{status_of, ErrorKind};
use crate::ident::{is_uuid_text, new_id};
use crate::str_map::{lemma_position_of, StrMap};
use crate::text::{clone_opt, contains, has_infix, has_prefix, occurs_at, starts_with};
use crate::validate::{has_length_between, validation_error, validation_message};

verus! {

/// The most participants a session takes.
pub const MAX_PARTICIPANTS: usize = 8;

/// The uid that the first participant of a session gets.
pub const FIRST_UID: u32 = 1000;

/// How long a session lives, in milliseconds: four hours.
pub const RTC_SESSION_TTL_MILLIS: i64 = 14_400_000;

/// What `join` reports for an unknown session.
pub open spec fn not_found_message() -> Seq<char> {
    "Session not found"@
}

/// What `join` reports for a session that is full.
pub open spec fn full_message() -> Seq<char> {
    "Session is full (maximum 8 participants)"@
}

/// The view of an optional text.
pub open spec fn opt_text(o: Option<String>) -> Option<Seq<char>> {
    match o {
        Some(s) => Some(s@),
        None => None,
    }
}

/// Someone who joined a session.
#[derive(Clone, Debug)]
pub struct Participant {
    pub uid: u32,
    pub display_name: Option<String>,
    /// Milliseconds since the epoch.
    pub joined_at: i64,
}

/// A participant as a mathematical value.
pub struct ParticipantView {
    pub uid: u32,
    pub display_name: Option<Seq<char>>,
    pub joined_at: i64,
}

impl View for Participant {
    type V = ParticipantView;

    open spec fn view(&self) -> ParticipantView {
        ParticipantView {
            uid: self.uid,
            display_name: opt_text(self.display_name),
            joined_at: self.joined_at,
        }
    }
}

/// The views of a sequence of participants.
pub open spec fn participant_views(ps: Seq<Participant>) -> Seq<ParticipantView> {
    Seq::new(ps.len(), |i: int| ps[i]@)
}

/// A session as a mathematical value.
pub struct RtcSessionView {
    pub id: Seq<char>,
    pub app_id: Seq<char>,
    pub channel: Seq<char>,
    pub token: Seq<char>,
    pub uid_counter: u32,
    pub host_uid: u32,
    pub created_at: i64,
    pub expires_at: i64,
    pub participants: Seq<ParticipantView>,
}

/// The uid counter after it handed out `counter`; it wraps at the end of its
/// range.
pub open spec fn next_counter(counter: u32) -> u32 {
    if counter == u32::MAX {
        0
    } else {
        (counter + 1) as u32
    }
}

impl RtcSessionView {
    /// A session without participants, created at `now` and living for four
    /// hours, with its counter at the first uid.
    pub open spec fn created(
        id: Seq<char>,
        app_id: Seq<char>,
        channel: Seq<char>,
        token: Seq<char>,
        host_uid: u32,
        now: i64,
    ) -> RtcSessionView {
        RtcSessionView {
            id,
            app_id,
            channel,
            token,
            uid_counter: FIRST_UID,
            host_uid,
            created_at: now,
            expires_at: later(now, RTC_SESSION_TTL_MILLIS),
            participants: Seq::empty(),
        }
    }

    /// Whether the session takes no further participant.
    pub open spec fn is_full(self) -> bool {
        self.participants.len() >= MAX_PARTICIPANTS
    }

    /// Whether the session's time has run out at `now`.
    pub open spec fn is_expired(self, now: i64) -> bool {
        now > self.expires_at
    }

    /// The session after `name` joined it at `now`: the participant gets the
    /// counter's value as uid and goes to the end of the list, and the counter
    /// moves on by one. A full session does not change.
    pub open spec fn joined(self, name: Seq<char>, now: i64) -> RtcSessionView {
        if self.is_full() {
            self
        } else {
            RtcSessionView {
                uid_counter: next_counter(self.uid_counter),
                participants: self.participants.push(
                    ParticipantView {
                        uid: self.uid_counter,
                        display_name: Some(name),
                        joined_at: now,
                    },
                ),
                ..self
            }
        }
    }

    /// A session in which nobody has joined yet.
    pub open spec fn is_fresh(self) -> bool {
        self.uid_counter == FIRST_UID && self.participants.len() == 0
    }

    /// The uids run from the first uid upwards, one by one, in the order of
    /// joining, the counter stands behind the last of them, and the cap
    /// holds.
    pub open spec fn uids_in_order(self) -> bool {
        &&& self.participants.len() <= MAX_PARTICIPANTS
        &&& self.uid_counter == FIRST_UID + self.participants.len()
        &&& forall|i: int|
            0 <= i < self.participants.len() ==> (#[trigger] self.participants[i]).uid == FIRST_UID
                + i
    }

    /// The session after the given joins, one after the other.
    pub open spec fn after_joins(self, names: Seq<Seq<char>>, times: Seq<i64>) -> RtcSessionView
        decreases names.len(),
    {
        if names.len() == 0 {
            self
        } else {
            self.after_joins(names.drop_last(), times.drop_last()).joined(
                names.last(),
                times.last(),
            )
        }
    }
}

/// A join keeps the uids in order: it fails exactly on a full session, and
/// otherwise hands out the uid that follows the last one.
pub proof fn lemma_join_keeps_order(s: RtcSessionView, name: Seq<char>, now: i64)
    requires
        s.uids_in_order(),
    ensures
        s.joined(name, now).uids_in_order(),
        !s.is_full() ==> s.joined(name, now).participants.len() == s.participants.len() + 1
            && s.joined(name, now).participants.last().uid == FIRST_UID + s.participants.len(),
        s.is_full() ==> s.joined(name, now) == s,
{
}

/// Of `n` joins on a fresh session exactly the first `min(n, 8)` succeed:
/// that many participants are listed afterwards, and their uids are 1000,
/// 1001 and so on, strictly increasing and without a gap.
pub proof fn lemma_joins_on_fresh_session(
    s: RtcSessionView,
    names: Seq<Seq<char>>,
    times: Seq<i64>,
)
    requires
        s.is_fresh(),
        names.len() == times.len(),
    ensures
        s.after_joins(names, times).uids_in_order(),
        s.after_joins(names, times).participants.len() == (if names.len() < MAX_PARTICIPANTS {
            names.len()
        } else {
            MAX_PARTICIPANTS as nat
        }),
        forall|i: int, j: int|
            0 <= i < j < s.after_joins(names, times).participants.len() ==> s.after_joins(
                names,
                times,
            ).participants[i].uid < s.after_joins(names, times).participants[j].uid,
    decreases names.len(),
{
    if names.len() > 0 {
        lemma_joins_on_fresh_session(s, names.drop_last(), times.drop_last());
        let before = s.after_joins(names.drop_last(), times.drop_last());
        lemma_join_keeps_order(before, names.last(), times.last());
    }
}

/// A session as the store holds it.
pub struct RtcSessionInner {
    pub id: String,
    pub app_id: String,
    pub channel: String,
    pub token: String,
    pub uid_counter: u32,
    pub host_uid: u32,
    /// Milliseconds since the epoch.
    pub created_at: i64,
    /// Milliseconds since the epoch.
    pub expires_at: i64,
    pub participants: Vec<Participant>,
}

/// A snapshot of a session, as store operations return it.
#[derive(Clone, Debug)]
pub struct RtcSession {
    pub id: String,
    pub app_id: String,
    pub channel: String,
    pub token: String,
    pub uid_counter_value: u32,
    pub host_uid: u32,
    /// Milliseconds since the epoch.
    pub created_at: i64,
    /// Milliseconds since the epoch.
    pub expires_at: i64,
    pub participants: Vec<Participant>,
}

impl View for RtcSessionInner {
    type V = RtcSessionView;

    open spec fn view(&self) -> RtcSessionView {
        RtcSessionView {
            id: self.id@,
            app_id: self.app_id@,
            channel: self.channel@,
            token: self.token@,
            uid_counter: self.uid_counter,
            host_uid: self.host_uid,
            created_at: self.created_at,
            expires_at: self.expires_at,
            participants: participant_views(self.participants@),
        }
    }
}

impl View for RtcSession {
    type V = RtcSessionView;

    open spec fn view(&self) -> RtcSessionView {
        RtcSessionView {
            id: self.id@,
            app_id: self.app_id@,
            channel: self.channel@,
            token: self.token@,
            uid_counter: self.uid_counter_value,
            host_uid: self.host_uid,
            created_at: self.created_at,
            expires_at: self.expires_at,
            participants: participant_views(self.participants@),
        }
    }
}

/// What a successful join hands to the joiner.
#[derive(Debug)]
pub struct JoinRtcSessionResponse {
    pub app_id: String,
    pub channel: String,
    pub token: String,
    pub uid: u32,
    pub name: String,
}

fn copy_participants(ps: &Vec<Participant>) -> (copy: Vec<Participant>)
    ensures
        participant_views(copy@) == participant_views(ps@),
{
    let mut copy: Vec<Participant> = Vec::new();
    let n = ps.len();
    let mut i: usize = 0;
    while i < n
        invariant
            n == ps@.len(),
            i <= n,
            copy@.len() == i,
            forall|j: int| 0 <= j < i ==> copy@[j]@ == ps@[j]@,
        decreases n - i,
    {
        let p = &ps[i];
        copy.push(
            Participant {
                uid: p.uid,
                display_name: clone_opt(&p.display_name),
                joined_at: p.joined_at,
            },
        );
        i += 1;
    }
    assert(participant_views(copy@) =~= participant_views(ps@));
    copy
}

impl RtcSessionInner {
    /// A session without participants, created at `now` and living for four
    /// hours. Its counter stands at the first uid.
    pub fn new_at(
        id: String,
        app_id: String,
        channel: String,
        token: String,
        host_uid: u32,
        now: i64,
    ) -> (inner: RtcSessionInner)
        ensures
            inner@ == RtcSessionView::created(id@, app_id@, channel@, token@, host_uid, now),
            inner@.is_fresh(),
    {
        let inner = RtcSessionInner {
            id,
            app_id,
            channel,
            token,
            uid_counter: FIRST_UID,
            host_uid,
            created_at: now,
            expires_at: add_millis(now, RTC_SESSION_TTL_MILLIS),
            participants: Vec::new(),
        };
        assert(participant_views(inner.participants@) =~= Seq::empty());
        inner
    }

    /// A snapshot of the session.
    pub fn snapshot(&self) -> (session: RtcSession)
        ensures
            session@ == self@,
    {
        RtcSession {
            id: self.id.clone(),
            app_id: self.app_id.clone(),
            channel: self.channel.clone(),
            token: self.token.clone(),
            uid_counter_value: self.uid_counter,
            host_uid: self.host_uid,
            created_at: self.created_at,
            expires_at: self.expires_at,
            participants: copy_participants(&self.participants),
        }
    }

    /// Lets `name` join at `now`. A session with eight participants refuses;
    /// otherwise the joiner gets the counter's value as uid, the counter
    /// moves on, and the joiner is listed last. The cap is checked before the
    /// counter moves.
    pub fn join_at(&mut self, name: String, now: i64) -> (outcome: Result<
        JoinRtcSessionResponse,
        String,
    >)
        ensures
            final(self)@ == old(self)@.joined(name@, now),
            match outcome {
                Ok(joined) => {
                    &&& !old(self)@.is_full()
                    &&& joined.app_id@ == old(self)@.app_id
                    &&& joined.channel@ == old(self)@.channel
                    &&& joined.token@ == old(self)@.token
                    &&& joined.uid == old(self)@.uid_counter
                    &&& joined.name == name
                },
                Err(message) => old(self)@.is_full() && message@ == full_message(),
            },
    {
        if self.participants.len() >= MAX_PARTICIPANTS {
            return Err("Session is full (maximum 8 participants)".to_owned());
        }
        let uid = self.uid_counter;
        self.uid_counter = if uid == u32::MAX {
            0
        } else {
            uid + 1
        };
        let ghost before = participant_views(self.participants@);
        let participant = Participant { uid, display_name: Some(name.clone()), joined_at: now };
        self.participants.push(participant);
        assert(participant_views(self.participants@) =~= before.push(participant@));
        Ok(
            JoinRtcSessionResponse {
                app_id: self.app_id.clone(),
                channel: self.channel.clone(),
                token: self.token.clone(),
                uid,
                name,
            },
        )
    }
}

/// The views of the stored sessions.
pub open spec fn session_views(sessions: Map<Seq<char>, RtcSessionInner>) -> Map<
    Seq<char>,
    RtcSessionView,
> {
    Map::new(|id: Seq<char>| sessions.dom().contains(id), |id: Seq<char>| sessions[id]@)
}

/// The sessions that a sweep at `now` leaves: those whose time has not run
/// out.
pub open spec fn unexpired(sessions: Map<Seq<char>, RtcSessionView>, now: i64) -> Map<
    Seq<char>,
    RtcSessionView,
> {
    sessions.restrict(
        Set::new(|id: Seq<char>| sessions.dom().contains(id) && !sessions[id].is_expired(now)),
    )
}

/// The RTC sessions, each under its identifier.
pub struct RtcSessionStore {
    sessions: StrMap<RtcSessionInner>,
}

impl RtcSessionStore {
    /// The stored sessions, by identifier.
    pub closed spec fn view(&self) -> Map<Seq<char>, RtcSessionView> {
        session_views(self.sessions@)
    }

    /// An empty store.
    pub fn new() -> (store: Self)
        ensures
            store@ == Map::<Seq<char>, RtcSessionView>::empty(),
    {
        let store = RtcSessionStore { sessions: StrMap::new() };
        assert(store@ =~= Map::<Seq<char>, RtcSessionView>::empty());
        store
    }

    /// Stores a new session without participants under `id`, created at
    /// `now`, and returns its snapshot.
    pub fn create_at(
        &mut self,
        id: String,
        app_id: String,
        channel: String,
        token: String,
        host_uid: u32,
        now: i64,
    ) -> (session: RtcSession)
        ensures
            session@ == RtcSessionView::created(id@, app_id@, channel@, token@, host_uid, now),
            final(self)@ == old(self)@.insert(id@, session@),
    {
        let key = id.clone();
        let inner = RtcSessionInner::new_at(id, app_id, channel, token, host_uid, now);
        let snapshot = inner.snapshot();
        self.sessions.insert(key, inner);
        assert(self@ =~= old(self)@.insert(id@, snapshot@));
        snapshot
    }

    /// Stores a new session without participants under `id`, created now and
    /// living for four hours, and returns its snapshot.
    pub fn create(
        &mut self,
        id: String,
        app_id: String,
        channel: String,
        token: String,
        host_uid: u32,
    ) -> (session: RtcSession)
        ensures
            session@ == RtcSessionView::created(
                id@,
                app_id@,
                channel@,
                token@,
                host_uid,
                session@.created_at,
            ),
            0 <= session@.created_at < CLOCK_LIMIT_MILLIS,
            session@.expires_at == session@.created_at + RTC_SESSION_TTL_MILLIS,
            final(self)@ == old(self)@.insert(id@, session@),
    {
        self.create_at(id, app_id, channel, token, host_uid, now_millis())
    }

    /// A snapshot of the session stored under `id`.
    pub fn get(&self, id: &str) -> (found: Option<RtcSession>)
        ensures
            match found {
                Some(session) => self@.dom().contains(id@) && session@ == self@[id@],
                None => !self@.dom().contains(id@),
            },
    {
        match self.sessions.get(id) {
            Some(inner) => Some(inner.snapshot()),
            None => None,
        }
    }

    /// Lets `name` join the session under `id` at `now`. An unknown session
    /// and a full one refuse, each with its message, and leave the store as it
    /// was; otherwise the joiner gets the session's credentials and the next
    /// uid, and is listed last.
    pub fn join_at(&mut self, id: &str, name: String, now: i64) -> (outcome: Result<
        JoinRtcSessionResponse,
        String,
    >)
        ensures
            match outcome {
                Ok(joined) => {
                    &&& old(self)@.dom().contains(id@)
                    &&& !old(self)@[id@].is_full()
                    &&& final(self)@ == old(self)@.insert(id@, old(self)@[id@].joined(name@, now))
                    &&& joined.app_id@ == old(self)@[id@].app_id
                    &&& joined.channel@ == old(self)@[id@].channel
                    &&& joined.token@ == old(self)@[id@].token
                    &&& joined.uid == old(self)@[id@].uid_counter
                    &&& joined.name == name
                },
                Err(message) => {
                    &&& final(self)@ == old(self)@
                    &&& if old(self)@.dom().contains(id@) {
                        old(self)@[id@].is_full() && message@ == full_message()
                    } else {
                        message@ == not_found_message()
                    }
                },
            },
    {
        let index = match self.sessions.find(id) {
            Some(index) => index,
            None => {
                return Err("Session not found".to_owned());
            },
        };
        if self.sessions.value_at(index).participants.len() >= MAX_PARTICIPANTS {
            return Err("Session is full (maximum 8 participants)".to_owned());
        }
        let ghost before = self.sessions@;
        let (key, mut inner) = self.sessions.remove_at(index);
        let outcome = inner.join_at(name, now);
        self.sessions.insert(key, inner);
        assert(self@ =~= old(self)@.insert(id@, old(self)@[id@].joined(name@, now)));
        outcome
    }

    /// Lets `name` join the session under `id`, now. What `join_at` says
    /// holds for the instant at which the call reads the clock.
    pub fn join(&mut self, id: &str, name: String) -> (outcome: Result<
        JoinRtcSessionResponse,
        String,
    >)
        ensures
            match outcome {
                Ok(joined) => {
                    &&& old(self)@.dom().contains(id@)
                    &&& !old(self)@[id@].is_full()
                    &&& exists|now: i64|
                        final(self)@ == old(self)@.insert(
                            id@,
                            #[trigger] old(self)@[id@].joined(name@, now),
                        )
                    &&& joined.app_id@ == old(self)@[id@].app_id
                    &&& joined.channel@ == old(self)@[id@].channel
                    &&& joined.token@ == old(self)@[id@].token
                    &&& joined.uid == old(self)@[id@].uid_counter
                    &&& joined.name == name
                },
                Err(message) => {
                    &&& final(self)@ == old(self)@
                    &&& if old(self)@.dom().contains(id@) {
                        old(self)@[id@].is_full() && message@ == full_message()
                    } else {
                        message@ == not_found_message()
                    }
                },
            },
    {
        self.join_at(id, name, now_millis())
    }

    /// Removes the session under `id` and says whether there was one.
    pub fn delete(&mut self, id: &str) -> (removed: bool)
        ensures
            removed == old(self)@.dom().contains(id@),
            final(self)@ == old(self)@.remove(id@),
    {
        let removed = self.sessions.remove(id).is_some();
        assert(self@ =~= old(self)@.remove(id@));
        removed
    }

    /// Removes the sessions whose time has run out at `now`.
    pub fn cleanup_expired_at(&mut self, now: i64)
        ensures
            final(self)@ == unexpired(old(self)@, now),
    {
        let n = self.sessions.len();
        let mut keep: Vec<bool> = Vec::new();
        let mut i: usize = 0;
        while i < n
            invariant
                n == self.sessions.keys().len(),
                n == self.sessions.values().len(),
                i <= n,
                keep@.len() == i,
                forall|j: int|
                    0 <= j < i ==> keep@[j] == !self.sessions.values()[j]@.is_expired(now),
            decreases n - i,
        {
            let inner = self.sessions.value_at(i);
            keep.push(!(now > inner.expires_at));
            i += 1;
        }
        let ghost keys0 = self.sessions.keys();
        let ghost before = self@;
        self.sessions.retain_flags(&keep);
        proof {
            assert forall|id: Seq<char>| #[trigger]
                self@.dom().contains(id) == unexpired(before, now).dom().contains(id) by {
                lemma_position_of(keys0, id);
            }
            assert(self@ =~= unexpired(before, now));
        }
    }

    /// Removes the sessions whose time has run out by now. No session is
    /// added or changed.
    pub fn cleanup_expired(&mut self)
        ensures
            exists|now: i64| final(self)@ == #[trigger] unexpired(old(self)@, now),
            forall|id: Seq<char>| #[trigger]
                final(self)@.dom().contains(id)
                    ==> old(self)@.dom().contains(id) && final(self)@[id]
                    == old(self)@[id],
    {
        self.cleanup_expired_at(now_millis());
    }
}

impl Default for RtcSessionStore {
    fn default() -> (store: Self)
        ensures
            store@ == Map::<Seq<char>, RtcSessionView>::empty(),
    {
        RtcSessionStore::new()
    }
}

/// Asks for a new session.
#[derive(Debug)]
pub struct CreateRtcSessionRequest {
    pub app_id: String,
    pub channel: String,
    pub token: String,
    pub host_uid: u32,
}

/// The new session's identifier and the address under which it is joined.
#[derive(Debug)]
pub struct CreateRtcSessionResponse {
    pub id: String,
    pub url: String,
}

/// What is shown of a session.
#[derive(Debug)]
pub struct GetRtcSessionResponse {
    pub app_id: String,
    pub channel: String,
    pub host_uid: u32,
    /// Milliseconds since the epoch.
    pub created_at: i64,
}

/// Asks to join a session under a display name.
#[derive(Debug)]
pub struct JoinRtcSessionRequest {
    pub name: String,
}

/// The body of a failure.
#[derive(Debug)]
pub struct RtcSessionError {
    pub error: String,
}

/// The host that is taken where a request names none.
pub const DEFAULT_HOST: &'static str = "localhost:8080";

impl CreateRtcSessionRequest {
    /// The first field whose length is out of range: the application
    /// identifier takes 1 to 255 characters, the channel 1 to 64 and the
    /// token 1 to 4096.
    pub open spec fn first_invalid_field(&self) -> Option<Seq<char>> {
        if !(1 <= self.app_id@.len() <= 255) {
            Some("app_id"@)
        } else if !(1 <= self.channel@.len() <= 64) {
            Some("channel"@)
        } else if !(1 <= self.token@.len() <= 4096) {
            Some("token"@)
        } else {
            None
        }
    }

    /// Checks the bounds of the request's fields.
    pub fn validate(&self) -> (outcome: Result<(), String>)
        ensures
            match outcome {
                Ok(_) => self.first_invalid_field() is None,
                Err(message) => self.first_invalid_field() matches Some(field) && message@
                    == validation_message(field),
            },
    {
        if !has_length_between(self.app_id.as_str(), 1, 255) {
            Err(validation_error("app_id"))
        } else if !has_length_between(self.channel.as_str(), 1, 64) {
            Err(validation_error("channel"))
        } else if !has_length_between(self.token.as_str(), 1, 4096) {
            Err(validation_error("token"))
        } else {
            Ok(())
        }
    }
}

impl JoinRtcSessionRequest {
    /// The name has between 1 and 100 characters.
    pub open spec fn is_valid(&self) -> bool {
        1 <= self.name@.len() <= 100
    }

    /// Checks the bounds of the request's fields.
    pub fn validate(&self) -> (outcome: Result<(), String>)
        ensures
            match outcome {
                Ok(_) => self.is_valid(),
                Err(message) => !self.is_valid() && message@ == validation_message("name"@),
            },
    {
        if has_length_between(self.name.as_str(), 1, 100) {
            Ok(())
        } else {
            Err(validation_error("name"))
        }
    }
}

/// Whether a host is the local machine or lies in a private network, going
/// by its text.
pub open spec fn is_local_host(host: Seq<char>) -> bool {
    has_infix(host, "localhost"@) || has_prefix(host, "127.0.0.1"@) || has_prefix(
        host,
        "192.168."@,
    ) || has_prefix(host, "10."@)
}

/// The protocol of a session's address: the forwarded one where the request
/// names it, else `http` for a local host and `https` for any other.
pub open spec fn protocol_text(host: Seq<char>, forwarded_proto: Option<Seq<char>>) -> Seq<char> {
    match forwarded_proto {
        Some(proto) => proto,
        None => if is_local_host(host) {
            "http"@
        } else {
            "https"@
        },
    }
}

/// The host of a session's address: the request's, or the default.
pub open spec fn host_text(host: Option<Seq<char>>) -> Seq<char> {
    match host {
        Some(h) => h,
        None => DEFAULT_HOST@,
    }
}

/// The address under which the session `id` is joined.
pub open spec fn session_url_text(
    host: Option<Seq<char>>,
    forwarded_proto: Option<Seq<char>>,
    id: Seq<char>,
) -> Seq<char> {
    protocol_text(host_text(host), forwarded_proto) + "://"@ + host_text(host) + "/session/"@ + id
}

/// The view of an optional text slice.
pub open spec fn opt_str(o: Option<&str>) -> Option<Seq<char>> {
    match o {
        Some(s) => Some(s@),
        None => None,
    }
}

/// The address under which the session `id` is joined, from the request's
/// host and forwarded protocol.
pub fn session_url(host: Option<&str>, forwarded_proto: Option<&str>, id: &str) -> (url: String)
    ensures
        url@ == session_url_text(opt_str(host), opt_str(forwarded_proto), id@),
{
    let host = match host {
        Some(h) => h,
        None => DEFAULT_HOST,
    };
    let protocol = match forwarded_proto {
        Some(proto) => proto,
        None => {
            if contains(host, "localhost") || starts_with(host, "127.0.0.1") || starts_with(
                host,
                "192.168.",
            ) || starts_with(host, "10.") {
                "http"
            } else {
                "https"
            }
        },
    };
    let mut url = String::from_str(protocol);
    url.append("://");
    url.append(host);
    url.append("/session/");
    url.append(id);
    url
}

/// Creates a session with the identifier `id` at `now`. A field out of
/// range is answered with status 400, an empty identifier and the message in
/// place of the address, and nothing is stored. Otherwise the session is
/// stored and answered with status 201, its identifier and its address.
pub fn create_rtc_session_handler_with(
    store: &mut RtcSessionStore,
    host: Option<&str>,
    forwarded_proto: Option<&str>,
    body: CreateRtcSessionRequest,
    id: String,
    now: i64,
) -> (reply: (u16, CreateRtcSessionResponse))
    ensures
        match body.first_invalid_field() {
            Some(field) => {
                &&& reply.0 == status_of(ErrorKind::Validation)
                &&& reply.1.id@ == Seq::<char>::empty()
                &&& reply.1.url@ == validation_message(field)
                &&& final(store)@ == old(store)@
            },
            None => {
                &&& reply.0 == 201
                &&& reply.1.id@ == id@
                &&& reply.1.url@ == session_url_text(opt_str(host), opt_str(forwarded_proto), id@)
                &&& final(store)@ == old(store)@.insert(
                    id@,
                    RtcSessionView::created(
                        id@,
                        body.app_id@,
                        body.channel@,
                        body.token@,
                        body.host_uid,
                        now,
                    ),
                )
            },
        },
{
    match body.validate() {
        Err(message) => (
            ErrorKind::Validation.status_code(),
            CreateRtcSessionResponse { id: String::new(), url: message },
        ),
        Ok(()) => {
            let url = session_url(host, forwarded_proto, id.as_str());
            store.create_at(id.clone(), body.app_id, body.channel, body.token, body.host_uid, now);
            (201, CreateRtcSessionResponse { id, url })
        },
    }
}

/// Creates a session now, under a fresh identifier. A field out of range is
/// answered with status 400 and nothing is stored; otherwise the session is
/// stored, fresh and without participants, and answered with status 201.
pub fn create_rtc_session_handler(
    store: &mut RtcSessionStore,
    host: Option<&str>,
    forwarded_proto: Option<&str>,
    body: CreateRtcSessionRequest,
) -> (reply: (u16, CreateRtcSessionResponse))
    ensures
        match body.first_invalid_field() {
            Some(field) => {
                &&& reply.0 == status_of(ErrorKind::Validation)
                &&& reply.1.id@ == Seq::<char>::empty()
                &&& reply.1.url@ == validation_message(field)
                &&& final(store)@ == old(store)@
            },
            None => {
                &&& reply.0 == 201
                &&& is_uuid_text(reply.1.id@)
                &&& reply.1.url@ == session_url_text(
                    opt_str(host),
                    opt_str(forwarded_proto),
                    reply.1.id@,
                )
                &&& exists|now: i64|
                    0 <= now < CLOCK_LIMIT_MILLIS && final(store)@ == old(store)@.insert(
                        reply.1.id@,
                        #[trigger] RtcSessionView::created(
                            reply.1.id@,
                            body.app_id@,
                            body.channel@,
                            body.token@,
                            body.host_uid,
                            now,
                        ),
                    )
                &&& final(store)@.dom().contains(reply.1.id@)
                &&& final(store)@[reply.1.id@].is_fresh()
                &&& final(store)@[reply.1.id@].expires_at == final(store)@[reply.1.id@].created_at
                    + RTC_SESSION_TTL_MILLIS
            },
        },
{
    match body.validate() {
        Err(message) => (
            ErrorKind::Validation.status_code(),
            CreateRtcSessionResponse { id: String::new(), url: message },
        ),
        Ok(()) => {
            let now = now_millis();
            let reply = create_rtc_session_handler_with(
                store,
                host,
                forwarded_proto,
                body,
                new_id(),
                now,
            );
            assert(store@ == old(store)@.insert(
                reply.1.id@,
                RtcSessionView::created(
                    reply.1.id@,
                    body.app_id@,
                    body.channel@,
                    body.token@,
                    body.host_uid,
                    now,
                ),
            ));
            reply
        },
    }
}

/// What is shown of the session `id`; an unknown one is answered with
/// status 404.
pub fn get_rtc_session_handler(store: &RtcSessionStore, id: &str) -> (reply: Result<
    GetRtcSessionResponse,
    (u16, RtcSessionError),
>)
    ensures
        match reply {
            Ok(shown) => {
                &&& store@.dom().contains(id@)
                &&& shown.app_id@ == store@[id@].app_id
                &&& shown.channel@ == store@[id@].channel
                &&& shown.host_uid == store@[id@].host_uid
                &&& shown.created_at == store@[id@].created_at
            },
            Err((status, failure)) => {
                &&& !store@.dom().contains(id@)
                &&& status == status_of(ErrorKind::NotFound)
                &&& failure.error@ == not_found_message()
            },
        },
{
    match store.get(id) {
        Some(session) => Ok(
            GetRtcSessionResponse {
                app_id: session.app_id,
                channel: session.channel,
                host_uid: session.host_uid,
                created_at: session.created_at,
            },
        ),
        None => Err(
            (
                ErrorKind::NotFound.status_code(),
                RtcSessionError { error: String::from_str("Session not found") },
            ),
        ),
    }
}

/// The status that reports a refusal of `join`, going by its message: 404
/// where it says `not found`, else 409 where it says `full`, else 500.
pub open spec fn join_failure_status(message: Seq<char>) -> u16 {
    if has_infix(message, "not found"@) {
        404
    } else if has_infix(message, "full"@) {
        409
    } else {
        500
    }
}

/// The message of an unknown session is reported with 404 and that of a
/// full session with 409.
pub proof fn lemma_join_failure_statuses()
    ensures
        join_failure_status(not_found_message()) == 404,
        join_failure_status(full_message()) == 409,
{
    reveal_strlit("Session not found");
    reveal_strlit("Session is full (maximum 8 participants)");
    reveal_strlit("not found");
    reveal_strlit("full");
    let missing = not_found_message();
    let full = full_message();
    assert(missing.subrange(8, 17) =~= "not found"@);
    assert(occurs_at(missing, "not found"@, 8));
    assert(full.subrange(11, 15) =~= "full"@);
    assert(occurs_at(full, "full"@, 11));
    assert forall|at: int| !occurs_at(full, "not found"@, at) by {
        if occurs_at(full, "not found"@, at) {
            let window = full.subrange(at, at + 9);
            assert(window[0] == full[at]);
            assert(window[1] == full[at + 1]);
            assert(window[0] == 'n' && window[1] == 'o');
        }
    }
}

/// Lets the named participant join the session `id` at `now`. A name out
/// of range is answered with 400, an unknown session with 404 and a full
/// one with 409, and none of these changes anything; otherwise the joiner
/// gets the session's credentials and the next uid.
pub fn join_rtc_session_handler_at(
    store: &mut RtcSessionStore,
    id: &str,
    body: JoinRtcSessionRequest,
    now: i64,
) -> (reply: Result<JoinRtcSessionResponse, (u16, RtcSessionError)>)
    ensures
        match reply {
            Ok(joined) => {
                &&& body.is_valid()
                &&& old(store)@.dom().contains(id@)
                &&& !old(store)@[id@].is_full()
                &&& final(store)@ == old(store)@.insert(
                    id@,
                    old(store)@[id@].joined(body.name@, now),
                )
                &&& joined.app_id@ == old(store)@[id@].app_id
                &&& joined.channel@ == old(store)@[id@].channel
                &&& joined.token@ == old(store)@[id@].token
                &&& joined.uid == old(store)@[id@].uid_counter
                &&& joined.name == body.name
            },
            Err((status, failure)) => {
                &&& final(store)@ == old(store)@
                &&& if !body.is_valid() {
                    status == 400 && failure.error@ == validation_message("name"@)
                } else if !old(store)@.dom().contains(id@) {
                    status == 404 && failure.error@ == not_found_message()
                } else {
                    old(store)@[id@].is_full() && status == 409 && failure.error@ == full_message()
                }
            },
        },
{
    match body.validate() {
        Err(message) => {
            return Err((ErrorKind::Validation.status_code(), RtcSessionError { error: message }));
        },
        Ok(()) => {},
    }
    match store.join_at(id, body.name, now) {
        Ok(joined) => Ok(joined),
        Err(error) => {
            proof {
                lemma_join_failure_statuses();
            }
            let status: u16 = if contains(error.as_str(), "not found") {
                404
            } else if contains(error.as_str(), "full") {
                409
            } else {
                500
            };
            Err((status, RtcSessionError { error }))
        },
    }
}

/// Lets the named participant join the session `id`, now. A name out of
/// range is answered with 400, an unknown session with 404 and a full one
/// with 409, and none of these changes anything. Otherwise the joiner is
/// listed last with the counter's value as uid, the counter moves on by one,
/// and nothing else changes.
pub fn join_rtc_session_handler(
    store: &mut RtcSessionStore,
    id: &str,
    body: JoinRtcSessionRequest,
) -> (reply: Result<JoinRtcSessionResponse, (u16, RtcSessionError)>)
    ensures
        match reply {
            Ok(joined) => {
                &&& body.is_valid()
                &&& old(store)@.dom().contains(id@)
                &&& !old(store)@[id@].is_full()
                &&& exists|now: i64|
                    final(store)@ == old(store)@.insert(
                        id@,
                        #[trigger] old(store)@[id@].joined(body.name@, now),
                    )
                &&& joined.app_id@ == old(store)@[id@].app_id
                &&& joined.channel@ == old(store)@[id@].channel
                &&& joined.token@ == old(store)@[id@].token
                &&& joined.uid == old(store)@[id@].uid_counter
                &&& joined.name == body.name
            },
            Err((status, failure)) => {
                &&& final(store)@ == old(store)@
                &&& if !body.is_valid() {
                    status == 400 && failure.error@ == validation_message("name"@)
                } else if !old(store)@.dom().contains(id@) {
                    status == 404 && failure.error@ == not_found_message()
                } else {
                    old(store)@[id@].is_full() && status == 409 && failure.error@ == full_message()
                }
            },
        },
{
    join_rtc_session_handler_at(store, id, body, now_millis())
}

/// Removes the session `id`: status 200 where there was one; an unknown
/// session is answered with status 404.
pub fn delete_rtc_session_handler(store: &mut RtcSessionStore, id: &str) -> (reply: Result<
    u16,
    (u16, RtcSessionError),
>)
    ensures
        match reply {
            Ok(status) => old(store)@.dom().contains(id@) && status == 200,
            Err((status, failure)) => {
                &&& !old(store)@.dom().contains(id@)
                &&& status == status_of(ErrorKind::NotFound)
                &&& failure.error@ == not_found_message()
            },
        },
        final(store)@ == old(store)@.remove(id@),
{
    if store.delete(id) {
        Ok(200)
    } else {
        Err(
            (
                ErrorKind::NotFound.status_code(),
                RtcSessionError { error: String::from_str("Session not found") },
            ),
        )
    }
}

} // verus!
