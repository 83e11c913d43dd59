//! The store of one-time-password sessions, keyed by session identifier.

use vstd::prelude::*;
use crate::auth::{generate_session_token, is_token_text, Session, SessionStatus};
use crate::clock::now_millis;
use crate::error::ErrorKind;
use crate::str_map::{lemma_position_of, StrMap};

verus! {

/// The sessions of the grant handshake, each under its identifier.
pub struct SessionStore {
    sessions: StrMap<Session>,
}

/// What a grant on the session under `id` meets.
pub open spec fn grant_outcome(
    sessions: Map<Seq<char>, Session>,
    id: Seq<char>,
    otp: Seq<char>,
    now: i64,
) -> Result<(), ErrorKind> {
    if !sessions.dom().contains(id) {
        Err(ErrorKind::NotFound)
    } else {
        sessions[id].grant_check(otp, now)
    }
}

/// What a denial of the session under `id` meets.
pub open spec fn deny_outcome(sessions: Map<Seq<char>, Session>, id: Seq<char>) -> Result<
    (),
    ErrorKind,
> {
    if !sessions.dom().contains(id) {
        Err(ErrorKind::NotFound)
    } else {
        sessions[id].deny_check()
    }
}

/// The sessions that a sweep at `now` leaves: all but the pending ones whose
/// time has run out.
pub open spec fn swept(sessions: Map<Seq<char>, Session>, now: i64) -> Map<Seq<char>, Session> {
    sessions.restrict(
        Set::new(|id: Seq<char>| sessions.dom().contains(id) && !sessions[id].lapsed(now)),
    )
}

impl SessionStore {
    /// The stored sessions, by identifier.
    pub closed spec fn view(&self) -> Map<Seq<char>, Session> {
        self.sessions@
    }

    /// An empty store.
    pub fn new() -> (store: Self)
        ensures
            store@ == Map::<Seq<char>, Session>::empty(),
    {
        SessionStore { sessions: StrMap::new() }
    }

    /// Stores a session under its own identifier.
    pub fn create(&mut self, session: Session)
        ensures
            final(self)@ == old(self)@.insert(session.id@, session),
    {
        let key = session.id.clone();
        self.sessions.insert(key, session);
    }

    /// A copy of the session stored under `id`.
    pub fn get(&self, id: &str) -> (found: Option<Session>)
        ensures
            found == (if self@.dom().contains(id@) {
                Some(self@[id@])
            } else {
                None
            }),
    {
        match self.sessions.get(id) {
            Some(session) => Some(session.duplicate()),
            None => None,
        }
    }

    /// A copy of the session stored under `id` as an observer reads it at
    /// `now`: a pending session whose time has run out shows as expired. The
    /// stored record does not change.
    pub fn observe_at(&self, id: &str, now: i64) -> (found: Option<Session>)
        ensures
            found == (if self@.dom().contains(id@) {
                Some(Session { status: self@[id@].status_at(now), ..self@[id@] })
            } else {
                None
            }),
    {
        match self.sessions.get(id) {
            Some(session) => {
                let mut copy = session.duplicate();
                copy.status = session.observed_status(now);
                Some(copy)
            },
            None => None,
        }
    }

    /// Stores `session` under `id`, in place of what stood there.
    pub fn update(&mut self, id: &str, session: Session)
        ensures
            final(self)@ == old(self)@.insert(id@, session),
    {
        self.sessions.insert(id.to_owned(), session);
    }

    /// Removes the session stored under `id`, if there is one.
    pub fn delete(&mut self, id: &str)
        ensures
            final(self)@ == old(self)@.remove(id@),
    {
        self.sessions.remove(id);
    }

    /// Grants the session under `id` with the given password at `now` and
    /// issues `token`. The state is checked first, then the password, then
    /// the time; on any failure nothing changes.
    pub fn grant_with(&mut self, id: &str, otp: &str, now: i64, token: String) -> (outcome: Result<
        Session,
        ErrorKind,
    >)
        ensures
            match outcome {
                Ok(session) => {
                    &&& grant_outcome(old(self)@, id@, otp@, now) is Ok
                    &&& session == old(self)@[id@].granted(token)
                    &&& final(self)@ == old(self)@.insert(id@, session)
                },
                Err(kind) => {
                    &&& grant_outcome(old(self)@, id@, otp@, now) == Err::<(), ErrorKind>(kind)
                    &&& final(self)@ == old(self)@
                },
            },
    {
        let index = match self.sessions.find(id) {
            Some(index) => index,
            None => {
                return Err(ErrorKind::NotFound);
            },
        };
        let stored = self.sessions.value_at(index);
        match stored.check_grant(otp, now) {
            Err(kind) => Err(kind),
            Ok(()) => {
                let mut granted = stored.duplicate();
                granted.status = SessionStatus::Granted;
                granted.token = Some(token);
                let copy = granted.duplicate();
                self.sessions.replace_at(index, granted);
                Ok(copy)
            },
        }
    }

    /// Grants the session under `id` with the given password, now, and issues
    /// a fresh token. On success the stored session is granted and carries a
    /// token of 64 lower-case hexadecimal digits; on failure nothing changes,
    /// and the failure is `NotFound` exactly for an unknown identifier,
    /// `Conflict` exactly for a session that is not pending, `Unauthorized`
    /// exactly for a pending session with another password, and `Gone` only
    /// for a pending session with this password.
    pub fn grant(&mut self, id: &str, otp: &str) -> (outcome: Result<Session, ErrorKind>)
        ensures
            match outcome {
                Ok(session) => {
                    &&& exists|now: i64| #[trigger] grant_outcome(old(self)@, id@, otp@, now) is Ok
                    &&& old(self)@.dom().contains(id@)
                    &&& old(self)@[id@].status == SessionStatus::Pending
                    &&& old(self)@[id@].otp@ == otp@
                    &&& session.status == SessionStatus::Granted
                    &&& session.token matches Some(t) && is_token_text(t@)
                    &&& session == old(self)@[id@].granted(session.token->0)
                    &&& final(self)@ == old(self)@.insert(id@, session)
                },
                Err(kind) => {
                    &&& final(self)@ == old(self)@
                    &&& exists|now: i64|
                        #[trigger] grant_outcome(old(self)@, id@, otp@, now) == Err::<
                            (),
                            ErrorKind,
                        >(kind)
                    &&& kind == ErrorKind::NotFound <==> !old(self)@.dom().contains(id@)
                    &&& kind == ErrorKind::Conflict
                        <==> old(self)@.dom().contains(id@)
                        && old(self)@[id@].status != SessionStatus::Pending
                    &&& kind == ErrorKind::Unauthorized
                        <==> old(self)@.dom().contains(id@)
                        && old(self)@[id@].status == SessionStatus::Pending
                        && old(self)@[id@].otp@ != otp@
                    &&& kind == ErrorKind::Gone
                        ==> old(self)@.dom().contains(id@)
                        && old(self)@[id@].status == SessionStatus::Pending
                        && old(self)@[id@].otp@ == otp@
                    &&& kind == ErrorKind::NotFound || kind == ErrorKind::Conflict || kind
                        == ErrorKind::Unauthorized || kind == ErrorKind::Gone
                },
            },
    {
        let now = now_millis();
        let checked = match self.sessions.get(id) {
            Some(stored) => stored.check_grant(otp, now),
            None => Err(ErrorKind::NotFound),
        };
        assert(checked == grant_outcome(self@, id@, otp@, now));
        match checked {
            Err(kind) => Err(kind),
            Ok(()) => self.grant_with(id, otp, now, generate_session_token()),
        }
    }

    /// Denies the session under `id`. Only a pending session can be denied;
    /// on failure nothing changes.
    pub fn deny(&mut self, id: &str) -> (outcome: Result<Session, ErrorKind>)
        ensures
            match outcome {
                Ok(session) => {
                    &&& deny_outcome(old(self)@, id@) is Ok
                    &&& session == old(self)@[id@].denied()
                    &&& final(self)@ == old(self)@.insert(id@, session)
                },
                Err(kind) => {
                    &&& deny_outcome(old(self)@, id@) == Err::<(), ErrorKind>(kind)
                    &&& final(self)@ == old(self)@
                },
            },
    {
        let index = match self.sessions.find(id) {
            Some(index) => index,
            None => {
                return Err(ErrorKind::NotFound);
            },
        };
        let stored = self.sessions.value_at(index);
        match stored.check_deny() {
            Err(kind) => Err(kind),
            Ok(()) => {
                let mut denied = stored.duplicate();
                denied.status = SessionStatus::Denied;
                let copy = denied.duplicate();
                self.sessions.replace_at(index, denied);
                Ok(copy)
            },
        }
    }

    /// Removes the sessions that are still pending at `now` although their
    /// time has run out. Granted and denied sessions stay, whatever their
    /// age.
    pub fn cleanup_expired_at(&mut self, now: i64)
        ensures
            final(self)@ == swept(old(self)@, now),
    {
        let n = self.sessions.len();
        let mut keep: Vec<bool> = Vec::new();
        let mut i: usize = 0;
        while i < n
            invariant
                n == self.sessions.keys().len(),
                n == self.sessions.values().len(),
                i <= n,
                keep@.len() == i,
                forall|j: int| 0 <= j < i ==> keep@[j] == !self.sessions.values()[j].lapsed(now),
            decreases n - i,
        {
            let session = self.sessions.value_at(i);
            keep.push(!(session.status == SessionStatus::Pending && now > session.expires_at));
            i += 1;
        }
        let ghost keys0 = self.sessions.keys();
        let ghost before = self.sessions@;
        self.sessions.retain_flags(&keep);
        proof {
            assert forall|id: Seq<char>| #[trigger]
                self.sessions@.dom().contains(id) == swept(before, now).dom().contains(id) by {
                lemma_position_of(keys0, id);
            }
            assert(self.sessions@ =~= swept(before, now));
        }
    }

    /// Removes the sessions that are pending and have run out by now. No
    /// session that is granted or denied is removed, and no session is added
    /// or changed.
    pub fn cleanup_expired(&mut self)
        ensures
            exists|now: i64| final(self)@ == #[trigger] swept(old(self)@, now),
            forall|id: Seq<char>| #[trigger]
                final(self)@.dom().contains(id)
                    ==> old(self)@.dom().contains(id) && final(self)@[id]
                    == old(self)@[id],
            forall|id: Seq<char>| #[trigger]
                old(self)@.dom().contains(id) && old(self)@[id].status != SessionStatus::Pending
                    ==> final(self)@.dom().contains(id),
    {
        self.cleanup_expired_at(now_millis());
    }
}

/// Every stored session is coherent: it carries a token exactly when it is
/// granted, and the token is 64 lower-case hexadecimal digits.
pub open spec fn all_coherent(sessions: Map<Seq<char>, Session>) -> bool {
    forall|id: Seq<char>| sessions.dom().contains(id) ==> (#[trigger] sessions[id]).coherent()
}

/// A grant that issues a well-formed token, a denial, a sweep, a deletion
/// and the storing of a coherent session each leave every stored session
/// coherent.
pub proof fn lemma_steps_keep_coherence(
    sessions: Map<Seq<char>, Session>,
    id: Seq<char>,
    otp: Seq<char>,
    now: i64,
    token: String,
    stored: Session,
)
    requires
        all_coherent(sessions),
        is_token_text(token@),
        stored.coherent(),
    ensures
        grant_outcome(sessions, id, otp, now) is Ok ==> all_coherent(
            sessions.insert(id, sessions[id].granted(token)),
        ),
        deny_outcome(sessions, id) is Ok ==> all_coherent(
            sessions.insert(id, sessions[id].denied()),
        ),
        all_coherent(swept(sessions, now)),
        all_coherent(sessions.remove(id)),
        all_coherent(sessions.insert(id, stored)),
{
}

/// After a sweep no pending session is left whose time has run out, and
/// every other session is still there, unchanged.
pub proof fn lemma_sweep(sessions: Map<Seq<char>, Session>, now: i64, id: Seq<char>)
    requires
        sessions.dom().contains(id),
    ensures
        sessions[id].lapsed(now) ==> !swept(sessions, now).dom().contains(id),
        !sessions[id].lapsed(now) ==> swept(sessions, now).dom().contains(id) && swept(
            sessions,
            now,
        )[id] == sessions[id],
{
}

} // verus!
