//! Voice sessions: a buffer of transcriptions per session, a three-state
//! machine, and the table of those who wait for a session's response.

use vstd::prelude::*;
use crate::clock::{elapsed_more_than, now_millis};
use crate::str_map::{lemma_position_of, StrMap};
use crate::text::{clone_opt, join_with_space, joined, texts};

verus! {

/// How long a session may stay idle before it expires, in milliseconds.
pub const VOICE_SESSION_IDLE_MILLIS: i64 = 60_000;

/// The state of a voice session.
#[derive(Debug, Clone, Copy, PartialEq, Eq, Structural)]
pub enum VoiceSessionState {
    /// Transcriptions are collected; requests get an empty reply.
    Accumulating,
    /// The trigger came; requests wait for the response.
    Triggered,
    /// The response is there to be handed out.
    ResponseReady,
}

/// A session that collects transcriptions until it is triggered.
#[derive(Debug, Clone)]
pub struct VoiceSession {
    pub session_id: String,
    pub atem_id: String,
    pub channel: String,
    pub state: VoiceSessionState,
    pub buffer: Vec<String>,
    pub response: Option<String>,
    /// Milliseconds since the epoch.
    pub created_at: i64,
    /// Milliseconds since the epoch.
    pub last_activity: i64,
    pub request_count: u32,
}

/// A voice session as a mathematical value.
pub struct VoiceSessionView {
    pub session_id: Seq<char>,
    pub atem_id: Seq<char>,
    pub channel: Seq<char>,
    pub state: VoiceSessionState,
    pub buffer: Seq<Seq<char>>,
    pub response: Option<Seq<char>>,
    pub created_at: i64,
    pub last_activity: i64,
    pub request_count: u32,
}

impl View for VoiceSession {
    type V = VoiceSessionView;

    open spec fn view(&self) -> VoiceSessionView {
        VoiceSessionView {
            session_id: self.session_id@,
            atem_id: self.atem_id@,
            channel: self.channel@,
            state: self.state,
            buffer: texts(self.buffer@),
            response: match self.response {
                Some(r) => Some(r@),
                None => None,
            },
            created_at: self.created_at,
            last_activity: self.last_activity,
            request_count: self.request_count,
        }
    }
}

impl VoiceSessionView {
    /// A new session: accumulating, with an empty buffer and no response.
    pub open spec fn fresh(
        session_id: Seq<char>,
        atem_id: Seq<char>,
        channel: Seq<char>,
        now: i64,
    ) -> VoiceSessionView {
        VoiceSessionView {
            session_id,
            atem_id,
            channel,
            state: VoiceSessionState::Accumulating,
            buffer: Seq::empty(),
            response: None,
            created_at: now,
            last_activity: now,
            request_count: 0,
        }
    }

    /// The session after `text` was added at `now`.
    pub open spec fn with_transcription(self, text: Seq<char>, now: i64) -> VoiceSessionView {
        VoiceSessionView { buffer: self.buffer.push(text), last_activity: now, ..self }
    }

    /// The buffered transcriptions with a single space between neighbours.
    pub open spec fn accumulated_text(self) -> Seq<char> {
        joined(self.buffer, seq![' '])
    }

    /// The session after the trigger came at `now`. The buffer stays. A
    /// session that is ready stays ready and keeps its response: the state
    /// never moves back.
    pub open spec fn triggered(self, now: i64) -> VoiceSessionView {
        if self.state == VoiceSessionState::ResponseReady {
            VoiceSessionView { last_activity: now, ..self }
        } else {
            VoiceSessionView { state: VoiceSessionState::Triggered, last_activity: now, ..self }
        }
    }

    /// The session after `response` was set at `now`, from whatever state.
    pub open spec fn with_response(self, response: Seq<char>, now: i64) -> VoiceSessionView {
        VoiceSessionView {
            response: Some(response),
            state: VoiceSessionState::ResponseReady,
            last_activity: now,
            ..self
        }
    }

    /// Whether the session has been idle for more than a minute at `now`.
    pub open spec fn is_expired(self, now: i64) -> bool {
        now - self.last_activity > VOICE_SESSION_IDLE_MILLIS
    }

    /// The session after one more request was counted. The counter wraps at
    /// the end of its range.
    pub open spec fn counted(self) -> VoiceSessionView {
        VoiceSessionView {
            request_count: if self.request_count == u32::MAX {
                0
            } else {
                (self.request_count + 1) as u32
            },
            ..self
        }
    }

    /// The session after the given transcriptions were added, one after the
    /// other.
    pub open spec fn after_transcriptions(
        self,
        items: Seq<Seq<char>>,
        times: Seq<i64>,
    ) -> VoiceSessionView
        decreases items.len(),
    {
        if items.len() == 0 {
            self
        } else {
            self.after_transcriptions(items.drop_last(), times.drop_last()).with_transcription(
                items.last(),
                times.last(),
            )
        }
    }

    /// A response is recorded exactly when the state has reached
    /// `ResponseReady`.
    pub open spec fn response_iff_ready(self) -> bool {
        self.state == VoiceSessionState::ResponseReady <==> self.response is Some
    }
}

/// After transcriptions `t1` to `tk` were added to a session with an empty
/// buffer, the accumulated text is `t1`, a space, `t2` and so on up to `tk`,
/// and the state is what it was.
pub proof fn lemma_accumulated_text(s: VoiceSessionView, items: Seq<Seq<char>>, times: Seq<i64>)
    requires
        s.buffer.len() == 0,
        items.len() == times.len(),
    ensures
        s.after_transcriptions(items, times).buffer == items,
        s.after_transcriptions(items, times).accumulated_text() == joined(items, seq![' ']),
        s.after_transcriptions(items, times).state == s.state,
        s.after_transcriptions(items, times).response == s.response,
    decreases items.len(),
{
    if items.len() > 0 {
        lemma_accumulated_text(s, items.drop_last(), times.drop_last());
        assert(items.drop_last().push(items.last()) =~= items);
    } else {
        assert(s.buffer =~= items);
    }
}

/// A trigger returns the accumulated text and leaves the buffer and the
/// response as they are. It moves an accumulating or triggered session to
/// `Triggered` and leaves a ready one ready.
pub proof fn lemma_trigger_keeps_buffer(s: VoiceSessionView, now: i64)
    ensures
        s.triggered(now).accumulated_text() == s.accumulated_text(),
        s.triggered(now).buffer == s.buffer,
        s.triggered(now).response == s.response,
        s.triggered(now).state == (if s.state == VoiceSessionState::ResponseReady {
            VoiceSessionState::ResponseReady
        } else {
            VoiceSessionState::Triggered
        }),
{
}

/// A step of a session.
pub enum VoiceStep {
    /// A transcription is added.
    Transcription { text: Seq<char>, at: i64 },
    /// The trigger comes.
    Trigger { at: i64 },
    /// A request is counted.
    Count,
    /// A response is set.
    Response { text: Seq<char>, at: i64 },
}

/// How far a state has come: accumulating, then triggered, then ready.
pub open spec fn rank(state: VoiceSessionState) -> int {
    match state {
        VoiceSessionState::Accumulating => 0,
        VoiceSessionState::Triggered => 1,
        VoiceSessionState::ResponseReady => 2,
    }
}

impl VoiceSessionView {
    /// The session after one step.
    pub open spec fn step(self, step: VoiceStep) -> VoiceSessionView {
        match step {
            VoiceStep::Transcription { text, at } => self.with_transcription(text, at),
            VoiceStep::Trigger { at } => self.triggered(at),
            VoiceStep::Count => self.counted(),
            VoiceStep::Response { text, at } => self.with_response(text, at),
        }
    }

    /// The session after the given steps, one after the other.
    pub open spec fn after_steps(self, steps: Seq<VoiceStep>) -> VoiceSessionView
        decreases steps.len(),
    {
        if steps.len() == 0 {
            self
        } else {
            self.after_steps(steps.drop_last()).step(steps.last())
        }
    }
}

/// No step moves the state back, and a response being set moves it to
/// `ResponseReady` from wherever it stands.
pub proof fn lemma_state_never_moves_back(s: VoiceSessionView, step: VoiceStep)
    ensures
        rank(s.step(step).state) >= rank(s.state),
        step is Response ==> s.step(step).state == VoiceSessionState::ResponseReady,
{
}

/// A new session records no response and is not ready, and every step keeps
/// the rule that a response is recorded exactly in the state
/// `ResponseReady`.
pub proof fn lemma_response_iff_ready(s: VoiceSessionView, step: VoiceStep, now: i64)
    requires
        s.response_iff_ready(),
    ensures
        VoiceSessionView::fresh(s.session_id, s.atem_id, s.channel, now).response_iff_ready(),
        s.step(step).response_iff_ready(),
{
}

/// Whatever steps a new session takes, it records no response while it is
/// accumulating or triggered.
pub proof fn lemma_no_response_before_ready(
    session_id: Seq<char>,
    atem_id: Seq<char>,
    channel: Seq<char>,
    now: i64,
    steps: Seq<VoiceStep>,
)
    ensures
        VoiceSessionView::fresh(session_id, atem_id, channel, now).after_steps(
            steps,
        ).response_iff_ready(),
    decreases steps.len(),
{
    let s = VoiceSessionView::fresh(session_id, atem_id, channel, now);
    if steps.len() > 0 {
        lemma_no_response_before_ready(session_id, atem_id, channel, now, steps.drop_last());
        lemma_response_iff_ready(s.after_steps(steps.drop_last()), steps.last(), now);
    }
}

/// After a response was set, the session stays ready and holds that
/// response through any number of transcriptions, triggers and counted
/// requests, until another response is set.
pub proof fn lemma_response_survives(
    s: VoiceSessionView,
    response: Seq<char>,
    now: i64,
    steps: Seq<VoiceStep>,
)
    requires
        forall|i: int| 0 <= i < steps.len() ==> !(#[trigger] steps[i] is Response),
    ensures
        s.with_response(response, now).after_steps(steps).response == Some(response),
        s.with_response(response, now).after_steps(steps).state == VoiceSessionState::ResponseReady,
    decreases steps.len(),
{
    if steps.len() > 0 {
        let rest = steps.drop_last();
        assert forall|i: int| 0 <= i < rest.len() implies !(#[trigger] rest[i] is Response) by {
            assert(rest[i] == steps[i]);
        }
        lemma_response_survives(s, response, now, rest);
        assert(!(steps[steps.len() - 1] is Response));
    }
}

fn copy_texts(items: &Vec<String>) -> (copy: Vec<String>)
    ensures
        texts(copy@) == texts(items@),
{
    let mut copy: Vec<String> = Vec::new();
    let n = items.len();
    let mut i: usize = 0;
    while i < n
        invariant
            n == items@.len(),
            i <= n,
            copy@.len() == i,
            forall|j: int| 0 <= j < i ==> copy@[j]@ == items@[j]@,
        decreases n - i,
    {
        copy.push(items[i].clone());
        i += 1;
    }
    assert(texts(copy@) =~= texts(items@));
    copy
}

impl VoiceSession {
    /// A new session created at `now`.
    pub fn new_at(session_id: String, atem_id: String, channel: String, now: i64) -> (session: Self)
        ensures
            session@ == VoiceSessionView::fresh(session_id@, atem_id@, channel@, now),
    {
        let session = VoiceSession {
            session_id,
            atem_id,
            channel,
            state: VoiceSessionState::Accumulating,
            buffer: Vec::new(),
            response: None,
            created_at: now,
            last_activity: now,
            request_count: 0,
        };
        assert(texts(session.buffer@) =~= Seq::empty());
        session
    }

    /// A new session created now.
    pub fn new(session_id: String, atem_id: String, channel: String) -> (session: Self)
        ensures
            session@ == VoiceSessionView::fresh(
                session_id@,
                atem_id@,
                channel@,
                session.created_at,
            ),
    {
        VoiceSession::new_at(session_id, atem_id, channel, now_millis())
    }

    /// A copy of the session.
    pub fn duplicate(&self) -> (copy: Self)
        ensures
            copy@ == self@,
    {
        VoiceSession {
            session_id: self.session_id.clone(),
            atem_id: self.atem_id.clone(),
            channel: self.channel.clone(),
            state: self.state,
            buffer: copy_texts(&self.buffer),
            response: clone_opt(&self.response),
            created_at: self.created_at,
            last_activity: self.last_activity,
            request_count: self.request_count,
        }
    }

    /// Adds a transcription to the buffer at `now`.
    pub fn add_transcription_at(&mut self, text: String, now: i64)
        ensures
            final(self)@ == old(self)@.with_transcription(text@, now),
    {
        let ghost before = texts(self.buffer@);
        self.buffer.push(text);
        self.last_activity = now;
        assert(texts(self.buffer@) =~= before.push(text@));
    }

    /// Adds a transcription to the buffer, now.
    pub fn add_transcription(&mut self, text: String)
        ensures
            final(self)@ == old(self)@.with_transcription(text@, final(self).last_activity),
    {
        self.add_transcription_at(text, now_millis());
    }

    /// The buffered transcriptions with a single space between neighbours.
    pub fn get_accumulated_text(&self) -> (text: String)
        ensures
            text@ == self@.accumulated_text(),
    {
        join_with_space(&self.buffer)
    }

    /// Marks the session as triggered at `now`, unless it is ready already:
    /// a ready session stays ready and keeps its response.
    pub fn trigger_at(&mut self, now: i64)
        ensures
            final(self)@ == old(self)@.triggered(now),
    {
        if self.state != VoiceSessionState::ResponseReady {
            self.state = VoiceSessionState::Triggered;
        }
        self.last_activity = now;
    }

    /// Marks the session as triggered, now, unless it is ready already.
    pub fn trigger(&mut self)
        ensures
            final(self)@ == old(self)@.triggered(final(self).last_activity),
    {
        self.trigger_at(now_millis());
    }

    /// Records the response at `now` and marks the session as ready.
    pub fn set_response_at(&mut self, response: String, now: i64)
        ensures
            final(self)@ == old(self)@.with_response(response@, now),
    {
        self.response = Some(response);
        self.state = VoiceSessionState::ResponseReady;
        self.last_activity = now;
    }

    /// Records the response, now, and marks the session as ready.
    pub fn set_response(&mut self, response: String)
        ensures
            final(self)@ == old(self)@.with_response(response@, final(self).last_activity),
    {
        self.set_response_at(response, now_millis());
    }

    /// Whether the session has been idle for more than a minute at `now`.
    pub fn is_expired_at(&self, now: i64) -> (expired: bool)
        ensures
            expired == self@.is_expired(now),
    {
        elapsed_more_than(now, self.last_activity, VOICE_SESSION_IDLE_MILLIS)
    }

    /// Whether the session has been idle for more than a minute by now.
    pub fn is_expired(&self) -> (expired: bool)
        ensures
            exists|now: i64| expired == #[trigger] self@.is_expired(now),
    {
        self.is_expired_at(now_millis())
    }

    /// Counts one more request.
    pub fn increment_requests(&mut self)
        ensures
            final(self)@ == old(self)@.counted(),
    {
        self.request_count = if self.request_count == u32::MAX {
            0
        } else {
            self.request_count + 1
        };
    }
}

/// The views of the stored sessions.
pub open spec fn voice_views(sessions: Map<Seq<char>, VoiceSession>) -> Map<
    Seq<char>,
    VoiceSessionView,
> {
    Map::new(|id: Seq<char>| sessions.dom().contains(id), |id: Seq<char>| sessions[id]@)
}

/// The views of a sequence of sessions.
pub open spec fn session_seq_views(sessions: Seq<VoiceSession>) -> Seq<VoiceSessionView> {
    Seq::new(sessions.len(), |i: int| sessions[i]@)
}

/// The sessions that a sweep at `now` leaves: those that were active within
/// the last minute.
pub open spec fn active(sessions: Map<Seq<char>, VoiceSessionView>, now: i64) -> Map<
    Seq<char>,
    VoiceSessionView,
> {
    sessions.restrict(
        Set::new(|id: Seq<char>| sessions.dom().contains(id) && !sessions[id].is_expired(now)),
    )
}

/// Those of `sessions` that belong to the controller `atem_id`, in order.
pub open spec fn of_controller(sessions: Seq<VoiceSessionView>, atem_id: Seq<char>) -> Seq<
    VoiceSessionView,
>
    decreases sessions.len(),
{
    if sessions.len() == 0 {
        Seq::empty()
    } else if sessions.last().atem_id == atem_id {
        of_controller(sessions.drop_last(), atem_id).push(sessions.last())
    } else {
        of_controller(sessions.drop_last(), atem_id)
    }
}

/// The waiters of `id`, in the order in which they registered; none where
/// the table has no entry.
pub open spec fn waiters_of(table: Map<Seq<char>, Vec<u64>>, id: Seq<char>) -> Seq<u64> {
    if table.dom().contains(id) {
        table[id]@
    } else {
        Seq::empty()
    }
}

/// The voice sessions, each under its identifier, and those who wait for a
/// session's response.
pub struct VoiceSessionStore {
    sessions: StrMap<VoiceSession>,
    waiters: StrMap<Vec<u64>>,
    next_waiter: u64,
}

impl VoiceSessionStore {
    /// The stored sessions, by identifier.
    pub closed spec fn view(&self) -> Map<Seq<char>, VoiceSessionView> {
        voice_views(self.sessions@)
    }

    /// The stored sessions in the order in which their identifiers were
    /// first stored.
    pub closed spec fn in_order(&self) -> Seq<VoiceSessionView> {
        session_seq_views(self.sessions.values())
    }

    /// The identifiers in the order in which they were first stored.
    pub closed spec fn ids(&self) -> Seq<Seq<char>> {
        self.sessions.keys()
    }

    /// The waiters registered for the session `id`, in order of
    /// registration.
    pub closed spec fn waiting(&self, id: Seq<char>) -> Seq<u64> {
        waiters_of(self.waiters@, id)
    }

    /// The number that the next waiter gets.
    pub closed spec fn next_waiter_id(&self) -> u64 {
        self.next_waiter
    }

    /// An empty store: no session, no waiter, and the first waiter gets the
    /// number 0.
    pub fn new() -> (store: Self)
        ensures
            store@ == Map::<Seq<char>, VoiceSessionView>::empty(),
            store.ids() == Seq::<Seq<char>>::empty(),
            store.in_order() == Seq::<VoiceSessionView>::empty(),
            forall|id: Seq<char>| #[trigger] store.waiting(id) == Seq::<u64>::empty(),
            store.next_waiter_id() == 0,
    {
        let store = VoiceSessionStore {
            sessions: StrMap::new(),
            waiters: StrMap::new(),
            next_waiter: 0,
        };
        assert(store@ =~= Map::<Seq<char>, VoiceSessionView>::empty());
        assert(store.in_order() =~= Seq::<VoiceSessionView>::empty());
        store
    }

    /// Stores a new session under `session_id`, created at `now`, and returns
    /// a copy of it.
    pub fn create_at(
        &mut self,
        session_id: String,
        atem_id: String,
        channel: String,
        now: i64,
    ) -> (session:
        VoiceSession)
        ensures
            session@ == VoiceSessionView::fresh(session_id@, atem_id@, channel@, now),
            final(self)@ == old(self)@.insert(session_id@, session@),
            forall|id: Seq<char>| #[trigger] final(self).waiting(id) == old(self).waiting(id),
            final(self).next_waiter_id() == old(self).next_waiter_id(),
    {
        let session = VoiceSession::new_at(session_id.clone(), atem_id, channel, now);
        let copy = session.duplicate();
        self.sessions.insert(session_id, session);
        assert(self@ =~= old(self)@.insert(session_id@, copy@));
        copy
    }

    /// Stores a new session under `session_id`, created now, and returns a
    /// copy of it.
    pub fn create(&mut self, session_id: String, atem_id: String, channel: String) -> (session:
        VoiceSession)
        ensures
            final(self).next_waiter_id() == old(self).next_waiter_id(),
            session@ == VoiceSessionView::fresh(
                session_id@,
                atem_id@,
                channel@,
                session.created_at,
            ),
            final(self)@ == old(self)@.insert(session_id@, session@),
            forall|id: Seq<char>| #[trigger] final(self).waiting(id) == old(self).waiting(id),
    {
        self.create_at(session_id, atem_id, channel, now_millis())
    }

    /// A copy of the session stored under `session_id`.
    pub fn get(&self, session_id: &str) -> (found: Option<VoiceSession>)
        ensures
            match found {
                Some(session) => self@.dom().contains(session_id@)
                    && session@ == self@[session_id@],
                None => !self@.dom().contains(session_id@),
            },
    {
        match self.sessions.get(session_id) {
            Some(session) => Some(session.duplicate()),
            None => None,
        }
    }

    /// Adds a transcription to the session's buffer at `now`. An unknown
    /// session changes nothing.
    pub fn add_transcription_at(&mut self, session_id: &str, text: String, now: i64) -> (done:
        Option<()>)
        ensures
            done is Some <==> old(self)@.dom().contains(session_id@),
            final(self)@ == (if old(self)@.dom().contains(session_id@) {
                old(self)@.insert(
                    session_id@,
                    old(self)@[session_id@].with_transcription(text@, now),
                )
            } else {
                old(self)@
            }),
            forall|id: Seq<char>| #[trigger] final(self).waiting(id) == old(self).waiting(id),
            final(self).next_waiter_id() == old(self).next_waiter_id(),
    {
        match self.sessions.find(session_id) {
            Some(index) => {
                let (key, mut session) = self.sessions.remove_at(index);
                session.add_transcription_at(text, now);
                self.sessions.insert(key, session);
                assert(self@ =~= old(self)@.insert(
                    session_id@,
                    old(self)@[session_id@].with_transcription(text@, now),
                ));
                Some(())
            },
            None => None,
        }
    }

    /// Adds a transcription to the session's buffer, now. An unknown session
    /// changes nothing.
    pub fn add_transcription(&mut self, session_id: &str, text: String) -> (done: Option<()>)
        ensures
            final(self).next_waiter_id() == old(self).next_waiter_id(),
            done is Some <==> old(self)@.dom().contains(session_id@),
            done is Some ==> final(self)@ == old(self)@.insert(
                session_id@,
                old(self)@[session_id@].with_transcription(
                    text@,
                    final(self)@[session_id@].last_activity,
                ),
            ),
            done is None ==> final(self)@ == old(self)@,
            forall|id: Seq<char>| #[trigger] final(self).waiting(id) == old(self).waiting(id),
    {
        self.add_transcription_at(session_id, text, now_millis())
    }

    /// Triggers the session at `now` and returns the accumulated text. The
    /// buffer is not cleared, and a session that is ready stays ready. An
    /// unknown session changes nothing.
    pub fn trigger_at(&mut self, session_id: &str, now: i64) -> (text: Option<String>)
        ensures
            match text {
                Some(t) => old(self)@.dom().contains(session_id@)
                    && t@ == old(self)@[session_id@].accumulated_text(),
                None => !old(self)@.dom().contains(session_id@),
            },
            final(self)@ == (if old(self)@.dom().contains(session_id@) {
                old(self)@.insert(session_id@, old(self)@[session_id@].triggered(now))
            } else {
                old(self)@
            }),
            forall|id: Seq<char>| #[trigger] final(self).waiting(id) == old(self).waiting(id),
            final(self).next_waiter_id() == old(self).next_waiter_id(),
    {
        match self.sessions.find(session_id) {
            Some(index) => {
                let (key, mut session) = self.sessions.remove_at(index);
                session.trigger_at(now);
                let text = session.get_accumulated_text();
                self.sessions.insert(key, session);
                assert(self@ =~= old(self)@.insert(
                    session_id@,
                    old(self)@[session_id@].triggered(now),
                ));
                Some(text)
            },
            None => None,
        }
    }

    /// Triggers the session, now, and returns the accumulated text.
    pub fn trigger(&mut self, session_id: &str) -> (text: Option<String>)
        ensures
            final(self).next_waiter_id() == old(self).next_waiter_id(),
            match text {
                Some(t) => {
                    &&& old(self)@.dom().contains(session_id@)
                    &&& t@ == old(self)@[session_id@].accumulated_text()
                    &&& final(self)@ == old(self)@.insert(
                        session_id@,
                        old(self)@[session_id@].triggered(final(self)@[session_id@].last_activity),
                    )
                },
                None => !old(self)@.dom().contains(session_id@) && final(self)@ == old(self)@,
            },
            forall|id: Seq<char>| #[trigger] final(self).waiting(id) == old(self).waiting(id),
    {
        self.trigger_at(session_id, now_millis())
    }

    /// Sets the response of the session at `now`, from whatever state, and
    /// hands back the waiters that are to be woken with it: all that were
    /// registered for the session, in order. Their entry leaves the table in
    /// the same step. For an unknown session nothing changes and nobody is
    /// woken.
    pub fn set_response_at(&mut self, session_id: &str, response: String, now: i64) -> (woken:
        Option<Vec<u64>>)
        ensures
            match woken {
                Some(ids) => {
                    &&& old(self)@.dom().contains(session_id@)
                    &&& ids@ == old(self).waiting(session_id@)
                    &&& final(self)@ == old(self)@.insert(
                        session_id@,
                        old(self)@[session_id@].with_response(response@, now),
                    )
                    &&& final(self).waiting(session_id@) == Seq::<u64>::empty()
                    &&& forall|id: Seq<char>|
                        id != session_id@
                            ==> #[trigger] final(self).waiting(id) == old(self).waiting(id)
                },
                None => {
                    &&& !old(self)@.dom().contains(session_id@)
                    &&& final(self)@ == old(self)@
                    &&& forall|id: Seq<char>| #[trigger]
                        final(self).waiting(id) == old(self).waiting(id)
                },
            },
            final(self).next_waiter_id() == old(self).next_waiter_id(),
    {
        let index = match self.sessions.find(session_id) {
            Some(index) => index,
            None => {
                return None;
            },
        };
        let (key, mut session) = self.sessions.remove_at(index);
        session.set_response_at(response, now);
        self.sessions.insert(key, session);
        assert(self@ =~= old(self)@.insert(
            session_id@,
            old(self)@[session_id@].with_response(response@, now),
        ));
        match self.waiters.remove(session_id) {
            Some(ids) => Some(ids),
            None => Some(Vec::new()),
        }
    }

    /// Sets the response of the session, now. What `set_response_at` says
    /// holds for the instant at which the call reads the clock.
    pub fn set_response(&mut self, session_id: &str, response: String) -> (woken: Option<
        Vec<u64>,
    >)
        ensures
            final(self).next_waiter_id() == old(self).next_waiter_id(),
            match woken {
                Some(ids) => {
                    &&& old(self)@.dom().contains(session_id@)
                    &&& ids@ == old(self).waiting(session_id@)
                    &&& final(self)@ == old(self)@.insert(
                        session_id@,
                        old(self)@[session_id@].with_response(
                            response@,
                            final(self)@[session_id@].last_activity,
                        ),
                    )
                    &&& final(self).waiting(session_id@) == Seq::<u64>::empty()
                    &&& forall|id: Seq<char>|
                        id != session_id@
                            ==> #[trigger] final(self).waiting(id) == old(self).waiting(id)
                },
                None => {
                    &&& !old(self)@.dom().contains(session_id@)
                    &&& final(self)@ == old(self)@
                    &&& forall|id: Seq<char>| #[trigger]
                        final(self).waiting(id) == old(self).waiting(id)
                },
            },
    {
        self.set_response_at(session_id, response, now_millis())
    }

    /// Registers a waiter for the session's response and returns its number.
    /// The waiter goes to the end of the session's list; whether the session
    /// exists is not asked.
    pub fn register_waiter(&mut self, session_id: String) -> (waiter: u64)
        ensures
            waiter == old(self).next_waiter_id(),
            final(self).next_waiter_id() == (if waiter == u64::MAX {
                0
            } else {
                (waiter + 1) as u64
            }),
            final(self).waiting(session_id@) == old(self).waiting(session_id@).push(waiter),
            forall|id: Seq<char>|
                id != session_id@ ==> #[trigger] final(self).waiting(id) == old(self).waiting(id),
            final(self)@ == old(self)@,
    {
        let waiter = self.next_waiter;
        self.next_waiter = if waiter == u64::MAX {
            0
        } else {
            waiter + 1
        };
        let mut list = match self.waiters.remove(session_id.as_str()) {
            Some(list) => list,
            None => Vec::new(),
        };
        list.push(waiter);
        self.waiters.insert(session_id, list);
        waiter
    }

    /// Counts one more request for the session and returns the new count.
    pub fn increment_requests(&mut self, session_id: &str) -> (count: Option<u32>)
        ensures
            match count {
                Some(n) => old(self)@.dom().contains(session_id@)
                    && n == old(self)@[session_id@].counted().request_count,
                None => !old(self)@.dom().contains(session_id@),
            },
            final(self)@ == (if old(self)@.dom().contains(session_id@) {
                old(self)@.insert(session_id@, old(self)@[session_id@].counted())
            } else {
                old(self)@
            }),
            forall|id: Seq<char>| #[trigger] final(self).waiting(id) == old(self).waiting(id),
            final(self).next_waiter_id() == old(self).next_waiter_id(),
    {
        match self.sessions.find(session_id) {
            Some(index) => {
                let (key, mut session) = self.sessions.remove_at(index);
                session.increment_requests();
                let count = session.request_count;
                self.sessions.insert(key, session);
                assert(self@ =~= old(self)@.insert(session_id@, old(self)@[session_id@].counted()));
                Some(count)
            },
            None => None,
        }
    }

    /// The state of the session stored under `session_id`.
    pub fn get_state(&self, session_id: &str) -> (state: Option<VoiceSessionState>)
        ensures
            state == (if self@.dom().contains(session_id@) {
                Some(self@[session_id@].state)
            } else {
                None
            }),
    {
        match self.sessions.get(session_id) {
            Some(session) => Some(session.state),
            None => None,
        }
    }

    /// Removes the session stored under `session_id`, if there is one. The
    /// table of waiters is not touched.
    pub fn delete(&mut self, session_id: &str)
        ensures
            final(self)@ == old(self)@.remove(session_id@),
            forall|id: Seq<char>| #[trigger] final(self).waiting(id) == old(self).waiting(id),
            final(self).next_waiter_id() == old(self).next_waiter_id(),
    {
        self.sessions.remove(session_id);
        assert(self@ =~= old(self)@.remove(session_id@));
    }

    /// Removes the sessions that have been idle for more than a minute at
    /// `now`.
    pub fn cleanup_expired_at(&mut self, now: i64)
        ensures
            final(self).next_waiter_id() == old(self).next_waiter_id(),
            final(self)@ == active(old(self)@, now),
            forall|id: Seq<char>| #[trigger] final(self).waiting(id) == old(self).waiting(id),
    {
        let n = self.sessions.len();
        let mut keep: Vec<bool> = Vec::new();
        let mut i: usize = 0;
        while i < n
            invariant
                n == self.sessions.keys().len(),
                n == self.sessions.values().len(),
                i <= n,
                keep@.len() == i,
                forall|j: int|
                    0 <= j < i ==> keep@[j] == !self.sessions.values()[j]@.is_expired(now),
            decreases n - i,
        {
            let expired = self.sessions.value_at(i).is_expired_at(now);
            keep.push(!expired);
            i += 1;
        }
        let ghost keys0 = self.sessions.keys();
        let ghost before = self@;
        self.sessions.retain_flags(&keep);
        proof {
            assert forall|id: Seq<char>| #[trigger]
                self@.dom().contains(id) == active(before, now).dom().contains(id) by {
                lemma_position_of(keys0, id);
            }
            assert(self@ =~= active(before, now));
        }
    }

    /// Removes the sessions that have been idle for more than a minute by
    /// now. No session is added or changed.
    pub fn cleanup_expired(&mut self)
        ensures
            final(self).next_waiter_id() == old(self).next_waiter_id(),
            exists|now: i64| final(self)@ == #[trigger] active(old(self)@, now),
            forall|id: Seq<char>| #[trigger]
                final(self)@.dom().contains(id)
                    ==> old(self)@.dom().contains(id) && final(self)@[id]
                    == old(self)@[id],
            forall|id: Seq<char>| #[trigger] final(self).waiting(id) == old(self).waiting(id),
    {
        self.cleanup_expired_at(now_millis());
    }

    /// Copies of the sessions of the controller `atem_id`, in the order in
    /// which the store holds them.
    pub fn get_by_atem(&self, atem_id: &str) -> (found: Vec<VoiceSession>)
        ensures
            session_seq_views(found@) == of_controller(self.in_order(), atem_id@),
    {
        let mut found: Vec<VoiceSession> = Vec::new();
        let n = self.sessions.len();
        let mut i: usize = 0;
        while i < n
            invariant
                n == self.sessions.values().len(),
                i <= n,
                session_seq_views(found@) == of_controller(
                    self.in_order().take(i as int),
                    atem_id@,
                ),
            decreases n - i,
        {
            let session = self.sessions.value_at(i);
            let ghost before = session_seq_views(found@);
            assert(self.in_order().take(i + 1).drop_last() =~= self.in_order().take(i as int));
            assert(self.in_order().take(i + 1).last() == session@);
            if crate::text::str_eq(session.atem_id.as_str(), atem_id) {
                let copy = session.duplicate();
                found.push(copy);
                assert(session_seq_views(found@) =~= before.push(session@));
            }
            i += 1;
        }
        assert(self.in_order().take(n as int) =~= self.in_order());
        found
    }

    /// The identifiers of all stored sessions, in the order in which they
    /// were first stored.
    pub fn list_session_ids(&self) -> (ids: Vec<String>)
        ensures
            texts(ids@) == self.ids(),
            forall|id: Seq<char>| self@.dom().contains(id) <==> self.ids().contains(id),
    {
        let mut ids: Vec<String> = Vec::new();
        let n = self.sessions.len();
        let mut i: usize = 0;
        while i < n
            invariant
                n == self.sessions.keys().len(),
                i <= n,
                ids@.len() == i,
                forall|j: int| 0 <= j < i ==> ids@[j]@ == self.sessions.keys()[j],
            decreases n - i,
        {
            ids.push(self.sessions.key_at(i).clone());
            i += 1;
        }
        proof {
            assert(texts(ids@) =~= self.ids());
            assert forall|id: Seq<char>| self@.dom().contains(id) <==> self.ids().contains(id) by {
                lemma_position_of(self.sessions.keys(), id);
            }
        }
        ids
    }
}

impl Default for VoiceSessionStore {
    fn default() -> (store: Self)
        ensures
            store@ == Map::<Seq<char>, VoiceSessionView>::empty(),
    {
        VoiceSessionStore::new()
    }
}

/// What creates a voice session.
#[derive(Debug)]
pub struct CreateVoiceSessionRequest {
    pub atem_id: String,
    pub channel: String,
}

/// What the creation of a voice session answers.
#[derive(Debug)]
pub struct CreateVoiceSessionResponse {
    pub session_id: String,
    pub atem_id: String,
    pub channel: String,
    /// Milliseconds since the epoch.
    pub created_at: i64,
}

/// The body of a trigger request, which is empty.
#[derive(Debug)]
pub struct TriggerRequest {
}

/// What a trigger answers.
#[derive(Debug)]
pub struct TriggerResponse {
    pub session_id: String,
    pub accumulated_text: String,
    pub atem_id: String,
}

/// The response that a controller delivers for a session.
#[derive(Debug)]
pub struct AtemResponseRequest {
    pub session_id: String,
    pub response: String,
}

/// What the delivery of a response answers.
#[derive(Debug)]
pub struct AtemResponseResponse {
    pub success: bool,
    pub message: String,
}

} // verus!
