//! The pair-room relay: rooms in which a host and a client meet, the sinks
//! of their connections, and the decisions on each event of a connection.

use vstd::prelude::*;
use crate::clock::{millis_between, monotonic_now};
use crate::error::{status_of, ErrorKind};
use crate::ident::random_in_range;
use crate::routes::ErrorResponse;
use crate::str_map::{lemma_position_of, StrMap};
use crate::text::{str_eq, string_from_chars};
use crate::web::pair_page::{pair_page_text, render_pair_page};

verus! {

/// How old a room without a client may get before a sweep removes it, in
/// milliseconds: ten minutes.
pub const ROOM_EXPIRY_MILLIS: u64 = 600_000;

/// How often a new pairing code is drawn before a creation gives up.
pub const MAX_CODE_ATTEMPTS: usize = 16;

/// The symbols of a pairing code: capital letters and digits without `0`,
/// `O`, `1`, `I` and `L`.
pub const CODE_CHARS: &'static str = "ABCDEFGHJKMNPQRSTUVWXYZ23456789";

/// The symbols of a pairing code as a sequence.
pub open spec fn code_alphabet() -> Seq<char> {
    CODE_CHARS@
}

/// The shape of a pairing code: four symbols, a hyphen, four symbols.
pub open spec fn is_pairing_code(s: Seq<char>) -> bool {
    &&& s.len() == 9
    &&& s[4] == '-'
    &&& forall|i: int| 0 <= i < 9 && i != 4 ==> code_alphabet().contains(#[trigger] s[i])
}

/// The pairing code made of the symbols with the given indices.
pub open spec fn code_text(indices: Seq<u32>) -> Seq<char> {
    Seq::new(
        9,
        |i: int|
            if i < 4 {
                code_alphabet()[indices[i] as int]
            } else if i == 4 {
                '-'
            } else {
                code_alphabet()[indices[i - 1] as int]
            },
    )
}

/// The alphabet has 31 symbols, and none of them is `0`, `O`, `1`, `I` or
/// `L`.
pub proof fn lemma_code_alphabet()
    ensures
        code_alphabet().len() == 31,
        forall|i: int|
            0 <= i < 31 ==> {
                let c = #[trigger] code_alphabet()[i];
                c != '0' && c != 'O' && c != '1' && c != 'I' && c != 'L' && c != '-'
            },
{
    reveal_strlit("ABCDEFGHJKMNPQRSTUVWXYZ23456789");
}

/// No symbol of a pairing code is `0`, `O`, `1`, `I` or `L`.
pub proof fn lemma_pairing_code_unambiguous(s: Seq<char>)
    requires
        is_pairing_code(s),
    ensures
        s.len() == 9,
        s[4] == '-',
        forall|i: int|
            0 <= i < 9 && i != 4 ==> {
                let c = #[trigger] s[i];
                c != '0' && c != 'O' && c != '1' && c != 'I' && c != 'L'
            },
{
    lemma_code_alphabet();
    assert forall|i: int| 0 <= i < 9 && i != 4 implies {
        let c = #[trigger] s[i];
        c != '0' && c != 'O' && c != '1' && c != 'I' && c != 'L'
    } by {
        assert(code_alphabet().contains(s[i]));
        let k = choose|k: int| 0 <= k < code_alphabet().len() && code_alphabet()[k] == s[i];
        assert(code_alphabet()[k] == s[i]);
    }
}

/// The pairing code made of the symbols with the given eight indices.
pub fn pairing_code_from(indices: &Vec<u32>) -> (code: String)
    requires
        indices@.len() == 8,
        forall|i: int| 0 <= i < 8 ==> indices@[i] < 31,
    ensures
        code@ == code_text(indices@),
        is_pairing_code(code@),
{
    proof {
        lemma_code_alphabet();
    }
    let mut chars: Vec<char> = Vec::new();
    let mut i: usize = 0;
    while i < 9
        invariant
            i <= 9,
            indices@.len() == 8,
            forall|j: int| 0 <= j < 8 ==> indices@[j] < 31,
            code_alphabet().len() == 31,
            chars@.len() == i,
            forall|j: int| 0 <= j < i ==> chars@[j] == code_text(indices@)[j],
        decreases 9 - i,
    {
        let c = if i < 4 {
            CODE_CHARS.get_char(indices[i] as usize)
        } else if i == 4 {
            '-'
        } else {
            CODE_CHARS.get_char(indices[i - 1] as usize)
        };
        chars.push(c);
        i += 1;
    }
    assert(chars@ =~= code_text(indices@));
    proof {
        let s = code_text(indices@);
        assert forall|j: int| 0 <= j < 9 && j != 4 implies code_alphabet().contains(
            #[trigger] s[j],
        ) by {
            let k = if j < 4 {
                indices@[j] as int
            } else {
                indices@[j - 1] as int
            };
            assert(code_alphabet()[k] == s[j]);
        }
    }
    string_from_chars(&chars)
}

/// A fresh pairing code: eight random symbols of the alphabet with a hyphen
/// in the middle.
pub fn generate_pairing_code() -> (code: String)
    ensures
        is_pairing_code(code@),
{
    let mut indices: Vec<u32> = Vec::new();
    let mut i: usize = 0;
    while i < 8
        invariant
            i <= 8,
            indices@.len() == i,
            forall|j: int| 0 <= j < i ==> indices@[j] < 31,
        decreases 8 - i,
    {
        indices.push(random_in_range(0, 31));
        i += 1;
    }
    pairing_code_from(&indices)
}

/// The side of a pairing that a connection stands for.
#[derive(Debug, Clone, Copy, PartialEq, Eq, Structural)]
pub enum Role {
    Host,
    Client,
}

/// The role that a text names, if it names one.
pub open spec fn role_of(text: Seq<char>) -> Option<Role> {
    if text == "host"@ {
        Some(Role::Host)
    } else if text == "client"@ {
        Some(Role::Client)
    } else {
        None
    }
}

impl Role {
    /// The role that `text` names: `host` or `client`.
    pub fn parse(text: &str) -> (role: Option<Role>)
        ensures
            role == role_of(text@),
    {
        if str_eq(text, "host") {
            Some(Role::Host)
        } else if str_eq(text, "client") {
            Some(Role::Client)
        } else {
            None
        }
    }
}

/// A room in which a host and a client meet. A sink is the number of the
/// connection whose writer takes the frames for that side.
#[derive(Debug, Clone)]
pub struct PairRoom {
    pub code: String,
    pub hostname: String,
    pub host_channel: Option<u64>,
    pub client_channel: Option<u64>,
    /// Milliseconds on a monotonic clock.
    pub created_at: u64,
}

impl PairRoom {
    /// The sink of the given side.
    pub open spec fn sink(&self, role: Role) -> Option<u64> {
        match role {
            Role::Host => self.host_channel,
            Role::Client => self.client_channel,
        }
    }

    /// The sink of the other side.
    pub open spec fn peer_sink(&self, role: Role) -> Option<u64> {
        match role {
            Role::Host => self.client_channel,
            Role::Client => self.host_channel,
        }
    }

    /// The room with the sink of the given side set to `sink`.
    pub open spec fn with_sink(&self, role: Role, sink: Option<u64>) -> PairRoom {
        match role {
            Role::Host => PairRoom { host_channel: sink, ..*self },
            Role::Client => PairRoom { client_channel: sink, ..*self },
        }
    }

    /// Whether a client is connected.
    pub open spec fn is_paired(&self) -> bool {
        self.client_channel is Some
    }

    /// Whether neither side is connected.
    pub open spec fn is_deserted(&self) -> bool {
        self.host_channel is None && self.client_channel is None
    }

    /// Whether a sweep at `now` removes the room: it is older than ten
    /// minutes and no client is connected.
    pub open spec fn is_stale(&self, now: u64) -> bool {
        now - self.created_at > ROOM_EXPIRY_MILLIS && self.client_channel is None
    }

    /// Whether a sweep at `now` removes the room.
    pub fn stale_at(&self, now: u64) -> (stale: bool)
        ensures
            stale == self.is_stale(now),
    {
        now > self.created_at && now - self.created_at > ROOM_EXPIRY_MILLIS
            && self.client_channel.is_none()
    }
}

/// A frame read from a connection, or the failure to read one.
#[derive(Debug)]
pub enum Frame {
    Text(String),
    Binary,
    Ping,
    Pong,
    Close,
    /// The socket reported an error.
    Failed,
}

/// What happens on a connection.
#[derive(Debug)]
pub enum WsEvent {
    /// The socket was upgraded and awaits its sink.
    Connected,
    /// The reader got a frame.
    Received(Frame),
    /// The reader has ended.
    Disconnected,
}

/// What the one who runs the connection is to do next.
#[derive(Debug)]
pub enum WsAction {
    /// Create the sink with this number and start the writer and the reader;
    /// drop the sink that it replaces, if any.
    Register { sink: u64, replaced: Option<u64> },
    /// Give the connection up: the room is gone or the role is unknown.
    Abort,
    /// Enqueue the text on the peer's sink.
    Forward { to: u64, text: String },
    /// Drop the text: no peer is connected.
    Discard,
    /// Read on.
    Ignore,
    /// End the reader.
    Finish,
    /// Abort the writer and drop the sink `cleared`, if any; `room_removed`
    /// says whether the room went with the connection.
    Cleaned { room_removed: bool, cleared: Option<u64> },
}

/// The number after `n`; it wraps at the end of the range.
pub open spec fn next_number(n: u64) -> u64 {
    if n == u64::MAX {
        0
    } else {
        (n + 1) as u64
    }
}

/// The rooms after a connection for `role` opened on the room `code` and got
/// the sink `sink`.
pub open spec fn rooms_after_open(
    rooms: Map<Seq<char>, PairRoom>,
    code: Seq<char>,
    role: Seq<char>,
    sink: u64,
) -> Map<Seq<char>, PairRoom> {
    if rooms.dom().contains(code) && role_of(role) is Some {
        rooms.insert(code, rooms[code].with_sink(role_of(role)->0, Some(sink)))
    } else {
        rooms
    }
}

/// What a newly upgraded connection is told.
pub open spec fn action_on_open(
    rooms: Map<Seq<char>, PairRoom>,
    code: Seq<char>,
    role: Seq<char>,
    sink: u64,
) -> WsAction {
    if rooms.dom().contains(code) && role_of(role) is Some {
        WsAction::Register { sink, replaced: rooms[code].sink(role_of(role)->0) }
    } else {
        WsAction::Abort
    }
}

/// The sink of the peer of `role` in the room `code`, where there is one.
pub open spec fn peer_of(
    rooms: Map<Seq<char>, PairRoom>,
    code: Seq<char>,
    role: Seq<char>,
) -> Option<
    u64,
> {
    if rooms.dom().contains(code) && role_of(role) is Some {
        rooms[code].peer_sink(role_of(role)->0)
    } else {
        None
    }
}

/// What the reader does with a frame: a text goes to the peer that is
/// connected at this moment or is dropped, a close frame or an error ends
/// the reader, and every other frame is passed over.
pub open spec fn action_on_frame(
    rooms: Map<Seq<char>, PairRoom>,
    code: Seq<char>,
    role: Seq<char>,
    frame: Frame,
) -> WsAction {
    match frame {
        Frame::Text(text) => match peer_of(rooms, code, role) {
            Some(to) => WsAction::Forward { to, text },
            None => WsAction::Discard,
        },
        Frame::Close => WsAction::Finish,
        Frame::Failed => WsAction::Finish,
        _ => WsAction::Ignore,
    }
}

/// The room `code` as the connection for `role` leaves it: without that
/// side's sink.
pub open spec fn room_left(room: PairRoom, role: Seq<char>) -> PairRoom {
    match role_of(role) {
        Some(r) => room.with_sink(r, None),
        None => room,
    }
}

/// The sink that is cleared when the connection for `role` on the room
/// `code` ends: the one that the side has at that moment.
pub open spec fn sink_cleared(
    rooms: Map<Seq<char>, PairRoom>,
    code: Seq<char>,
    role: Seq<char>,
) -> Option<
    u64,
> {
    if rooms.dom().contains(code) && role_of(role) is Some {
        rooms[code].sink(role_of(role)->0)
    } else {
        None
    }
}

/// The rooms after the connection for `role` on the room `code` ended: the
/// side's sink is cleared, and a room without any sink is removed.
pub open spec fn rooms_after_close(
    rooms: Map<Seq<char>, PairRoom>,
    code: Seq<char>,
    role: Seq<char>,
) -> Map<Seq<char>, PairRoom> {
    if !rooms.dom().contains(code) {
        rooms
    } else if room_left(rooms[code], role).is_deserted() {
        rooms.remove(code)
    } else {
        rooms.insert(code, room_left(rooms[code], role))
    }
}

/// The rooms that a sweep at `now` leaves.
pub open spec fn rooms_after_sweep(rooms: Map<Seq<char>, PairRoom>, now: u64) -> Map<
    Seq<char>,
    PairRoom,
> {
    rooms.restrict(Set::new(|code: Seq<char>| rooms.dom().contains(code)
        && !rooms[code].is_stale(now)))
}

/// A sweep removes a room that is older than ten minutes and has no client
/// sink, and keeps a room of any age that has one, as it is.
pub proof fn lemma_sweep_rooms(rooms: Map<Seq<char>, PairRoom>, now: u64, code: Seq<char>)
    requires
        rooms.dom().contains(code),
    ensures
        now - rooms[code].created_at > ROOM_EXPIRY_MILLIS && rooms[code].client_channel is None
            ==> !rooms_after_sweep(rooms, now).dom().contains(code),
        rooms[code].client_channel is Some ==> rooms_after_sweep(rooms, now).dom().contains(code)
            && rooms_after_sweep(rooms, now)[code] == rooms[code],
        now - rooms[code].created_at <= ROOM_EXPIRY_MILLIS ==> rooms_after_sweep(
            rooms,
            now,
        ).dom().contains(code),
{
}

/// The rooms of the relay, each under its pairing code.
pub struct RelayHub {
    rooms: StrMap<PairRoom>,
    next_sink: u64,
    started: tokio::time::Instant,
}

impl RelayHub {
    /// The rooms, by pairing code.
    pub closed spec fn view(&self) -> Map<Seq<char>, PairRoom> {
        self.rooms@
    }

    /// The number that the next sink gets.
    pub closed spec fn next_sink_id(&self) -> u64 {
        self.next_sink
    }

    /// A relay without rooms, whose first sink gets the number 0.
    pub fn new() -> (hub: Self)
        ensures
            hub@ == Map::<Seq<char>, PairRoom>::empty(),
            hub.next_sink_id() == 0,
    {
        RelayHub { rooms: StrMap::new(), next_sink: 0, started: monotonic_now() }
    }

    /// The milliseconds that have passed on the monotonic clock since the
    /// relay was made: the time by which its rooms age.
    pub fn uptime_millis(&self) -> (now: u64) {
        let now = monotonic_now();
        millis_between(&now, &self.started)
    }

    /// Whether a room stands under `code`.
    pub fn has_room(&self, code: &str) -> (present: bool)
        ensures
            present == self@.dom().contains(code@),
    {
        self.rooms.contains_key(code)
    }

    /// The host name of the room under `code`.
    pub fn hostname_of(&self, code: &str) -> (hostname: Option<String>)
        ensures
            hostname == (if self@.dom().contains(code@) {
                Some(self@[code@].hostname)
            } else {
                None
            }),
    {
        match self.rooms.get(code) {
            Some(room) => Some(room.hostname.clone()),
            None => None,
        }
    }

    /// Whether the room under `code` has a client connected.
    pub fn is_paired(&self, code: &str) -> (paired: Option<bool>)
        ensures
            paired == (if self@.dom().contains(code@) {
                Some(self@[code@].is_paired())
            } else {
                None
            }),
    {
        match self.rooms.get(code) {
            Some(room) => Some(room.client_channel.is_some()),
            None => None,
        }
    }

    /// Opens a room without sinks under `code`, created at `now`, unless a
    /// room stands there already; says whether it did.
    pub fn open_room(&mut self, code: String, hostname: String, now: u64) -> (opened: bool)
        ensures
            opened == !old(self)@.dom().contains(code@),
            final(self)@ == (if opened {
                old(self)@.insert(
                    code@,
                    PairRoom {
                        code,
                        hostname,
                        host_channel: None,
                        client_channel: None,
                        created_at: now,
                    },
                )
            } else {
                old(self)@
            }),
            final(self).next_sink_id() == old(self).next_sink_id(),
    {
        if self.rooms.contains_key(code.as_str()) {
            return false;
        }
        let room = PairRoom {
            code: code.clone(),
            hostname,
            host_channel: None,
            client_channel: None,
            created_at: now,
        };
        self.rooms.insert(code, room);
        true
    }

    /// Opens a room for `hostname` at `now` under a fresh pairing code and
    /// returns the code. A code that is taken is drawn again; after sixteen
    /// taken codes in a row the creation gives up and nothing changes. So the
    /// creation succeeds wherever no room stands under a pairing code.
    pub fn create_pair_at(&mut self, hostname: &str, now: u64) -> (created: Option<String>)
        ensures
            match created {
                Some(code) => {
                    &&& is_pairing_code(code@)
                    &&& !old(self)@.dom().contains(code@)
                    &&& final(self)@.dom() == old(self)@.dom().insert(code@)
                    &&& final(self)@[code@].code@ == code@
                    &&& final(self)@[code@].hostname@ == hostname@
                    &&& final(self)@[code@].host_channel is None
                    &&& final(self)@[code@].client_channel is None
                    &&& final(self)@[code@].created_at == now
                    &&& forall|other: Seq<char>|
                        old(self)@.dom().contains(other)
                            ==> #[trigger] final(self)@[other] == old(self)@[other]
                },
                None => {
                    &&& final(self)@ == old(self)@
                    &&& exists|taken: Seq<char>|
                        is_pairing_code(taken) && #[trigger] old(self)@.dom().contains(taken)
                },
            },
            final(self).next_sink_id() == old(self).next_sink_id(),
    {
        let mut attempt: usize = 0;
        while attempt < MAX_CODE_ATTEMPTS
            invariant
                attempt <= MAX_CODE_ATTEMPTS,
                self@ == old(self)@,
                self.next_sink_id() == old(self).next_sink_id(),
                attempt > 0 ==> exists|taken: Seq<char>|
                    is_pairing_code(taken) && #[trigger] old(self)@.dom().contains(taken),
            decreases MAX_CODE_ATTEMPTS - attempt,
        {
            let code = generate_pairing_code();
            let copy = code.clone();
            let ghost drawn = code@;
            if self.open_room(code, hostname.to_owned(), now) {
                return Some(copy);
            }
            assert(is_pairing_code(drawn) && old(self)@.dom().contains(drawn));
            attempt += 1;
        }
        None
    }

    /// Opens a room for `hostname` now, under a fresh pairing code, and
    /// returns the code; after sixteen taken codes in a row the creation
    /// gives up and nothing changes. So the creation succeeds wherever no
    /// room stands under a pairing code.
    pub fn create_pair(&mut self, hostname: &str) -> (created: Option<String>)
        ensures
            match created {
                Some(code) => {
                    &&& is_pairing_code(code@)
                    &&& !old(self)@.dom().contains(code@)
                    &&& final(self)@.dom() == old(self)@.dom().insert(code@)
                    &&& final(self)@[code@].code@ == code@
                    &&& final(self)@[code@].hostname@ == hostname@
                    &&& final(self)@[code@].is_deserted()
                    &&& forall|other: Seq<char>|
                        old(self)@.dom().contains(other)
                            ==> #[trigger] final(self)@[other] == old(self)@[other]
                },
                None => {
                    &&& final(self)@ == old(self)@
                    &&& exists|taken: Seq<char>|
                        is_pairing_code(taken) && #[trigger] old(self)@.dom().contains(taken)
                },
            },
            final(self).next_sink_id() == old(self).next_sink_id(),
    {
        let now = self.uptime_millis();
        self.create_pair_at(hostname, now)
    }

    /// Removes the rooms that are older than ten minutes by now and have no
    /// client connected. A room with a client is never removed, and no room
    /// is added or changed.
    pub fn cleanup_expired(&mut self)
        ensures
            final(self).next_sink_id() == old(self).next_sink_id(),
            exists|now: u64| final(self)@ == #[trigger] rooms_after_sweep(old(self)@, now),
            forall|code: Seq<char>| #[trigger]
                final(self)@.dom().contains(code)
                    ==> old(self)@.dom().contains(code) && final(self)@[code] == old(self)@[code],
            forall|code: Seq<char>| #[trigger]
                old(self)@.dom().contains(code) && old(self)@[code].client_channel is Some
                    ==> final(self)@.dom().contains(code),
    {
        let now = self.uptime_millis();
        self.cleanup_expired_at(now);
    }

    /// Removes the rooms that are older than ten minutes at `now` and have no
    /// client connected. A room with a client is never removed for its age.
    pub fn cleanup_expired_at(&mut self, now: u64)
        ensures
            final(self)@ == rooms_after_sweep(old(self)@, now),
            final(self).next_sink_id() == old(self).next_sink_id(),
    {
        let n = self.rooms.len();
        let mut keep: Vec<bool> = Vec::new();
        let mut i: usize = 0;
        while i < n
            invariant
                n == self.rooms.keys().len(),
                n == self.rooms.values().len(),
                i <= n,
                keep@.len() == i,
                forall|j: int| 0 <= j < i ==> keep@[j] == !self.rooms.values()[j].is_stale(now),
            decreases n - i,
        {
            let stale = self.rooms.value_at(i).stale_at(now);
            keep.push(!stale);
            i += 1;
        }
        let ghost keys0 = self.rooms.keys();
        let ghost before = self.rooms@;
        self.rooms.retain_flags(&keep);
        proof {
            assert forall|code: Seq<char>| #[trigger]
                self.rooms@.dom().contains(code) == rooms_after_sweep(before, now).dom().contains(
                    code,
                ) by {
                lemma_position_of(keys0, code);
            }
            assert(self.rooms@ =~= rooms_after_sweep(before, now));
        }
    }

    /// Registers a new sink for the connection of `role` on the room `code`.
    /// A sink that the side still had is replaced. An unknown room or role
    /// aborts the connection and changes nothing.
    pub fn connect(&mut self, code: &str, role: &str) -> (action: WsAction)
        ensures
            action == action_on_open(old(self)@, code@, role@, old(self).next_sink_id()),
            final(self)@ == rooms_after_open(old(self)@, code@, role@, old(self).next_sink_id()),
            final(self).next_sink_id() == (if action is Register {
                next_number(old(self).next_sink_id())
            } else {
                old(self).next_sink_id()
            }),
    {
        let index = match self.rooms.find(code) {
            Some(index) => index,
            None => {
                return WsAction::Abort;
            },
        };
        let side = match Role::parse(role) {
            Some(side) => side,
            None => {
                return WsAction::Abort;
            },
        };
        let sink = self.next_sink;
        let next = if sink == u64::MAX {
            0
        } else {
            sink + 1
        };
        let (key, mut room) = self.rooms.remove_at(index);
        let replaced = match side {
            Role::Host => {
                let replaced = room.host_channel;
                room.host_channel = Some(sink);
                replaced
            },
            Role::Client => {
                let replaced = room.client_channel;
                room.client_channel = Some(sink);
                replaced
            },
        };
        self.rooms.insert(key, room);
        self.next_sink = next;
        assert(self@ =~= rooms_after_open(old(self)@, code@, role@, sink));
        WsAction::Register { sink, replaced }
    }

    /// Decides what to do with a frame that the connection of `role` on the
    /// room `code` received. The peer is looked up at this moment; a text for
    /// a peer that is not connected is dropped, not kept.
    pub fn route(&self, code: &str, role: &str, frame: Frame) -> (action: WsAction)
        ensures
            action == action_on_frame(self@, code@, role@, frame),
    {
        match frame {
            Frame::Text(text) => {
                let peer = match self.rooms.get(code) {
                    Some(room) => match Role::parse(role) {
                        Some(Role::Host) => room.client_channel,
                        Some(Role::Client) => room.host_channel,
                        None => None,
                    },
                    None => None,
                };
                match peer {
                    Some(to) => WsAction::Forward { to, text },
                    None => WsAction::Discard,
                }
            },
            Frame::Close => WsAction::Finish,
            Frame::Failed => WsAction::Finish,
            Frame::Binary => WsAction::Ignore,
            Frame::Ping => WsAction::Ignore,
            Frame::Pong => WsAction::Ignore,
        }
    }

    /// Clears the sink of `role` in the room `code` after its connection
    /// ended, and removes the room if no side is connected any more.
    pub fn disconnect(&mut self, code: &str, role: &str) -> (action: WsAction)
        ensures
            final(self)@ == rooms_after_close(old(self)@, code@, role@),
            action == (WsAction::Cleaned {
                room_removed: old(self)@.dom().contains(code@) && !final(self)@.dom().contains(
                    code@,
                ),
                cleared: sink_cleared(old(self)@, code@, role@),
            }),
            final(self).next_sink_id() == old(self).next_sink_id(),
    {
        let index = match self.rooms.find(code) {
            Some(index) => index,
            None => {
                return WsAction::Cleaned { room_removed: false, cleared: None };
            },
        };
        let (key, mut room) = self.rooms.remove_at(index);
        let cleared = match Role::parse(role) {
            Some(Role::Host) => {
                let cleared = room.host_channel;
                room.host_channel = None;
                cleared
            },
            Some(Role::Client) => {
                let cleared = room.client_channel;
                room.client_channel = None;
                cleared
            },
            None => None,
        };
        if room.host_channel.is_none() && room.client_channel.is_none() {
            assert(self@ =~= rooms_after_close(old(self)@, code@, role@));
            WsAction::Cleaned { room_removed: true, cleared }
        } else {
            self.rooms.insert(key, room);
            assert(self@ =~= rooms_after_close(old(self)@, code@, role@));
            WsAction::Cleaned { room_removed: false, cleared }
        }
    }
}

impl Default for RelayHub {
    fn default() -> (hub: Self)
        ensures
            hub@ == Map::<Seq<char>, PairRoom>::empty(),
    {
        RelayHub::new()
    }
}

/// One step of a relay connection of `role` on the room `code`: on
/// `Connected` the side's sink is registered, on `Received` the frame is
/// routed to the peer that is connected at this moment, and on
/// `Disconnected` the side's sink is cleared and a deserted room removed.
pub fn handle_ws(hub: &mut RelayHub, code: &str, role: &str, event: WsEvent) -> (action: WsAction)
    ensures
        match event {
            WsEvent::Connected => {
                &&& action == action_on_open(old(hub)@, code@, role@, old(hub).next_sink_id())
                &&& final(hub)@ == rooms_after_open(
                    old(hub)@,
                    code@,
                    role@,
                    old(hub).next_sink_id(),
                )
                &&& final(hub).next_sink_id() == (if action is Register {
                    next_number(old(hub).next_sink_id())
                } else {
                    old(hub).next_sink_id()
                })
            },
            WsEvent::Received(frame) => {
                &&& action == action_on_frame(old(hub)@, code@, role@, frame)
                &&& final(hub)@ == old(hub)@
                &&& final(hub).next_sink_id() == old(hub).next_sink_id()
            },
            WsEvent::Disconnected => {
                &&& final(hub)@ == rooms_after_close(old(hub)@, code@, role@)
                &&& action == (WsAction::Cleaned {
                    room_removed: old(hub)@.dom().contains(code@) && !final(hub)@.dom().contains(
                        code@,
                    ),
                    cleared: sink_cleared(old(hub)@, code@, role@),
                })
                &&& final(hub).next_sink_id() == old(hub).next_sink_id()
            },
        },
{
    match event {
        WsEvent::Connected => hub.connect(code, role),
        WsEvent::Received(frame) => hub.route(code, role, frame),
        WsEvent::Disconnected => hub.disconnect(code, role),
    }
}

/// After the host connected, a text that it sends while no client is there
/// is dropped; once the client has connected, the host's texts go to the
/// client's sink and the client's texts to the host's sink; and when both
/// have left, the room is gone.
pub proof fn lemma_pairing_round(room: PairRoom, host_sink: u64, client_sink: u64, text: String)
    requires
        room.is_deserted(),
    ensures
        ({
            let code = room.code@;
            let rooms0 = Map::<Seq<char>, PairRoom>::empty().insert(code, room);
            let rooms1 = rooms_after_open(rooms0, code, "host"@, host_sink);
            let rooms2 = rooms_after_open(rooms1, code, "client"@, client_sink);
            let rooms3 = rooms_after_close(rooms2, code, "client"@);
            let rooms4 = rooms_after_close(rooms3, code, "host"@);
            &&& action_on_frame(rooms1, code, "host"@, Frame::Text(text)) == WsAction::Discard
            &&& action_on_frame(rooms2, code, "host"@, Frame::Text(text)) == (WsAction::Forward {
                to: client_sink,
                text,
            })
            &&& action_on_frame(rooms2, code, "client"@, Frame::Text(text)) == (WsAction::Forward {
                to: host_sink,
                text,
            })
            &&& rooms2[code].is_paired()
            &&& rooms3.dom().contains(code) && !rooms3[code].is_paired()
            &&& !rooms4.dom().contains(code)
        }),
{
    reveal_strlit("host");
    reveal_strlit("client");
    let code = room.code@;
    let rooms0 = Map::<Seq<char>, PairRoom>::empty().insert(code, room);
    assert(role_of("host"@) == Some(Role::Host));
    assert("client"@ != "host"@) by {
        assert("client"@.len() != "host"@.len());
    }
    assert(role_of("client"@) == Some(Role::Client));
}

/// Asks for a pairing for a host.
#[derive(Debug)]
pub struct CreatePairRequest {
    pub hostname: String,
}

/// The code of the new pairing.
#[derive(Debug)]
pub struct CreatePairResponse {
    pub code: String,
}

/// Whether a client has connected, and the host's name.
#[derive(Debug)]
pub struct PairStatusResponse {
    pub paired: bool,
    pub hostname: String,
}

/// The query of a relay connection.
#[derive(Debug)]
pub struct WsQuery {
    pub role: String,
    pub code: String,
}

/// The query of the landing page.
#[derive(Debug)]
pub struct PairPageQuery {
    pub code: String,
}

/// What the room endpoints answer for an unknown code.
pub const ROOM_NOT_FOUND: &'static str = "Room not found";

/// What the connection endpoint answers for an unknown role.
pub const UNKNOWN_ROLE: &'static str = "Unknown role";

/// What the creation answers when no free code was drawn.
pub const NO_FREE_CODE: &'static str = "No free pairing code";

/// What the landing page answers for an unknown code.
pub const PAIR_NOT_FOUND_PAGE: &'static str =
    "<h1>Pairing code not found</h1><p>The code may have expired.</p>";

/// Opens a room for the host at `now` and answers its code with status 201.
/// Where sixteen codes in a row were taken, nothing changes and the answer
/// is status 500; so the room is opened wherever no room stands under a
/// pairing code.
pub fn create_pair_handler_at(
    hub: &mut RelayHub,
    body: &CreatePairRequest,
    now: u64,
) -> (reply: Result<
    (u16, CreatePairResponse),
    (u16, ErrorResponse),
>)
    ensures
        match reply {
            Ok((status, created)) => {
                &&& status == 201
                &&& is_pairing_code(created.code@)
                &&& !old(hub)@.dom().contains(created.code@)
                &&& final(hub)@.dom() == old(hub)@.dom().insert(created.code@)
                &&& final(hub)@[created.code@].code@ == created.code@
                &&& final(hub)@[created.code@].hostname@ == body.hostname@
                &&& final(hub)@[created.code@].is_deserted()
                &&& final(hub)@[created.code@].created_at == now
                &&& forall|other: Seq<char>|
                    old(hub)@.dom().contains(other)
                        ==> #[trigger] final(hub)@[other] == old(hub)@[other]
            },
            Err((status, failure)) => {
                &&& status == status_of(ErrorKind::Internal)
                &&& failure.error@ == NO_FREE_CODE@
                &&& final(hub)@ == old(hub)@
                &&& exists|taken: Seq<char>|
                    is_pairing_code(taken) && #[trigger] old(hub)@.dom().contains(taken)
            },
        },
        final(hub).next_sink_id() == old(hub).next_sink_id(),
{
    match hub.create_pair_at(body.hostname.as_str(), now) {
        Some(code) => Ok((201, CreatePairResponse { code })),
        None => Err(
            (
                ErrorKind::Internal.status_code(),
                ErrorResponse { error: String::from_str(NO_FREE_CODE) },
            ),
        ),
    }
}

/// Opens a room for the host, now, and answers its code with status 201.
/// Where sixteen codes in a row were taken, nothing changes and the answer
/// is status 500; so the room is opened wherever no room stands under a
/// pairing code.
pub fn create_pair_handler(hub: &mut RelayHub, body: &CreatePairRequest) -> (reply: Result<
    (u16, CreatePairResponse),
    (u16, ErrorResponse),
>)
    ensures
        match reply {
            Ok((status, created)) => {
                &&& status == 201
                &&& is_pairing_code(created.code@)
                &&& !old(hub)@.dom().contains(created.code@)
                &&& final(hub)@.dom() == old(hub)@.dom().insert(created.code@)
                &&& final(hub)@[created.code@].code@ == created.code@
                &&& final(hub)@[created.code@].hostname@ == body.hostname@
                &&& final(hub)@[created.code@].is_deserted()
                &&& forall|other: Seq<char>|
                    old(hub)@.dom().contains(other)
                        ==> #[trigger] final(hub)@[other] == old(hub)@[other]
            },
            Err((status, failure)) => {
                &&& status == status_of(ErrorKind::Internal)
                &&& failure.error@ == NO_FREE_CODE@
                &&& final(hub)@ == old(hub)@
                &&& exists|taken: Seq<char>|
                    is_pairing_code(taken) && #[trigger] old(hub)@.dom().contains(taken)
            },
        },
        final(hub).next_sink_id() == old(hub).next_sink_id(),
{
    let now = hub.uptime_millis();
    create_pair_handler_at(hub, body, now)
}

/// Whether the room `code` has a client connected, and its host's name; an
/// unknown code is answered with status 404.
pub fn pair_status_handler(hub: &RelayHub, code: &str) -> (reply: Result<
    PairStatusResponse,
    (u16, ErrorResponse),
>)
    ensures
        match reply {
            Ok(shown) => {
                &&& hub@.dom().contains(code@)
                &&& shown.paired == hub@[code@].is_paired()
                &&& shown.hostname == hub@[code@].hostname
            },
            Err((status, failure)) => {
                &&& !hub@.dom().contains(code@)
                &&& status == status_of(ErrorKind::NotFound)
                &&& failure.error@ == ROOM_NOT_FOUND@
            },
        },
{
    match hub.is_paired(code) {
        Some(paired) => {
            match hub.hostname_of(code) {
                Some(hostname) => Ok(PairStatusResponse { paired, hostname }),
                None => Err(
                    (
                        ErrorKind::NotFound.status_code(),
                        ErrorResponse { error: String::from_str(ROOM_NOT_FOUND) },
                    ),
                ),
            }
        },
        None => Err(
            (
                ErrorKind::NotFound.status_code(),
                ErrorResponse { error: String::from_str(ROOM_NOT_FOUND) },
            ),
        ),
    }
}

/// Decides on the upgrade of a relay connection: an unknown code is refused
/// with status 404, then an unknown role with status 400; otherwise the
/// connection is accepted for the role that the query names.
pub fn ws_handler(hub: &RelayHub, params: &WsQuery) -> (reply: Result<Role, (u16, ErrorResponse)>)
    ensures
        match reply {
            Ok(role) => hub@.dom().contains(params.code@) && role_of(params.role@) == Some(role),
            Err((status, failure)) => if !hub@.dom().contains(params.code@) {
                status == status_of(ErrorKind::NotFound) && failure.error@ == ROOM_NOT_FOUND@
            } else {
                role_of(params.role@) is None && status == status_of(ErrorKind::Validation)
                    && failure.error@ == UNKNOWN_ROLE@
            },
        },
{
    if !hub.has_room(params.code.as_str()) {
        return Err(
            (
                ErrorKind::NotFound.status_code(),
                ErrorResponse { error: String::from_str(ROOM_NOT_FOUND) },
            ),
        );
    }
    match Role::parse(params.role.as_str()) {
        Some(role) => Ok(role),
        None => Err(
            (
                ErrorKind::Validation.status_code(),
                ErrorResponse { error: String::from_str(UNKNOWN_ROLE) },
            ),
        ),
    }
}

/// The landing page of the pairing `code`; an unknown code is answered with
/// status 404 and a short page.
pub fn pair_page_handler(hub: &RelayHub, params: &PairPageQuery) -> (reply: Result<
    String,
    (u16, String),
>)
    ensures
        match reply {
            Ok(html) => hub@.dom().contains(params.code@) && html@ == pair_page_text(
                params.code@,
                hub@[params.code@].hostname@,
            ),
            Err((status, html)) => {
                &&& !hub@.dom().contains(params.code@)
                &&& status == status_of(ErrorKind::NotFound)
                &&& html@ == PAIR_NOT_FOUND_PAGE@
            },
        },
{
    match hub.hostname_of(params.code.as_str()) {
        Some(hostname) => Ok(render_pair_page(params.code.as_str(), hostname.as_str())),
        None => Err((ErrorKind::NotFound.status_code(), String::from_str(PAIR_NOT_FOUND_PAGE))),
    }
}

} // verus!
