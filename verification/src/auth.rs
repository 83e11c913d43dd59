//! One-time-password sessions: the record, its codes and its state machine.

use vstd::prelude::*;
use crate::clock::{add_millis, later, now_millis, CLOCK_LIMIT_MILLIS};
use crate::error::ErrorKind;
use crate::ident::{is_uuid_text, new_id, random_byte, random_in_range};
use crate::text::{
    clone_opt, decimal_string, decimal_text, hex_encode, hex_text, is_digit, is_lower_hex,
    lemma_decimal_text, lemma_hex_text, pow10, str_eq,
};

verus! {

/// How long a session stays open for a grant, in milliseconds.
pub const SESSION_TTL_MILLIS: i64 = 300_000;

/// Where a session stands in the grant handshake.
#[derive(Debug, Clone, Copy, PartialEq, Eq, Structural)]
pub enum SessionStatus {
    Pending,
    Granted,
    Denied,
    Expired,
}

/// The lower-case name of a status, as it is written on the wire.
pub open spec fn status_name(status: SessionStatus) -> Seq<char> {
    match status {
        SessionStatus::Pending => "pending"@,
        SessionStatus::Granted => "granted"@,
        SessionStatus::Denied => "denied"@,
        SessionStatus::Expired => "expired"@,
    }
}

/// Distinct statuses have distinct names.
pub proof fn lemma_status_names_differ(a: SessionStatus, b: SessionStatus)
    ensures
        status_name(a) == status_name(b) ==> a == b,
{
    reveal_strlit("pending");
    reveal_strlit("granted");
    reveal_strlit("denied");
    reveal_strlit("expired");
    assert(status_name(a)[0] != status_name(b)[0] || a == b);
}

impl SessionStatus {
    /// The lower-case name of the status.
    pub fn as_str(&self) -> (name: &'static str)
        ensures
            name@ == status_name(*self),
    {
        match self {
            SessionStatus::Pending => "pending",
            SessionStatus::Granted => "granted",
            SessionStatus::Denied => "denied",
            SessionStatus::Expired => "expired",
        }
    }

    /// The status with the given lower-case name.
    pub fn parse(name: &str) -> (status: Option<SessionStatus>)
        ensures
            match status {
                Some(s) => status_name(s) == name@,
                None => forall|s: SessionStatus| status_name(s) != name@,
            },
    {
        if str_eq(name, "pending") {
            Some(SessionStatus::Pending)
        } else if str_eq(name, "granted") {
            Some(SessionStatus::Granted)
        } else if str_eq(name, "denied") {
            Some(SessionStatus::Denied)
        } else if str_eq(name, "expired") {
            Some(SessionStatus::Expired)
        } else {
            None
        }
    }
}

/// A one-time-password session.
#[derive(Debug, Clone)]
pub struct Session {
    pub id: String,
    pub otp: String,
    pub hostname: String,
    pub status: SessionStatus,
    pub token: Option<String>,
    /// Milliseconds since the epoch.
    pub created_at: i64,
    /// Milliseconds since the epoch.
    pub expires_at: i64,
}

/// The shape of a one-time password: eight decimal digits.
pub open spec fn is_otp_text(s: Seq<char>) -> bool {
    s.len() == 8 && forall|i: int| 0 <= i < 8 ==> is_digit(#[trigger] s[i])
}

/// The shape of a session token: 64 lower-case hexadecimal digits.
pub open spec fn is_token_text(s: Seq<char>) -> bool {
    s.len() == 64 && forall|i: int| 0 <= i < 64 ==> is_lower_hex(#[trigger] s[i])
}

impl Session {
    /// A token is present exactly in the granted state, and a present token is
    /// 64 lower-case hexadecimal digits.
    pub open spec fn coherent(&self) -> bool {
        &&& self.token is Some <==> self.status == SessionStatus::Granted
        &&& self.token matches Some(t) ==> is_token_text(t@)
    }

    /// Whether the session is still pending although its time has run out.
    pub open spec fn lapsed(&self, now: i64) -> bool {
        self.status == SessionStatus::Pending && now > self.expires_at
    }

    /// Whether `otp` is the session's password and the session has not run
    /// out at `now`.
    pub open spec fn accepts(&self, otp: Seq<char>, now: i64) -> bool {
        self.otp@ == otp && now <= self.expires_at
    }

    /// The status that an observer reads at `now`.
    pub open spec fn status_at(&self, now: i64) -> SessionStatus {
        if self.lapsed(now) {
            SessionStatus::Expired
        } else {
            self.status
        }
    }

    /// What a grant with `otp` at `now` meets: the state is checked first,
    /// then the password, then the time.
    pub open spec fn grant_check(&self, otp: Seq<char>, now: i64) -> Result<(), ErrorKind> {
        if self.status != SessionStatus::Pending {
            Err(ErrorKind::Conflict)
        } else if self.otp@ != otp {
            Err(ErrorKind::Unauthorized)
        } else if now > self.expires_at {
            Err(ErrorKind::Gone)
        } else {
            Ok(())
        }
    }

    /// The session after a grant that issued `token`.
    pub open spec fn granted(&self, token: String) -> Session {
        Session { status: SessionStatus::Granted, token: Some(token), ..*self }
    }

    /// What a denial meets: only a pending session can be denied.
    pub open spec fn deny_check(&self) -> Result<(), ErrorKind> {
        if self.status != SessionStatus::Pending {
            Err(ErrorKind::Conflict)
        } else {
            Ok(())
        }
    }

    /// The session after a denial.
    pub open spec fn denied(&self) -> Session {
        Session { status: SessionStatus::Denied, ..*self }
    }

    /// A copy of the session.
    pub fn duplicate(&self) -> (copy: Session)
        ensures
            copy == *self,
    {
        Session {
            id: self.id.clone(),
            otp: self.otp.clone(),
            hostname: self.hostname.clone(),
            status: self.status,
            token: clone_opt(&self.token),
            created_at: self.created_at,
            expires_at: self.expires_at,
        }
    }

    /// The status that an observer reads at `now`: a pending session whose
    /// time has run out reads as expired.
    pub fn observed_status(&self, now: i64) -> (status: SessionStatus)
        ensures
            status == self.status_at(now),
    {
        if self.status == SessionStatus::Pending && now > self.expires_at {
            SessionStatus::Expired
        } else {
            self.status
        }
    }

    /// Checks a grant with `otp` at `now` without changing the session.
    pub fn check_grant(&self, otp: &str, now: i64) -> (outcome: Result<(), ErrorKind>)
        ensures
            outcome == self.grant_check(otp@, now),
    {
        if self.status != SessionStatus::Pending {
            Err(ErrorKind::Conflict)
        } else if !str_eq(self.otp.as_str(), otp) {
            Err(ErrorKind::Unauthorized)
        } else if now > self.expires_at {
            Err(ErrorKind::Gone)
        } else {
            Ok(())
        }
    }

    /// Checks a denial without changing the session.
    pub fn check_deny(&self) -> (outcome: Result<(), ErrorKind>)
        ensures
            outcome == self.deny_check(),
    {
        if self.status != SessionStatus::Pending {
            Err(ErrorKind::Conflict)
        } else {
            Ok(())
        }
    }
}

/// The one-time password for the number `n` of eight digits.
pub fn otp_from_number(n: u32) -> (otp: String)
    requires
        10_000_000 <= n < 100_000_000,
    ensures
        otp@ == decimal_text(n as nat),
        is_otp_text(otp@),
{
    proof {
        reveal_with_fuel(pow10, 9);
        lemma_decimal_text(n as nat, 8);
    }
    decimal_string(n)
}

/// A fresh one-time password: eight decimal digits, the first of them not
/// zero.
pub fn generate_otp() -> (otp: String)
    ensures
        is_otp_text(otp@),
        otp@[0] != '0',
        exists|n: nat| 10_000_000 <= n < 100_000_000 && otp@ == #[trigger] decimal_text(n),
{
    let n = random_in_range(10_000_000, 100_000_000);
    let otp = otp_from_number(n);
    proof {
        lemma_leading_digit(n as nat);
    }
    otp
}

/// The numeral of a positive number does not begin with a zero.
pub proof fn lemma_leading_digit(n: nat)
    requires
        n > 0,
    ensures
        decimal_text(n).len() > 0,
        decimal_text(n)[0] != '0',
    decreases n,
{
    if n >= 10 {
        lemma_leading_digit(n / 10);
        assert(decimal_text(n)[0] == decimal_text(n / 10)[0]);
    }
}

/// The session token for the given random bytes: their lower-case
/// hexadecimal text.
pub fn token_from_bytes(bytes: &Vec<u8>) -> (token: String)
    ensures
        token@ == hex_text(bytes@),
        token@.len() == 2 * bytes@.len(),
        bytes@.len() == 32 ==> is_token_text(token@),
{
    proof {
        lemma_hex_text(bytes@);
    }
    hex_encode(bytes)
}

/// A fresh session token: 64 lower-case hexadecimal digits from 32 random
/// bytes.
pub fn generate_session_token() -> (token: String)
    ensures
        is_token_text(token@),
{
    let mut bytes: Vec<u8> = Vec::new();
    let mut i: usize = 0;
    while i < 32
        invariant
            i <= 32,
            bytes@.len() == i,
        decreases 32 - i,
    {
        bytes.push(random_byte());
        i += 1;
    }
    token_from_bytes(&bytes)
}

/// A pending session for `hostname` with the given identifier and password,
/// created at `now` and open for five minutes.
pub fn create_session_at(hostname: &str, id: String, otp: String, now: i64) -> (session: Session)
    ensures
        session.id == id,
        session.otp == otp,
        session.hostname@ == hostname@,
        session.status == SessionStatus::Pending,
        session.token is None,
        session.created_at == now,
        session.expires_at == later(now, SESSION_TTL_MILLIS),
        session.coherent(),
{
    Session {
        id,
        otp,
        hostname: hostname.to_owned(),
        status: SessionStatus::Pending,
        token: None,
        created_at: now,
        expires_at: add_millis(now, SESSION_TTL_MILLIS),
    }
}

/// A new pending session for `hostname`, with a fresh identifier and
/// password, created now and open for five minutes: it expires exactly
/// 300 000 milliseconds after its creation.
pub fn create_session(hostname: &str) -> (session: Session)
    ensures
        is_uuid_text(session.id@),
        is_otp_text(session.otp@),
        session.otp@[0] != '0',
        exists|n: nat| 10_000_000 <= n < 100_000_000 && session.otp@ == #[trigger] decimal_text(n),
        session.hostname@ == hostname@,
        session.status == SessionStatus::Pending,
        session.token is None,
        0 <= session.created_at < CLOCK_LIMIT_MILLIS,
        session.expires_at == session.created_at + SESSION_TTL_MILLIS,
        session.coherent(),
{
    let now = now_millis();
    create_session_at(hostname, new_id(), generate_otp(), now)
}

/// Whether `otp` is the session's password and the session has not run out
/// at `now`.
pub fn validate_otp_at(session: &Session, otp: &str, now: i64) -> (valid: bool)
    ensures
        valid == session.accepts(otp@, now),
{
    if !str_eq(session.otp.as_str(), otp) {
        return false;
    }
    if now > session.expires_at {
        return false;
    }
    true
}

/// Whether `otp` is the session's password and the session has not run out
/// by now. A wrong password is never valid, whatever the clock says.
pub fn validate_otp(session: &Session, otp: &str) -> (valid: bool)
    ensures
        exists|now: i64| valid == #[trigger] session.accepts(otp@, now),
        valid ==> session.otp@ == otp@,
{
    validate_otp_at(session, otp, now_millis())
}

/// A grant on a coherent session leaves a coherent session, in the granted
/// state with the issued token, and a second grant or a denial after it
/// meets a conflict.
pub proof fn lemma_grant_is_final(s: Session, otp: Seq<char>, now: i64, token: String)
    requires
        s.coherent(),
        s.grant_check(otp, now) is Ok,
        is_token_text(token@),
    ensures
        s.granted(token).coherent(),
        s.granted(token).status == SessionStatus::Granted,
        s.granted(token).token == Some(token),
        forall|otp2: Seq<char>, now2: i64|
            s.granted(token).grant_check(otp2, now2) == Err::<(), ErrorKind>(ErrorKind::Conflict),
        s.granted(token).deny_check() == Err::<(), ErrorKind>(ErrorKind::Conflict),
{
}

/// A denial on a coherent session leaves a coherent session without a token,
/// and a grant or a second denial after it meets a conflict.
pub proof fn lemma_deny_is_final(s: Session)
    requires
        s.coherent(),
        s.deny_check() is Ok,
    ensures
        s.denied().coherent(),
        s.denied().status == SessionStatus::Denied,
        s.denied().token is None,
        forall|otp: Seq<char>, now: i64|
            s.denied().grant_check(otp, now) == Err::<(), ErrorKind>(ErrorKind::Conflict),
        s.denied().deny_check() == Err::<(), ErrorKind>(ErrorKind::Conflict),
{
}

/// A session that was created at an instant five minutes short of the end of
/// time expires exactly 300 seconds after its creation.
pub proof fn lemma_session_lifetime(created_at: i64)
    requires
        created_at + SESSION_TTL_MILLIS <= i64::MAX,
    ensures
        later(created_at, SESSION_TTL_MILLIS) - created_at == 300_000,
{
}

} // verus!
