//! The session lifecycle: `Uninitialized -> Starting -> Active -> Ending ->
//! Ended`, with one session per process.
//!
//! The session clock is set exactly once, when the service's success
//! response arrives; the "already started" check rides on the same slot, so
//! duplicate start triggers are refused rather than raced.
//!
//! Credential expiry is enforced by the service, not here: the manager
//! holds the token from Active through Ending, discards it at session end,
//! and never refreshes it.

use vstd::prelude::*;

use crate::api_types::{ApiResponse, ErrorBody, StartSessionResponse};
use crate::config::SessionApiKey;

verus! {

/// The lifecycle states of the one session this process may hold.
#[derive(Clone, Copy, PartialEq, Eq, Structural, Debug)]
pub enum SessionState {
    Uninitialized,
    Starting,
    Active,
    Ending,
    Ended,
}

/// The outcome of a session-start attempt, reported to the host.
pub enum IndigaugeInitDoneEvent {
    Success,
    Skipped(String),
    Failure(String),
    UnexpectedFailure(String),
}

/// What came back from a `sessions/start` request, after decoding.
pub enum SessionStartReply {
    /// The success schema matched: the service granted a token.
    Accepted(StartSessionResponse),
    /// The error schema matched: a well-formed refusal.
    Rejected(ErrorBody),
    /// Neither schema matched the body.
    Undecodable,
    /// The request itself failed in transit.
    TransportFailed,
}

/// Turns the two decode attempts into a reply: the success schema wins,
/// the error schema is the fallback, neither is a decode failure.
pub fn classify_reply(decoded: Option<ApiResponse<StartSessionResponse, ErrorBody>>) -> (r:
    SessionStartReply)
    ensures
        decoded matches Some(d) ==> match d {
            ApiResponse::Success(resp) => r == SessionStartReply::Accepted(resp),
            ApiResponse::Failure(body) => r == SessionStartReply::Rejected(body),
        },
        decoded is None ==> r == SessionStartReply::Undecodable,
{
    match decoded {
        Some(ApiResponse::Success(resp)) => SessionStartReply::Accepted(resp),
        Some(ApiResponse::Failure(body)) => SessionStartReply::Rejected(body),
        None => SessionStartReply::Undecodable,
    }
}

/// Owns the session state, the set-once session clock, and the ephemeral
/// credential.
pub struct SessionManager {
    state: SessionState,
    start_ms: Option<u64>,
    credential: Option<SessionApiKey>,
}

impl SessionManager {
    pub closed spec fn state(&self) -> SessionState {
        self.state
    }

    /// The session clock: the instant (caller's monotonic milliseconds) the
    /// session became Active. Set exactly once.
    pub closed spec fn start_ms(&self) -> Option<u64> {
        self.start_ms
    }

    pub closed spec fn credential(&self) -> Option<SessionApiKey> {
        self.credential
    }

    /// A credential exists exactly while the session is Active or Ending,
    /// and the clock is running whenever it does.
    pub open spec fn wf(&self) -> bool {
        &&& (self.state() == SessionState::Active || self.state() == SessionState::Ending) ==> (
        self.credential() is Some && self.start_ms() is Some)
        &&& (self.state() == SessionState::Uninitialized || self.state() == SessionState::Starting)
            ==> self.credential() is None
    }

    pub fn new() -> (m: SessionManager)
        ensures
            m.state() == SessionState::Uninitialized,
            m.start_ms() is None,
            m.credential() is None,
            m.wf(),
    {
        SessionManager { state: SessionState::Uninitialized, start_ms: None, credential: None }
    }

    pub fn current_state(&self) -> (s: SessionState)
        ensures
            s == self.state(),
    {
        self.state
    }

    pub fn is_active(&self) -> (b: bool)
        ensures
            b == (self.state() == SessionState::Active),
    {
        matches!(self.state, SessionState::Active)
    }

    /// The session credential, readable while one exists.
    pub fn session_key(&self) -> (k: Option<&SessionApiKey>)
        ensures
            match k {
                Some(key) => self.credential() matches Some(c) && *key == c,
                None => self.credential() is None,
            },
    {
        self.credential.as_ref()
    }

    /// Milliseconds since the session clock started, clamped at zero;
    /// `None` while no clock is set.
    pub fn elapsed_ms(&self, now_ms: u64) -> (r: Option<u64>)
        ensures
            match self.start_ms() {
                Some(s) => r == Some(if now_ms >= s { (now_ms - s) as u64 } else { 0u64 }),
                None => r is None,
            },
    {
        match self.start_ms {
            Some(s) => Some(if now_ms >= s { now_ms - s } else { 0 }),
            None => None,
        }
    }

    /// May a start trigger proceed? Only when nothing has been started in
    /// this process: the state is fresh and the set-once clock is unclaimed.
    pub open spec fn may_start(&self) -> bool {
        self.state() == SessionState::Uninitialized && self.start_ms() is None
    }

    /// Exactly what `request_start` does to the manager.
    pub open spec fn request_start_post(
        pre: SessionManager,
        post: SessionManager,
        r: Option<IndigaugeInitDoneEvent>,
    ) -> bool {
        &&& post.start_ms() == pre.start_ms()
        &&& post.credential() == pre.credential()
        &&& pre.may_start() ==> {
            &&& post.state() == SessionState::Starting
            &&& r is None
        }
        &&& !pre.may_start() ==> {
            &&& post == pre
            &&& r matches Some(n) && n matches IndigaugeInitDoneEvent::Skipped(m) && m@
                == "Session already started"@
        }
    }

    /// A start trigger from the host. Refused — idempotent-safe — unless no
    /// session has been started in this process; `None` means the caller
    /// should send the `sessions/start` request now.
    pub fn request_start(&mut self) -> (r: Option<IndigaugeInitDoneEvent>)
        requires
            old(self).wf(),
        ensures
            final(self).wf(),
            Self::request_start_post(*old(self), *final(self), r),
    {
        let already_started = self.start_ms.is_some() || !matches!(
            self.state,
            SessionState::Uninitialized,
        );
        if already_started {
            return Some(
                IndigaugeInitDoneEvent::Skipped(String::from_str("Session already started")),
            );
        }
        self.state = SessionState::Starting;
        None
    }

    /// Exactly what `on_start_reply` does to the manager.
    pub open spec fn on_start_reply_post(
        pre: SessionManager,
        post: SessionManager,
        reply: SessionStartReply,
        now_ms: u64,
        n: IndigaugeInitDoneEvent,
    ) -> bool {
        &&& pre.start_ms() is Some ==> post.start_ms() == pre.start_ms()
        &&& pre.state() != SessionState::Starting ==> {
            &&& post == pre
            &&& n matches IndigaugeInitDoneEvent::UnexpectedFailure(m) && m@
                == "Unexpected session response"@
        }
        &&& pre.state() == SessionState::Starting ==> match reply {
            SessionStartReply::Accepted(resp) => {
                if pre.start_ms() is None {
                    &&& post.state() == SessionState::Active
                    &&& post.start_ms() == Some(now_ms)
                    &&& post.credential() matches Some(k) && k@ == resp.session_token@
                    &&& n is Success
                } else {
                    &&& post.state() == SessionState::Uninitialized
                    &&& post.credential() is None
                    &&& n matches IndigaugeInitDoneEvent::Failure(m) && m@
                        == "Failed to set session start instant"@
                }
            },
            SessionStartReply::Rejected(_) => {
                &&& post.state() == SessionState::Uninitialized
                &&& post.start_ms() == pre.start_ms()
                &&& post.credential() is None
                &&& n matches IndigaugeInitDoneEvent::Failure(m) && m@
                    == "Failed to start session"@
            },
            SessionStartReply::Undecodable => {
                &&& post.state() == SessionState::Uninitialized
                &&& post.start_ms() == pre.start_ms()
                &&& post.credential() is None
                &&& n matches IndigaugeInitDoneEvent::UnexpectedFailure(m) && m@
                    == "Failed to deserialize response"@
            },
            SessionStartReply::TransportFailed => {
                &&& post.state() == SessionState::Uninitialized
                &&& post.start_ms() == pre.start_ms()
                &&& post.credential() is None
                &&& n matches IndigaugeInitDoneEvent::Failure(m) && m@
                    == "Create session post request failed"@
            },
        }
    }

    /// The reply to the start request arrives. On success the session clock
    /// is set (exactly once) and the credential stored; every failure kind
    /// returns the manager to Uninitialized with its own notification, so
    /// the host can tell a service refusal from an undecodable body or a
    /// transport fault.
    pub fn on_start_reply(&mut self, reply: SessionStartReply, now_ms: u64) -> (n:
        IndigaugeInitDoneEvent)
        requires
            old(self).wf(),
        ensures
            final(self).wf(),
            Self::on_start_reply_post(*old(self), *final(self), reply, now_ms, n),
    {
        if !matches!(self.state, SessionState::Starting) {
            return IndigaugeInitDoneEvent::UnexpectedFailure(
                String::from_str("Unexpected session response"),
            );
        }
        match reply {
            SessionStartReply::Accepted(resp) => {
                if self.start_ms.is_some() {
                    // The set-once clock was already claimed: a logic error,
                    // reported loudly rather than silently overwritten.
                    self.state = SessionState::Uninitialized;
                    self.credential = None;
                    IndigaugeInitDoneEvent::Failure(
                        String::from_str("Failed to set session start instant"),
                    )
                } else {
                    self.start_ms = Some(now_ms);
                    self.credential = Some(SessionApiKey::new(resp.session_token));
                    self.state = SessionState::Active;
                    IndigaugeInitDoneEvent::Success
                }
            },
            SessionStartReply::Rejected(_body) => {
                self.state = SessionState::Uninitialized;
                self.credential = None;
                IndigaugeInitDoneEvent::Failure(String::from_str("Failed to start session"))
            },
            SessionStartReply::Undecodable => {
                self.state = SessionState::Uninitialized;
                self.credential = None;
                IndigaugeInitDoneEvent::UnexpectedFailure(
                    String::from_str("Failed to deserialize response"),
                )
            },
            SessionStartReply::TransportFailed => {
                self.state = SessionState::Uninitialized;
                self.credential = None;
                IndigaugeInitDoneEvent::Failure(
                    String::from_str("Create session post request failed"),
                )
            },
        }
    }

    /// Begins ending the session (application exit or an explicit end
    /// request). True exactly when a session was Active; the credential is
    /// kept through Ending for the final requests.
    pub fn begin_end(&mut self) -> (was_active: bool)
        requires
            old(self).wf(),
        ensures
            final(self).wf(),
            final(self).start_ms() == old(self).start_ms(),
            was_active == (old(self).state() == SessionState::Active),
            old(self).state() == SessionState::Active ==> {
                &&& final(self).state() == SessionState::Ending
                &&& final(self).credential() == old(self).credential()
            },
            old(self).state() != SessionState::Active ==> *final(self) == *old(self),
    {
        if matches!(self.state, SessionState::Active) {
            self.state = SessionState::Ending;
            true
        } else {
            false
        }
    }

    /// Ends the session: the credential is discarded regardless of whether
    /// the final requests were delivered.
    pub fn finish_end(&mut self)
        requires
            old(self).wf(),
        ensures
            final(self).wf(),
            final(self).start_ms() == old(self).start_ms(),
            old(self).state() == SessionState::Ending ==> {
                &&& final(self).state() == SessionState::Ended
                &&& final(self).credential() is None
            },
            old(self).state() != SessionState::Ending ==> *final(self) == *old(self),
    {
        if matches!(self.state, SessionState::Ending) {
            self.state = SessionState::Ended;
            self.credential = None;
        }
    }
}

/// Law: two start triggers issued before any response arrives result in
/// exactly one transition onto the start path — the second is refused with
/// a `Skipped` notification and changes nothing — and when the success
/// response then arrives there is exactly one transition to `Active`.
pub proof fn lemma_duplicate_start_trigger_skipped(
    m0: SessionManager,
    m1: SessionManager,
    r1: Option<IndigaugeInitDoneEvent>,
    m2: SessionManager,
    r2: Option<IndigaugeInitDoneEvent>,
    m3: SessionManager,
    resp: StartSessionResponse,
    now_ms: u64,
    n3: IndigaugeInitDoneEvent,
)
    requires
        m0.may_start(),
        SessionManager::request_start_post(m0, m1, r1),
        SessionManager::request_start_post(m1, m2, r2),
        SessionManager::on_start_reply_post(
            m2,
            m3,
            SessionStartReply::Accepted(resp),
            now_ms,
            n3,
        ),
    ensures
        m1.state() == SessionState::Starting,
        r1 is None,
        m2.state() == SessionState::Starting,
        m2.start_ms() == m1.start_ms(),
        m2.credential() == m1.credential(),
        r2 matches Some(n) && n matches IndigaugeInitDoneEvent::Skipped(_),
        m0.state() != SessionState::Active,
        m1.state() != SessionState::Active,
        m2.state() != SessionState::Active,
        m3.state() == SessionState::Active,
        n3 is Success,
{
}

/// A host-issued request to start the session, with optional locale and
/// platform descriptors.
pub struct StartSessionEvent {
    pub locale: Option<String>,
    pub platform: Option<String>,
}

impl StartSessionEvent {
    pub fn new() -> (e: StartSessionEvent)
        ensures
            e.locale is None,
            e.platform is None,
    {
        StartSessionEvent { locale: None, platform: None }
    }

    pub fn with_locale(self, locale: String) -> (e: StartSessionEvent)
        ensures
            e.locale == Some(locale),
            e.platform == self.platform,
    {
        StartSessionEvent { locale: Some(locale), ..self }
    }

    pub fn with_platform(self, platform: String) -> (e: StartSessionEvent)
        ensures
            e.platform == Some(platform),
            e.locale == self.locale,
    {
        StartSessionEvent { platform: Some(platform), ..self }
    }
}

} // verus!
