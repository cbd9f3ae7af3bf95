use vstd::prelude::*;

use crate::loader::FileError;
use crate::session_client::{is_uuid_v4_text, SessionClientError};
use crate::session_model::{OAuthResponse, Session, SessionStatus, XOnceAuthenticationInfo};

verus! {

/// The failure that the authentication as a whole reports to its caller.
#[derive(Debug, Clone, Copy, PartialEq, Eq, Structural)]
pub enum SessionError {
    Error,
}

impl From<SessionClientError> for SessionError {
    fn from(value: SessionClientError) -> (r: Self)
        ensures
            r == SessionError::Error,
    {
        SessionError::Error
    }
}

impl vstd::std_specs::convert::FromSpecImpl<SessionClientError> for SessionError {
    open spec fn obeys_from_spec() -> bool {
        true
    }

    open spec fn from_spec(v: SessionClientError) -> SessionError {
        SessionError::Error
    }
}

/// The states of the authentication; each carries the data gathered so far.
#[derive(Debug)]
pub enum State {
    /// Nothing done yet: the persisted session is to be read.
    Start,
    /// No cached session: fresh credentials are to be acquired.
    NoSession,
    /// A session whose server-side status is not known yet.
    SessionUnchecked(Session),
    /// A session that the server has not activated: it is to be validated.
    SessionValidationReady(Session),
    /// A challenge is out; the human's approval is awaited for a bounded time.
    SessionPatchWaitingForTan(Session, XOnceAuthenticationInfo),
    /// The patch that answers the challenge is to be sent.
    SessionPatchSession(Session, XOnceAuthenticationInfo),
    /// The session is activated: the secondary-flow token is to be fetched.
    SessionPatchReady(Session),
    /// The session is active server-side: its tokens are to be rotated.
    SessionRefresh(Session),
    /// A usable session, to be persisted.
    SessionReady(Session),
    /// A step failed: the persisted session is to be removed.
    Error(SessionClientError),
    /// Terminal success: the session was persisted.
    Finished(Session),
    /// Terminal failure, after the persisted session was removed.
    Failed(SessionClientError),
}

/// How the wait for the human's approval ended.
#[derive(Debug, Clone, Copy, PartialEq, Eq, Structural)]
pub enum WaitOutcome {
    Approved,
    TimedOut,
}

/// What the machine asks its driver to do next.
#[derive(Debug)]
pub enum Action {
    LoadSession,
    AcquirePasswordToken,
    GetSessionStatus(Session),
    ValidateSession(Session),
    /// Wait for the approval signal, at most this many seconds.
    WaitForTan(u64),
    PatchSession(Session, XOnceAuthenticationInfo),
    ActivateSecondaryFlow(Session),
    RefreshToken(Session),
    SaveSession(Session),
    ClearSession,
    /// The machine has reached a terminal state.
    Stop,
}

/// What came of an action.
#[derive(Debug)]
pub enum Event {
    Loaded(Option<Session>),
    PasswordToken(Result<OAuthResponse, SessionClientError>),
    StatusChecked(Result<SessionStatus, SessionClientError>),
    Validated(Result<XOnceAuthenticationInfo, SessionClientError>),
    TanWaitOver(WaitOutcome),
    Patched(Result<SessionStatus, SessionClientError>),
    SecondaryFlow(Result<OAuthResponse, SessionClientError>),
    Refreshed(Result<OAuthResponse, SessionClientError>),
    Saved(Result<(), FileError>),
    Cleared,
}

/// Whether `e` is what comes of the action that state `s` asks for.
pub open spec fn accepts(s: State, e: Event) -> bool {
    match s {
        State::Start => e is Loaded,
        State::NoSession => e is PasswordToken,
        State::SessionUnchecked(_) => e is StatusChecked,
        State::SessionValidationReady(_) => e is Validated,
        State::SessionPatchWaitingForTan(_, _) => e is TanWaitOver,
        State::SessionPatchSession(_, _) => e is Patched,
        State::SessionPatchReady(_) => e is SecondaryFlow,
        State::SessionRefresh(_) => e is Refreshed,
        State::SessionReady(_) => e is Saved,
        State::Error(_) => e is Cleared,
        State::Finished(_) => false,
        State::Failed(_) => false,
    }
}

/// Whether `s` is terminal.
pub open spec fn is_terminal(s: State) -> bool {
    s is Finished || s is Failed
}

/// A session built from fresh tokens and a newly generated id.
pub open spec fn fresh_session(o: OAuthResponse, id: String) -> Session {
    Session { access_token: o.access_token, session_uuid: id, refresh_token: o.refresh_token }
}

/// The session `s` under the server's identifier `id`.
pub open spec fn with_identifier(s: Session, id: String) -> Session {
    Session { access_token: s.access_token, session_uuid: id, refresh_token: s.refresh_token }
}

/// The session `s` with the rotated tokens of `o`.
pub open spec fn with_tokens(s: Session, o: OAuthResponse) -> Session {
    Session { access_token: o.access_token, session_uuid: s.session_uuid, refresh_token: o.refresh_token }
}

/// Whether event `e` in state `s` creates a session: only a successful
/// password grant does.
pub open spec fn creates_session(s: State, e: Event) -> bool {
    s is NoSession && e matches Event::PasswordToken(Ok(_))
}

/// The state that follows `s` when event `e` comes in; `fresh` is the id that a
/// newly created session receives.
pub open spec fn next(s: State, e: Event, fresh: String) -> State {
    match (s, e) {
        (State::Start, Event::Loaded(Some(cached))) => State::SessionUnchecked(cached),
        (State::Start, Event::Loaded(None)) => State::NoSession,
        (State::NoSession, Event::PasswordToken(Ok(o))) => State::SessionUnchecked(
            fresh_session(o, fresh),
        ),
        (State::NoSession, Event::PasswordToken(Err(err))) => State::Error(err),
        (State::SessionUnchecked(sess), Event::StatusChecked(Ok(st))) => {
            if st.session_tan_active && st.activated_2fa {
                State::SessionRefresh(with_identifier(sess, st.identifier))
            } else if !st.session_tan_active && !st.activated_2fa {
                State::SessionValidationReady(with_identifier(sess, st.identifier))
            } else {
                State::NoSession
            }
        },
        (State::SessionUnchecked(_), Event::StatusChecked(Err(err))) => State::Error(err),
        (State::SessionValidationReady(sess), Event::Validated(Ok(ch))) => State::SessionPatchWaitingForTan(sess, ch),
        (State::SessionValidationReady(_), Event::Validated(Err(err))) => State::Error(err),
        (State::SessionPatchWaitingForTan(sess, ch), Event::TanWaitOver(_)) => State::SessionPatchSession(sess, ch),
        (State::SessionPatchSession(sess, _), Event::Patched(Ok(st))) => {
            if st.valid() {
                State::SessionPatchReady(sess)
            } else {
                State::Error(SessionClientError::Unknown)
            }
        },
        (State::SessionPatchSession(_, _), Event::Patched(Err(err))) => State::Error(err),
        (State::SessionPatchReady(sess), Event::SecondaryFlow(Ok(o))) => State::SessionReady(
            with_tokens(sess, o),
        ),
        (State::SessionPatchReady(_), Event::SecondaryFlow(Err(err))) => State::Error(err),
        (State::SessionRefresh(sess), Event::Refreshed(Ok(o))) => State::SessionReady(
            with_tokens(sess, o),
        ),
        (State::SessionRefresh(_), Event::Refreshed(Err(err))) => State::Error(err),
        (State::SessionReady(sess), Event::Saved(Ok(_))) => State::Finished(sess),
        (State::SessionReady(_), Event::Saved(Err(_))) => State::Error(SessionClientError::Unknown),
        (State::Error(err), Event::Cleared) => State::Failed(err),
        (s, _) => s,
    }
}

/// The action that state `s` asks for; `timeout` bounds the wait for approval.
pub open spec fn action_of(s: State, timeout: u64) -> Action {
    match s {
        State::Start => Action::LoadSession,
        State::NoSession => Action::AcquirePasswordToken,
        State::SessionUnchecked(sess) => Action::GetSessionStatus(sess),
        State::SessionValidationReady(sess) => Action::ValidateSession(sess),
        State::SessionPatchWaitingForTan(_, _) => Action::WaitForTan(timeout),
        State::SessionPatchSession(sess, ch) => Action::PatchSession(sess, ch),
        State::SessionPatchReady(sess) => Action::ActivateSecondaryFlow(sess),
        State::SessionRefresh(sess) => Action::RefreshToken(sess),
        State::SessionReady(sess) => Action::SaveSession(sess),
        State::Error(_) => Action::ClearSession,
        State::Finished(_) => Action::Stop,
        State::Failed(_) => Action::Stop,
    }
}

/// The result that a terminal state reports.
pub open spec fn outcome_of(s: State) -> Option<Result<Session, SessionClientError>> {
    match s {
        State::Finished(sess) => Some(Ok(sess)),
        State::Failed(err) => Some(Err(err)),
        _ => None,
    }
}

/// The authentication state machine: the current state and the configured
/// bound on the wait for the human's approval.
pub struct SessionMachine {
    pub state: State,
    pub tan_timeout_secs: u64,
}

impl SessionMachine {
    /// A machine at `Start`.
    pub fn new(tan_timeout_secs: u64) -> (r: Self)
        ensures
            r.state == State::Start,
            r.tan_timeout_secs == tan_timeout_secs,
    {
        SessionMachine { state: State::Start, tan_timeout_secs }
    }

    /// The action that the current state asks for.
    pub fn action(&self) -> (r: Action)
        ensures
            r == action_of(self.state, self.tan_timeout_secs),
    {
        match &self.state {
            State::Start => Action::LoadSession,
            State::NoSession => Action::AcquirePasswordToken,
            State::SessionUnchecked(sess) => Action::GetSessionStatus(sess.duplicate()),
            State::SessionValidationReady(sess) => Action::ValidateSession(sess.duplicate()),
            State::SessionPatchWaitingForTan(_, _) => Action::WaitForTan(self.tan_timeout_secs),
            State::SessionPatchSession(sess, ch) => Action::PatchSession(
                sess.duplicate(),
                ch.duplicate(),
            ),
            State::SessionPatchReady(sess) => Action::ActivateSecondaryFlow(sess.duplicate()),
            State::SessionRefresh(sess) => Action::RefreshToken(sess.duplicate()),
            State::SessionReady(sess) => Action::SaveSession(sess.duplicate()),
            State::Error(_) => Action::ClearSession,
            State::Finished(_) => Action::Stop,
            State::Failed(_) => Action::Stop,
        }
    }

    /// Whether `event` is what comes of the action that the current state asks for.
    pub fn accepts(&self, event: &Event) -> (r: bool)
        ensures
            r == accepts(self.state, *event),
    {
        match (&self.state, event) {
            (State::Start, Event::Loaded(_)) => true,
            (State::NoSession, Event::PasswordToken(_)) => true,
            (State::SessionUnchecked(_), Event::StatusChecked(_)) => true,
            (State::SessionValidationReady(_), Event::Validated(_)) => true,
            (State::SessionPatchWaitingForTan(_, _), Event::TanWaitOver(_)) => true,
            (State::SessionPatchSession(_, _), Event::Patched(_)) => true,
            (State::SessionPatchReady(_), Event::SecondaryFlow(_)) => true,
            (State::SessionRefresh(_), Event::Refreshed(_)) => true,
            (State::SessionReady(_), Event::Saved(_)) => true,
            (State::Error(_), Event::Cleared) => true,
            _ => false,
        }
    }

    /// Whether the machine has finished, successfully or not.
    pub fn is_finished(&self) -> (r: bool)
        ensures
            r == is_terminal(self.state),
    {
        match &self.state {
            State::Finished(_) | State::Failed(_) => true,
            _ => false,
        }
    }

    /// The result, once the machine has finished.
    pub fn outcome(self) -> (r: Option<Result<Session, SessionClientError>>)
        ensures
            r == outcome_of(self.state),
    {
        match self.state {
            State::Finished(sess) => Some(Ok(sess)),
            State::Failed(err) => Some(Err(err)),
            _ => None,
        }
    }

    /// The machine in the state that follows when `event` comes in. A newly
    /// created session receives a freshly generated random UUID as its id.
    pub fn step(self, event: Event) -> (r: SessionMachine)
        requires
            accepts(self.state, event),
        ensures
            r.tan_timeout_secs == self.tan_timeout_secs,
            exists|fresh: String|
                (creates_session(self.state, event) ==> is_uuid_v4_text(fresh@)) && r.state
                    == #[trigger] next(self.state, event, fresh),
    {
        let ghost before = self.state;
        let ghost mut fresh: String = arbitrary();
        let SessionMachine { state: st, tan_timeout_secs } = self;
        let new_state = match (st, event) {
            (State::Start, Event::Loaded(Some(cached))) => State::SessionUnchecked(cached),
            (State::Start, Event::Loaded(None)) => State::NoSession,
            (State::NoSession, Event::PasswordToken(Ok(o))) => {
                let sess = Session::from_oauth(o);
                proof {
                    fresh = sess.session_uuid;
                }
                State::SessionUnchecked(sess)
            },
            (State::NoSession, Event::PasswordToken(Err(err))) => State::Error(err),
            (State::SessionUnchecked(sess), Event::StatusChecked(Ok(st))) => {
                if st.session_tan_active && st.activated_2fa {
                    State::SessionRefresh(
                        Session {
                            access_token: sess.access_token,
                            session_uuid: st.identifier,
                            refresh_token: sess.refresh_token,
                        },
                    )
                } else if !st.session_tan_active && !st.activated_2fa {
                    State::SessionValidationReady(
                        Session {
                            access_token: sess.access_token,
                            session_uuid: st.identifier,
                            refresh_token: sess.refresh_token,
                        },
                    )
                } else {
                    State::NoSession
                }
            },
            (State::SessionUnchecked(_), Event::StatusChecked(Err(err))) => State::Error(err),
            (State::SessionValidationReady(sess), Event::Validated(Ok(ch))) => {
                State::SessionPatchWaitingForTan(sess, ch)
            },
            (State::SessionValidationReady(_), Event::Validated(Err(err))) => State::Error(err),
            (State::SessionPatchWaitingForTan(sess, ch), Event::TanWaitOver(_)) => {
                State::SessionPatchSession(sess, ch)
            },
            (State::SessionPatchSession(sess, _), Event::Patched(Ok(st))) => {
                if st.is_valid() {
                    State::SessionPatchReady(sess)
                } else {
                    State::Error(SessionClientError::Unknown)
                }
            },
            (State::SessionPatchSession(_, _), Event::Patched(Err(err))) => State::Error(err),
            (State::SessionPatchReady(sess), Event::SecondaryFlow(Ok(o))) => {
                State::SessionReady(sess.refreshed_session(o))
            },
            (State::SessionPatchReady(_), Event::SecondaryFlow(Err(err))) => State::Error(err),
            (State::SessionRefresh(sess), Event::Refreshed(Ok(o))) => {
                State::SessionReady(sess.refreshed_session(o))
            },
            (State::SessionRefresh(_), Event::Refreshed(Err(err))) => State::Error(err),
            (State::SessionReady(sess), Event::Saved(Ok(_))) => State::Finished(sess),
            (State::SessionReady(_), Event::Saved(Err(_))) => State::Error(
                SessionClientError::Unknown,
            ),
            (State::Error(err), Event::Cleared) => State::Failed(err),
            (s, _) => s,
        };
        assert(new_state == next(before, event, fresh));
        SessionMachine { state: new_state, tan_timeout_secs }
    }
}

} // verus!
