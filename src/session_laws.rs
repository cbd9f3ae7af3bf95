use vstd::prelude::*;

use crate::session::{
    accepts, action_of, fresh_session, is_terminal, next, with_identifier, with_tokens, Action,
    Event, State, WaitOutcome,
};
use crate::session_model::{OAuthResponse, Session, SessionStatus, XOnceAuthenticationInfo};

verus! {

/// The state reached from `s` by the events `events`, the `i`-th newly created
/// session (if any) receiving the id `ids[i]`.
pub open spec fn run(s: State, events: Seq<Event>, ids: Seq<String>) -> State
    decreases events.len(),
{
    if events.len() == 0 || ids.len() == 0 {
        s
    } else {
        run(next(s, events[0], ids[0]), events.drop_first(), ids.drop_first())
    }
}

/// The actions asked for along that run, one before each event.
pub open spec fn trace(s: State, events: Seq<Event>, ids: Seq<String>, timeout: u64) -> Seq<Action>
    decreases events.len(),
{
    if events.len() == 0 || ids.len() == 0 {
        seq![]
    } else {
        seq![action_of(s, timeout)] + trace(
            next(s, events[0], ids[0]),
            events.drop_first(),
            ids.drop_first(),
            timeout,
        )
    }
}

/// The events of a run that finds a cached session active and refreshes it.
pub open spec fn cached_refresh_events(cached: Session, status: SessionStatus, token: OAuthResponse) -> Seq<Event> {
    seq![
        Event::Loaded(Some(cached)),
        Event::StatusChecked(Ok(status)),
        Event::Refreshed(Ok(token)),
        Event::Saved(Ok(())),
    ]
}

/// The session that such a run persists.
pub open spec fn refreshed(cached: Session, status: SessionStatus, token: OAuthResponse) -> Session {
    with_tokens(with_identifier(cached, status.identifier), token)
}

/// A fresh session is created from `NoSession` only by a successful password
/// grant, and holds exactly the granted tokens; a failed grant leads to `Error`
/// with the grant's error, and no session.
pub proof fn lemma_session_only_after_password_grant(e: Event, fresh: String, timeout: u64)
    requires
        accepts(State::NoSession, e),
    ensures
        action_of(State::NoSession, timeout) == Action::AcquirePasswordToken,
        next(State::NoSession, e, fresh) is SessionUnchecked <==> e matches Event::PasswordToken(Ok(_)),
        e matches Event::PasswordToken(Ok(o)) ==> next(State::NoSession, e, fresh)
            == State::SessionUnchecked(fresh_session(o, fresh)),
        e matches Event::PasswordToken(Err(err)) ==> next(State::NoSession, e, fresh) == State::Error(
            err,
        ),
{
}

/// A status with both flags set always leads to the refresh and never to
/// validation; a status with both flags clear always leads to validation and
/// never to the refresh; mixed flags lead back to `NoSession`.
pub proof fn lemma_status_decides_refresh_or_validation(
    sess: Session,
    status: SessionStatus,
    fresh: String,
)
    ensures
        ({
            let n = next(State::SessionUnchecked(sess), Event::StatusChecked(Ok(status)), fresh);
            &&& status.session_tan_active && status.activated_2fa ==> n == State::SessionRefresh(
                with_identifier(sess, status.identifier),
            )
            &&& !status.session_tan_active && !status.activated_2fa ==> n
                == State::SessionValidationReady(with_identifier(sess, status.identifier))
            &&& status.session_tan_active != status.activated_2fa ==> n == State::NoSession
        }),
{
}

/// However the wait for approval ends, signal or timeout, the machine goes on
/// to send the patch, with the same session and challenge; the wait it asks for
/// is bounded by the configured timeout.
pub proof fn lemma_wait_always_proceeds(
    sess: Session,
    challenge: XOnceAuthenticationInfo,
    outcome: WaitOutcome,
    fresh: String,
    timeout: u64,
)
    ensures
        action_of(State::SessionPatchWaitingForTan(sess, challenge), timeout) == Action::WaitForTan(
            timeout,
        ),
        next(
            State::SessionPatchWaitingForTan(sess, challenge),
            Event::TanWaitOver(outcome),
            fresh,
        ) == State::SessionPatchSession(sess, challenge),
{
}

/// `Error` always asks for the persisted session to be removed, and is the only
/// way into the terminal failure: every run that fails has cleared the cache
/// in its last step, whichever step failed.
pub proof fn lemma_error_clears_cache(s: State, e: Event, fresh: String, timeout: u64)
    requires
        accepts(s, e),
    ensures
        s is Error ==> action_of(s, timeout) == Action::ClearSession,
        s is Error ==> next(s, e, fresh) == State::Failed(s->Error_0),
        next(s, e, fresh) is Failed ==> s is Error && e is Cleared,
        next(s, e, fresh) is Error ==> !is_terminal(s) && !(s is Error),
{
}

/// With a cached session that the server reports active, a run asks for
/// exactly one status query and one refresh before persisting, and never for a
/// password grant, a validation or a wait for approval. Running again from the
/// session it persisted does the same.
pub proof fn lemma_cached_active_session_runs_twice(
    cached: Session,
    status1: SessionStatus,
    token1: OAuthResponse,
    status2: SessionStatus,
    token2: OAuthResponse,
    ids: Seq<String>,
    timeout: u64,
)
    requires
        status1.valid(),
        status2.valid(),
        ids.len() == 4,
    ensures
        ({
            let first = refreshed(cached, status1, token1);
            let second = refreshed(first, status2, token2);
            &&& run(State::Start, cached_refresh_events(cached, status1, token1), ids)
                == State::Finished(first)
            &&& trace(State::Start, cached_refresh_events(cached, status1, token1), ids, timeout)
                == seq![
                Action::LoadSession,
                Action::GetSessionStatus(cached),
                Action::RefreshToken(with_identifier(cached, status1.identifier)),
                Action::SaveSession(first),
            ]
            &&& run(State::Start, cached_refresh_events(first, status2, token2), ids)
                == State::Finished(second)
            &&& trace(State::Start, cached_refresh_events(first, status2, token2), ids, timeout)
                == seq![
                Action::LoadSession,
                Action::GetSessionStatus(first),
                Action::RefreshToken(with_identifier(first, status2.identifier)),
                Action::SaveSession(second),
            ]
        }),
{
    lemma_cached_active_run(cached, status1, token1, ids, timeout);
    lemma_cached_active_run(refreshed(cached, status1, token1), status2, token2, ids, timeout);
}

proof fn lemma_cached_active_run(
    cached: Session,
    status: SessionStatus,
    token: OAuthResponse,
    ids: Seq<String>,
    timeout: u64,
)
    requires
        status.valid(),
        ids.len() == 4,
    ensures
        run(State::Start, cached_refresh_events(cached, status, token), ids) == State::Finished(
            refreshed(cached, status, token),
        ),
        trace(State::Start, cached_refresh_events(cached, status, token), ids, timeout) == seq![
            Action::LoadSession,
            Action::GetSessionStatus(cached),
            Action::RefreshToken(with_identifier(cached, status.identifier)),
            Action::SaveSession(refreshed(cached, status, token)),
        ],
{
    let evs = cached_refresh_events(cached, status, token);
    let s1 = State::SessionUnchecked(cached);
    let s2 = State::SessionRefresh(with_identifier(cached, status.identifier));
    let s3 = State::SessionReady(refreshed(cached, status, token));
    let s4 = State::Finished(refreshed(cached, status, token));
    assert(next(State::Start, evs[0], ids[0]) == s1);
    assert(next(s1, evs[1], ids[1]) == s2);
    assert(next(s2, evs[2], ids[2]) == s3);
    assert(next(s3, evs[3], ids[3]) == s4);
    let e1 = evs.drop_first();
    let e2 = e1.drop_first();
    let e3 = e2.drop_first();
    let e4 = e3.drop_first();
    let i1 = ids.drop_first();
    let i2 = i1.drop_first();
    let i3 = i2.drop_first();
    let i4 = i3.drop_first();
    assert(e1[0] == evs[1] && e2[0] == evs[2] && e3[0] == evs[3]);
    assert(i1[0] == ids[1] && i2[0] == ids[2] && i3[0] == ids[3]);
    assert(e4.len() == 0);
    assert(run(s4, e4, i4) == s4);
    assert(run(s3, e3, i3) == s4);
    assert(run(s2, e2, i2) == s4);
    assert(run(s1, e1, i1) == s4);
    assert(trace(s4, e4, i4, timeout) == Seq::<Action>::empty());
    assert(trace(s3, e3, i3, timeout) =~= seq![action_of(s3, timeout)]);
    assert(trace(s2, e2, i2, timeout) =~= seq![action_of(s2, timeout), action_of(s3, timeout)]);
    assert(trace(s1, e1, i1, timeout) =~= seq![
        action_of(s1, timeout),
        action_of(s2, timeout),
        action_of(s3, timeout),
    ]);
    assert(trace(State::Start, evs, ids, timeout) =~= seq![
        action_of(State::Start, timeout),
        action_of(s1, timeout),
        action_of(s2, timeout),
        action_of(s3, timeout),
    ]);
}

/// Whether each event of the run is what comes of the action asked for before it.
pub open spec fn accepted_run(s: State, events: Seq<Event>, ids: Seq<String>) -> bool
    decreases events.len(),
{
    if events.len() == 0 || ids.len() == 0 {
        true
    } else {
        accepts(s, events[0]) && accepted_run(
            next(s, events[0], ids[0]),
            events.drop_first(),
            ids.drop_first(),
        )
    }
}

/// The states past the network steps: persisting, cleaning up, or done.
pub open spec fn settling(s: State) -> bool {
    s is SessionReady || s is Error || s is Finished || s is Failed
}

/// The actions that settling states ask for.
pub open spec fn settling_action(a: Action) -> bool {
    a is SaveSession || a is ClearSession || a is Stop
}

proof fn lemma_settling_trace(s: State, events: Seq<Event>, ids: Seq<String>, timeout: u64)
    requires
        settling(s),
        accepted_run(s, events, ids),
    ensures
        forall|i: int|
            0 <= i < trace(s, events, ids, timeout).len() ==> settling_action(
                #[trigger] trace(s, events, ids, timeout)[i],
            ),
    decreases events.len(),
{
    if events.len() > 0 && ids.len() > 0 {
        let n = next(s, events[0], ids[0]);
        lemma_settling_trace(n, events.drop_first(), ids.drop_first(), timeout);
        let t = trace(s, events, ids, timeout);
        let rest = trace(n, events.drop_first(), ids.drop_first(), timeout);
        assert(t == seq![action_of(s, timeout)] + rest);
        assert forall|i: int| 0 <= i < t.len() implies settling_action(#[trigger] t[i]) by {
            if i > 0 {
                assert(t[i] == rest[i - 1]);
            }
        }
    }
}

/// Whatever happens after a cached session is found active (the refresh or
/// the save may fail), the run asks for the load, then exactly one status
/// query, then at most one refresh, and after that only to persist, to clear
/// the cache, or to stop: never for a password grant, a validation or a wait
/// for approval.
pub proof fn lemma_active_cache_needs_no_approval(
    cached: Session,
    status: SessionStatus,
    rest: Seq<Event>,
    ids: Seq<String>,
    timeout: u64,
)
    requires
        status.valid(),
        ids.len() >= 2 + rest.len(),
        accepted_run(
            State::Start,
            seq![Event::Loaded(Some(cached)), Event::StatusChecked(Ok(status))] + rest,
            ids,
        ),
    ensures
        ({
            let t = trace(
                State::Start,
                seq![Event::Loaded(Some(cached)), Event::StatusChecked(Ok(status))] + rest,
                ids,
                timeout,
            );
            &&& t.len() == 2 + rest.len()
            &&& t[0] == Action::LoadSession
            &&& t[1] == Action::GetSessionStatus(cached)
            &&& t.len() > 2 ==> t[2] == Action::RefreshToken(with_identifier(cached, status.identifier))
            &&& forall|i: int| 3 <= i < t.len() ==> settling_action(#[trigger] t[i])
        }),
{
    let evs = seq![Event::Loaded(Some(cached)), Event::StatusChecked(Ok(status))] + rest;
    let s1 = State::SessionUnchecked(cached);
    let s2 = State::SessionRefresh(with_identifier(cached, status.identifier));
    let e1 = evs.drop_first();
    let e2 = e1.drop_first();
    let i1 = ids.drop_first();
    let i2 = i1.drop_first();
    assert(evs[0] == Event::Loaded(Some(cached)));
    assert(e1[0] == Event::StatusChecked(Ok(status)));
    assert(e2 =~= rest);
    assert(next(State::Start, evs[0], ids[0]) == s1);
    assert(next(s1, e1[0], i1[0]) == s2);
    assert(evs.len() > 0 && ids.len() > 0);
    assert(accepted_run(s1, e1, i1));
    assert(e1.len() > 0 && i1.len() > 0);
    assert(accepted_run(s2, e2, i2));
    let t2 = trace(s2, e2, i2, timeout);
    lemma_trace_len(s2, e2, i2, timeout);
    let t = trace(State::Start, evs, ids, timeout);
    assert(t == seq![Action::LoadSession] + trace(s1, e1, i1, timeout));
    assert(trace(s1, e1, i1, timeout) == seq![Action::GetSessionStatus(cached)] + t2);
    if rest.len() > 0 {
        let s3 = next(s2, e2[0], i2[0]);
        assert(settling(s3));
        assert(accepted_run(s3, e2.drop_first(), i2.drop_first()));
        lemma_settling_trace(s3, e2.drop_first(), i2.drop_first(), timeout);
        let t3 = trace(s3, e2.drop_first(), i2.drop_first(), timeout);
        assert(t2 == seq![action_of(s2, timeout)] + t3);
        assert forall|i: int| 3 <= i < t.len() implies settling_action(#[trigger] t[i]) by {
            assert(t[i] == t3[i - 3]);
        }
    }
}

proof fn lemma_trace_len(s: State, events: Seq<Event>, ids: Seq<String>, timeout: u64)
    requires
        ids.len() >= events.len(),
    ensures
        trace(s, events, ids, timeout).len() == events.len(),
    decreases events.len(),
{
    if events.len() > 0 {
        lemma_trace_len(next(s, events[0], ids[0]), events.drop_first(), ids.drop_first(), timeout);
    }
}

/// Every run that ends in failure, from a state that had not failed yet, asked
/// in its last step for the persisted session to be removed, whichever step
/// failed.
pub proof fn lemma_failed_run_cleared_cache(
    s: State,
    events: Seq<Event>,
    ids: Seq<String>,
    timeout: u64,
)
    requires
        !(s is Failed),
        ids.len() >= events.len(),
        accepted_run(s, events, ids),
        run(s, events, ids) is Failed,
    ensures
        events.len() > 0,
        trace(s, events, ids, timeout).last() == Action::ClearSession,
        events.last() == Event::Cleared,
    decreases events.len(),
{
    lemma_trace_len(s, events, ids, timeout);
    let n = next(s, events[0], ids[0]);
    let t = trace(s, events, ids, timeout);
    let rest = trace(n, events.drop_first(), ids.drop_first(), timeout);
    assert(t == seq![action_of(s, timeout)] + rest);
    assert(accepted_run(n, events.drop_first(), ids.drop_first()));
    assert(run(s, events, ids) == run(n, events.drop_first(), ids.drop_first()));
    if events.len() == 1 {
        assert(run(n, events.drop_first(), ids.drop_first()) == n);
        lemma_error_clears_cache(s, events[0], ids[0], timeout);
        assert(rest.len() == 0);
        assert(t =~= seq![action_of(s, timeout)]);
        assert(action_of(s, timeout) == Action::ClearSession);
    } else if n is Failed {
        assert(!accepts(n, events.drop_first()[0]));
    } else {
        lemma_failed_run_cleared_cache(n, events.drop_first(), ids.drop_first(), timeout);
        lemma_trace_len(n, events.drop_first(), ids.drop_first(), timeout);
        assert(t.last() == rest.last());
        assert(events.last() == events.drop_first().last());
    }
}

} // verus!
