use vstd::prelude::*;

use crate::error::SessionError;
use crate::session::{
    after_confirm, after_create, after_join, after_join_check, after_move_failure,
    after_new_game, after_poll, create_accepted, handed_over, join_accepted, joined_text,
    opponent_there, EndReason, Lifecycle, SessionView,
};
use crate::snapshot::{initial_snapshot, GameSnapshot, Identity, Winner};

verus! {

/// One thing that can happen to a session.
pub enum SessionEvent {
    Create(Result<(u16, String), SessionError>),
    Join(Result<(u16, String), SessionError>),
    JoinCheck(Result<(u16, bool), SessionError>),
    /// A fetch by the poll loop for the session with the given id.
    Poll(String, Result<GameSnapshot, SessionError>),
    /// A fetch for the session with the given id, confirming a move of the
    /// given player.
    Confirm(String, Identity, GameSnapshot),
    MoveFailed(SessionError),
    NewGame,
    ClaimPollLoop,
}

/// The session after `e`.
pub open spec fn after_event(v: SessionView, e: SessionEvent) -> SessionView {
    match e {
        SessionEvent::Create(r) => after_create(v, r),
        SessionEvent::Join(r) => after_join(v, r),
        SessionEvent::JoinCheck(r) => after_join_check(v, r),
        SessionEvent::Poll(id, r) => after_poll(v, id@, r),
        SessionEvent::Confirm(id, mover, s) => after_confirm(v, id@, mover, s),
        SessionEvent::MoveFailed(err) => after_move_failure(v, err),
        SessionEvent::NewGame => after_new_game(v),
        SessionEvent::ClaimPollLoop => SessionView { poll_loop_running: true, ..v },
    }
}

/// `e` is a create or join request that failed on an idle session.
pub open spec fn failed_start(v: SessionView, e: SessionEvent) -> bool {
    &&& v.lifecycle is Idle
    &&& match e {
        SessionEvent::Create(r) => !create_accepted(r),
        SessionEvent::Join(r) => !join_accepted(r),
        _ => false,
    }
}

/// The lifecycle may go from `a` to `b`: it stays, or follows
/// Idle → AwaitingOpponent → Active → Terminated → Idle, or a waiting or
/// active session ends in error.
pub open spec fn moves_forward(a: Lifecycle, b: Lifecycle) -> bool {
    ||| a == b
    ||| (a is Idle && b is AwaitingOpponent)
    ||| (a is AwaitingOpponent && b is Active)
    ||| (a is Active && b is Terminated)
    ||| (a is Terminated && b is Idle)
    ||| (a is AwaitingOpponent && b == Lifecycle::Terminated(EndReason::Error))
}

/// The lifecycle only moves forward along Idle → AwaitingOpponent → Active
/// → Terminated → Idle: a session never becomes active without having
/// waited for its opponent, and never waits again once active. A create or
/// join that fails on an idle session is the one step outside the graph: it
/// ends the session in error at once.
pub proof fn lifecycle_moves_forward(v: SessionView, e: SessionEvent)
    ensures
        !failed_start(v, e) ==> moves_forward(v.lifecycle, after_event(v, e).lifecycle),
        failed_start(v, e) ==> after_event(v, e).lifecycle == Lifecycle::Terminated(
            EndReason::Error,
        ),
{
}

/// A session's id and this client's slot are set only when an idle session
/// starts, and kept until the session is put back to idle; the board state
/// changes only by taking a state that was fetched from the service for this
/// session, or by starting empty when a session starts.
pub proof fn session_fields_write_once(v: SessionView, e: SessionEvent)
    ensures
        !(v.lifecycle is Idle) && !(e is NewGame) ==> after_event(v, e).session_id == v.session_id
            && after_event(v, e).identity == v.identity,
        after_event(v, e).snapshot != v.snapshot ==> match e {
            SessionEvent::Poll(id, Ok(s)) => id@ == v.session_id && after_event(v, e).snapshot == s,
            SessionEvent::Confirm(id, _, s) => id@ == v.session_id && after_event(v, e).snapshot
                == s,
            SessionEvent::Create(_) => after_event(v, e).snapshot == initial_snapshot(),
            SessionEvent::Join(_) => after_event(v, e).snapshot == initial_snapshot(),
            _ => false,
        },
{
}

/// The poll loop's processing of `fetched`, one fetch after another, each
/// made for the session `v` holds.
pub open spec fn poll_all(v: SessionView, fetched: Seq<GameSnapshot>) -> SessionView
    decreases fetched.len(),
{
    if fetched.len() == 0 {
        v
    } else {
        after_poll(
            poll_all(v, fetched.drop_last()),
            v.session_id,
            Ok::<GameSnapshot, SessionError>(fetched.last()),
        )
    }
}

/// After any run of successful fetches on an active session, the session
/// holds the state fetched last, whole. The loop fetches only while the
/// session is active, so every fetch but the last names no winner.
pub proof fn poll_keeps_latest(v: SessionView, fetched: Seq<GameSnapshot>)
    requires
        v.lifecycle is Active,
        fetched.len() > 0,
        forall|i: int| 0 <= i < fetched.len() - 1 ==> (#[trigger] fetched[i]).winner
            == Winner::Nobody,
    ensures
        poll_all(v, fetched).snapshot == fetched.last(),
    decreases fetched.len(),
{
    stays_active(v, fetched.drop_last());
}

proof fn stays_active(v: SessionView, fetched: Seq<GameSnapshot>)
    requires
        v.lifecycle is Active,
        forall|i: int| 0 <= i < fetched.len() ==> (#[trigger] fetched[i]).winner == Winner::Nobody,
    ensures
        poll_all(v, fetched).lifecycle is Active,
        poll_all(v, fetched).session_id == v.session_id,
    decreases fetched.len(),
{
    if fetched.len() > 0 {
        let rest = fetched.drop_last();
        assert forall|i: int| 0 <= i < rest.len() implies (#[trigger] rest[i]).winner
            == Winner::Nobody by {
            assert(rest[i] == fetched[i]);
        }
        stays_active(v, rest);
    }
}

/// The confirmation of a move of `mover` over the fetches `fetched`: the
/// session, and whether the confirmation has returned. Each fetch is made for
/// the session `v` holds; it stops at the first on which the move was taken.
pub open spec fn confirm_all(v: SessionView, mover: Identity, fetched: Seq<GameSnapshot>) -> (
    SessionView,
    bool,
)
    decreases fetched.len(),
{
    if fetched.len() == 0 {
        (v, false)
    } else {
        let (w, done) = confirm_all(v, mover, fetched.drop_last());
        if done {
            (w, true)
        } else {
            (
                after_confirm(w, v.session_id, mover, fetched.last()),
                handed_over(mover, fetched.last()),
            )
        }
    }
}

/// A move's confirmation does not return while the fetched state still
/// gives the turn to the player who moved and has no result, and returns at
/// the first fetch that gives the turn to the other or has a result,
/// holding that state.
pub proof fn confirm_waits_for_handover(v: SessionView, mover: Identity, fetched: Seq<GameSnapshot>)
    requires
        fetched.len() > 0,
        forall|i: int| 0 <= i < fetched.len() - 1 ==> !handed_over(mover, #[trigger] fetched[i]),
        handed_over(mover, fetched.last()),
    ensures
        confirm_all(v, mover, fetched) == (SessionView { snapshot: fetched.last(), ..v }, true),
        forall|k: int| 0 <= k < fetched.len() ==> #[trigger] confirm_all(v, mover, fetched.take(k))
            == (v, false),
{
    assert forall|k: int| 0 <= k < fetched.len() implies #[trigger] confirm_all(
        v,
        mover,
        fetched.take(k),
    ) == (v, false) by {
        not_yet_confirmed(v, mover, fetched, k);
    }
    assert(fetched.take(fetched.len() - 1) =~= fetched.drop_last());
    not_yet_confirmed(v, mover, fetched, fetched.len() - 1);
}

proof fn not_yet_confirmed(v: SessionView, mover: Identity, fetched: Seq<GameSnapshot>, k: int)
    requires
        0 <= k < fetched.len(),
        forall|i: int| 0 <= i < fetched.len() - 1 ==> !handed_over(mover, #[trigger] fetched[i]),
    ensures
        confirm_all(v, mover, fetched.take(k)) == (v, false),
    decreases k,
{
    if k > 0 {
        assert(fetched.take(k).drop_last() =~= fetched.take(k - 1));
        not_yet_confirmed(v, mover, fetched, k - 1);
    }
}

/// The join-wait loop's processing of `replies`, one after another.
pub open spec fn join_checks(v: SessionView, replies: Seq<Result<(u16, bool), SessionError>>) -> SessionView
    decreases replies.len(),
{
    if replies.len() == 0 {
        v
    } else {
        after_join_check(join_checks(v, replies.drop_last()), replies.last())
    }
}

/// While the opponent is reported absent (or the check fails), a waiting
/// session stays as it is; the first report of the opponent, with status
/// `code`, makes it active and says so with that code, and a further report
/// (with any status `later`) changes nothing.
pub proof fn join_wait_transitions_once(
    v: SessionView,
    replies: Seq<Result<(u16, bool), SessionError>>,
    code: u16,
    later: u16,
)
    requires
        v.lifecycle is AwaitingOpponent,
        forall|i: int| 0 <= i < replies.len() ==> !opponent_there(#[trigger] replies[i]),
    ensures
        join_checks(v, replies) == v,
        join_checks(v, replies.push(Ok((code, true)))).lifecycle is Active,
        join_checks(v, replies.push(Ok((code, true)))).status == joined_text(code),
        join_checks(v, replies.push(Ok((code, true))).push(Ok((later, true)))) == join_checks(
            v,
            replies.push(Ok((code, true))),
        ),
    decreases replies.len(),
{
    if replies.len() > 0 {
        let rest = replies.drop_last();
        assert forall|i: int| 0 <= i < rest.len() implies !opponent_there(#[trigger] rest[i]) by {
            assert(rest[i] == replies[i]);
        }
        join_wait_transitions_once(v, rest, code, later);
    }
    let first = replies.push(Ok((code, true)));
    assert(first.drop_last() =~= replies);
    assert(first.push(Ok((later, true))).drop_last() =~= first);
}

} // verus!
