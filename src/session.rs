use vstd::prelude::*;

use crate::error::SessionError;
use crate::snapshot::{initial_snapshot, same_text, marker_of, Cell, GameSnapshot, Identity, Winner};
use crate::status::{
    decimal, describe_error, draw_text, error_text, lost_text, push_decimal, ready_text,
    waiting_text, won_text,
};

verus! {

/// How a session came to an end.
#[derive(Clone, Copy, Debug, PartialEq, Eq, Structural)]
pub enum EndReason {
    Won(Identity),
    Draw,
    Error,
}

/// Where the session stands, as this client believes it.
#[derive(Clone, Copy, Debug, PartialEq, Eq, Structural)]
pub enum Lifecycle {
    Idle,
    AwaitingOpponent,
    Active,
    Terminated(EndReason),
}

/// The abstract content of a `SessionState`.
pub struct SessionView {
    pub lifecycle: Lifecycle,
    pub status: Seq<char>,
    pub session_id: Seq<char>,
    pub identity: Identity,
    pub snapshot: GameSnapshot,
    pub poll_loop_running: bool,
}

/// Creating a game succeeds on status 201 only.
pub open spec fn create_accepted(response: Result<(u16, String), SessionError>) -> bool {
    response matches Ok((code, _)) && code == 201
}

/// A 2xx status code.
pub open spec fn success_code(code: u16) -> bool {
    200 <= code < 300
}

/// Whether the service's status code reports success.
pub fn is_success(code: u16) -> (b: bool)
    ensures
        b == success_code(code),
{
    200 <= code && code < 300
}

/// Joining a game succeeds on any 2xx status.
pub open spec fn join_accepted(response: Result<(u16, String), SessionError>) -> bool {
    response matches Ok((code, _)) && success_code(code)
}

/// The error a rejected create or join response stands for.
pub open spec fn start_error(response: Result<(u16, String), SessionError>) -> SessionError {
    match response {
        Ok((code, _)) => SessionError::Status(code),
        Err(e) => e,
    }
}

/// The session after a failed create or join.
pub open spec fn after_failure(v: SessionView, e: SessionError) -> SessionView {
    SessionView {
        lifecycle: Lifecycle::Terminated(EndReason::Error),
        status: error_text(e),
        ..v
    }
}

/// The session after a successful create or join gave it `id`, with this
/// client in slot `me`; its board starts empty.
pub open spec fn after_start(v: SessionView, id: Seq<char>, me: Identity) -> SessionView {
    SessionView {
        lifecycle: Lifecycle::AwaitingOpponent,
        status: waiting_text(),
        session_id: id,
        identity: me,
        snapshot: initial_snapshot(),
        ..v
    }
}

/// The session after the answer to a create request. Only an idle session
/// takes it; the creator plays second.
pub open spec fn after_create(
    v: SessionView,
    response: Result<(u16, String), SessionError>,
) -> SessionView {
    if !(v.lifecycle is Idle) {
        v
    } else if create_accepted(response) {
        after_start(v, response->Ok_0.1@, Identity::Second)
    } else {
        after_failure(v, start_error(response))
    }
}

/// The session after the answer to a join request. Only an idle session
/// takes it; the joiner plays first.
pub open spec fn after_join(
    v: SessionView,
    response: Result<(u16, String), SessionError>,
) -> SessionView {
    if !(v.lifecycle is Idle) {
        v
    } else if join_accepted(response) {
        after_start(v, response->Ok_0.1@, Identity::First)
    } else {
        after_failure(v, start_error(response))
    }
}

/// An answer, with its status code, saying that the opponent is there.
pub open spec fn opponent_there(reply: Result<(u16, bool), SessionError>) -> bool {
    reply matches Ok((_, joined)) && joined
}

/// What the user is told once the opponent has joined: the status code of
/// the answer that said so.
pub open spec fn joined_text(code: u16) -> Seq<char> {
    "Status code : "@ + decimal(code as nat)
}

/// The session after one answer to "has the opponent joined?": the answer's
/// status code and flag, or why there was none.
pub open spec fn after_join_check(
    v: SessionView,
    reply: Result<(u16, bool), SessionError>,
) -> SessionView {
    if v.lifecycle is AwaitingOpponent && opponent_there(reply) {
        SessionView { lifecycle: Lifecycle::Active, status: joined_text(reply->Ok_0.0), ..v }
    } else {
        v
    }
}

/// Whether the join-wait loop goes on after this answer.
pub open spec fn join_wait_continues(
    v: SessionView,
    reply: Result<(u16, bool), SessionError>,
) -> bool {
    v.lifecycle is AwaitingOpponent && !opponent_there(reply)
}

/// What the user is told when the game ended with `w`, seen from slot `me`.
pub open spec fn result_text(w: Winner, me: Identity) -> Seq<char> {
    match w {
        Winner::First => if me == Identity::First { won_text() } else { lost_text() },
        Winner::Second => if me == Identity::Second { won_text() } else { lost_text() },
        _ => draw_text(),
    }
}

/// How a game with result `w` ends the session.
pub open spec fn end_of(w: Winner) -> Lifecycle {
    match w {
        Winner::First => Lifecycle::Terminated(EndReason::Won(Identity::First)),
        Winner::Second => Lifecycle::Terminated(EndReason::Won(Identity::Second)),
        _ => Lifecycle::Terminated(EndReason::Draw),
    }
}

/// The session after the poll loop's fetch for session `id` came back. An
/// active session takes a state fetched for it whole; once it names a
/// winner the session ends. Failed fetches, fetches for another session,
/// and fetches that finish after the session left `Active`, change nothing.
pub open spec fn after_poll(
    v: SessionView,
    id: Seq<char>,
    fetched: Result<GameSnapshot, SessionError>,
) -> SessionView {
    match fetched {
        Ok(s) => if v.lifecycle is Active && id == v.session_id {
            if s.winner == Winner::Nobody {
                SessionView { snapshot: s, ..v }
            } else {
                SessionView {
                    snapshot: s,
                    lifecycle: end_of(s.winner),
                    status: result_text(s.winner, v.identity),
                    ..v
                }
            }
        } else {
            v
        },
        Err(_) => v,
    }
}

/// Whether a fetch made after `mover` moved shows that the move was taken:
/// the turn has passed, or the game has a result.
pub open spec fn handed_over(mover: Identity, s: GameSnapshot) -> bool {
    s.turn != mover || s.winner != Winner::Nobody
}

/// The session after a fetch for session `id`, made while confirming a move
/// of `mover`: a state of this session is kept once the move was taken, and
/// not before.
pub open spec fn after_confirm(
    v: SessionView,
    id: Seq<char>,
    mover: Identity,
    s: GameSnapshot,
) -> SessionView {
    if id == v.session_id && handed_over(mover, s) {
        SessionView { snapshot: s, ..v }
    } else {
        v
    }
}

/// The session after the user asked for a new game: a finished session
/// goes back to idle and forgets its id; any other stays as it is.
pub open spec fn after_new_game(v: SessionView) -> SessionView {
    if v.lifecycle is Terminated {
        SessionView {
            lifecycle: Lifecycle::Idle,
            status: ready_text(),
            session_id: Seq::empty(),
            ..v
        }
    } else {
        v
    }
}

/// The session after a move could not be sent: the user is told why, and
/// nothing else changes.
pub open spec fn after_move_failure(v: SessionView, e: SessionError) -> SessionView {
    SessionView { status: error_text(e), ..v }
}

/// Whether this client may move on the square at `row`, `col` now.
pub open spec fn move_allowed(v: SessionView, row: int, col: int) -> bool {
    &&& v.lifecycle is Active
    &&& v.snapshot.turn == v.identity
    &&& 0 <= row < 3
    &&& 0 <= col < 3
    &&& v.snapshot.cell_at(row, col) == Cell::Empty
}

/// A move to send to the service.
pub struct MoveRequest {
    pub session_id: String,
    pub row: usize,
    pub col: usize,
    pub mover: Identity,
    /// The mover's marker, sent as the move's turn type.
    pub marker: i8,
}

/// The client's whole view of the session, kept behind one lock by its
/// users.
pub struct SessionState {
    lifecycle: Lifecycle,
    status_message: String,
    session_id: String,
    local_identity: Identity,
    snapshot: GameSnapshot,
    poll_loop_running: bool,
}

impl View for SessionState {
    type V = SessionView;

    closed spec fn view(&self) -> SessionView {
        SessionView {
            lifecycle: self.lifecycle,
            status: self.status_message@,
            session_id: self.session_id@,
            identity: self.local_identity,
            snapshot: self.snapshot,
            poll_loop_running: self.poll_loop_running,
        }
    }
}

impl SessionState {
    /// A session before any game: idle, no id, the initial board.
    pub fn new() -> (s: SessionState)
        ensures
            s@.lifecycle == Lifecycle::Idle,
            s@.status == ready_text(),
            s@.session_id.len() == 0,
            s@.identity == Identity::First,
            s@.snapshot.is_initial(),
            !s@.poll_loop_running,
    {
        SessionState {
            lifecycle: Lifecycle::Idle,
            status_message: String::from_str("Ready for new games"),
            session_id: String::new(),
            local_identity: Identity::First,
            snapshot: GameSnapshot::initial(),
            poll_loop_running: false,
        }
    }

    pub fn lifecycle(&self) -> (l: Lifecycle)
        ensures
            l == self@.lifecycle,
    {
        self.lifecycle
    }

    pub fn status_message(&self) -> (t: &str)
        ensures
            t@ == self@.status,
    {
        self.status_message.as_str()
    }

    pub fn session_id(&self) -> (t: &str)
        ensures
            t@ == self@.session_id,
    {
        self.session_id.as_str()
    }

    pub fn local_identity(&self) -> (i: Identity)
        ensures
            i == self@.identity,
    {
        self.local_identity
    }

    pub fn snapshot(&self) -> (s: GameSnapshot)
        ensures
            s == self@.snapshot,
    {
        self.snapshot
    }

    pub fn poll_loop_running(&self) -> (b: bool)
        ensures
            b == self@.poll_loop_running,
    {
        self.poll_loop_running
    }

    /// Marks the poll loop as started. Returns whether the caller is the one
    /// to start it, that is whether none was running before.
    pub fn claim_poll_loop(&mut self) -> (start: bool)
        ensures
            start == !old(self)@.poll_loop_running,
            final(self)@ == (SessionView { poll_loop_running: true, ..old(self)@ }),
    {
        let start = !self.poll_loop_running;
        self.poll_loop_running = true;
        start
    }

    /// Whether the poll loop should fetch the game state on this tick.
    pub fn poll_due(&self) -> (due: bool)
        ensures
            due == (self@.lifecycle is Active),
    {
        self.lifecycle == Lifecycle::Active
    }

    /// Returns a finished session to idle, ready for a new game. Returns
    /// whether it did.
    pub fn new_game(&mut self) -> (reset: bool)
        ensures
            reset == (old(self)@.lifecycle is Terminated),
            final(self)@ == after_new_game(old(self)@),
    {
        if let Lifecycle::Terminated(_) = self.lifecycle {
            self.lifecycle = Lifecycle::Idle;
            self.status_message = String::from_str("Ready for new games");
            self.session_id = String::new();
            true
        } else {
            false
        }
    }

    fn fail(&mut self, e: SessionError)
        ensures
            final(self)@ == after_failure(old(self)@, e),
    {
        self.lifecycle = Lifecycle::Terminated(EndReason::Error);
        self.status_message = describe_error(e);
    }

    fn start(&mut self, id: String, me: Identity)
        ensures
            final(self)@ == after_start(old(self)@, id@, me),
    {
        self.session_id = id;
        self.local_identity = me;
        self.lifecycle = Lifecycle::AwaitingOpponent;
        self.status_message = String::from_str("Waiting for an opponent");
        self.snapshot = GameSnapshot::initial();
    }

    /// Takes the service's answer to a create request: its status code and
    /// body, or why there was none. Returns whether the join-wait loop is to
    /// be started.
    pub fn finish_create(&mut self, response: Result<(u16, String), SessionError>) -> (wait: bool)
        ensures
            final(self)@ == after_create(old(self)@, response),
            wait == (old(self)@.lifecycle is Idle && create_accepted(response)),
    {
        if self.lifecycle != Lifecycle::Idle {
            return false;
        }
        match response {
            Ok((code, body)) => {
                if code == 201 {
                    self.start(body, Identity::Second);
                    true
                } else {
                    self.fail(SessionError::Status(code));
                    false
                }
            },
            Err(e) => {
                self.fail(e);
                false
            },
        }
    }

    /// Takes the service's answer to a join request: its status code and
    /// body, or why there was none. Returns whether the join-wait loop is to
    /// be started.
    pub fn finish_join(&mut self, response: Result<(u16, String), SessionError>) -> (wait: bool)
        ensures
            final(self)@ == after_join(old(self)@, response),
            wait == (old(self)@.lifecycle is Idle && join_accepted(response)),
    {
        if self.lifecycle != Lifecycle::Idle {
            return false;
        }
        match response {
            Ok((code, body)) => {
                if is_success(code) {
                    self.start(body, Identity::First);
                    true
                } else {
                    self.fail(SessionError::Status(code));
                    false
                }
            },
            Err(e) => {
                self.fail(e);
                false
            },
        }
    }

    /// Takes one answer to "has the opponent joined?". Returns whether the
    /// join-wait loop goes on: it stops once the opponent is there, or once
    /// the session is no longer waiting for one. Failed checks are retried.
    pub fn join_check(&mut self, reply: Result<(u16, bool), SessionError>) -> (go_on: bool)
        ensures
            final(self)@ == after_join_check(old(self)@, reply),
            go_on == join_wait_continues(old(self)@, reply),
    {
        if self.lifecycle != Lifecycle::AwaitingOpponent {
            return false;
        }
        match reply {
            Ok((code, true)) => {
                let mut text = String::from_str("Status code : ");
                push_decimal(&mut text, code);
                self.lifecycle = Lifecycle::Active;
                self.status_message = text;
                false
            },
            _ => true,
        }
    }

    /// Takes the result of the poll loop's fetch for session `id`. Returns
    /// whether the session changed, so that the display is to be refreshed.
    pub fn apply_poll(&mut self, id: &str, fetched: Result<GameSnapshot, SessionError>) -> (changed:
        bool)
        ensures
            final(self)@ == after_poll(old(self)@, id@, fetched),
            changed == (old(self)@.lifecycle is Active && id@ == old(self)@.session_id
                && fetched is Ok),
    {
        if self.lifecycle != Lifecycle::Active || !same_text(id, self.session_id.as_str()) {
            return false;
        }
        match fetched {
            Ok(s) => {
                self.snapshot = s;
                match s.winner {
                    Winner::Nobody => {},
                    Winner::First => self.finish_game(Identity::First),
                    Winner::Second => self.finish_game(Identity::Second),
                    Winner::Draw => {
                        self.lifecycle = Lifecycle::Terminated(EndReason::Draw);
                        self.status_message = String::from_str("Draw");
                    },
                }
                true
            },
            Err(_) => false,
        }
    }

    fn finish_game(&mut self, winner: Identity)
        ensures
            final(self)@ == (SessionView {
                lifecycle: Lifecycle::Terminated(EndReason::Won(winner)),
                status: if winner == old(self)@.identity {
                    won_text()
                } else {
                    lost_text()
                },
                ..old(self)@
            }),
    {
        self.lifecycle = Lifecycle::Terminated(EndReason::Won(winner));
        if winner == self.local_identity {
            self.status_message = String::from_str("You won");
        } else {
            self.status_message = String::from_str("You lost");
        }
    }

    /// Checks a user's move on the square at `row`, `col` against the
    /// current session. Gives the request to send when the session is
    /// active, it is this client's turn and the square is empty; otherwise
    /// the move is ignored and nothing is to be sent.
    pub fn attempt_move(&self, row: usize, col: usize) -> (m: Option<MoveRequest>)
        ensures
            m is Some <==> move_allowed(self@, row as int, col as int),
            m matches Some(r) ==> {
                &&& r.session_id@ == self@.session_id
                &&& r.row == row
                &&& r.col == col
                &&& r.mover == self@.identity
                &&& r.marker as int == marker_of(self@.identity)
            },
    {
        if self.lifecycle != Lifecycle::Active || self.snapshot.turn != self.local_identity
            || row >= 3 || col >= 3 {
            return None;
        }
        if self.snapshot.cell(row, col) != Cell::Empty {
            return None;
        }
        Some(
            MoveRequest {
                session_id: self.session_id.clone(),
                row,
                col,
                mover: self.local_identity,
                marker: self.local_identity.marker(),
            },
        )
    }

    /// Takes a state of session `id` fetched after `mover` moved. Returns
    /// whether the move was taken: the turn has passed to the other player,
    /// or the game has a result. The state is kept then, and only then,
    /// provided it is of this session.
    pub fn confirm_move(&mut self, id: &str, mover: Identity, fetched: GameSnapshot) -> (done:
        bool)
        ensures
            done == handed_over(mover, fetched),
            final(self)@ == after_confirm(old(self)@, id@, mover, fetched),
    {
        let taken = fetched.turn != mover || fetched.winner != Winner::Nobody;
        if taken && same_text(id, self.session_id.as_str()) {
            self.snapshot = fetched;
        }
        taken
    }

    /// Tells the user that a move could not be sent. The session itself
    /// stays as it is: a move is never sent again unasked.
    pub fn move_failed(&mut self, e: SessionError)
        ensures
            final(self)@ == after_move_failure(old(self)@, e),
    {
        self.status_message = describe_error(e);
    }
}

} // verus!
