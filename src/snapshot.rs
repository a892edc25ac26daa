use vstd::prelude::*;

use crate::error::SessionError;

verus! {

/// Which of the two turn slots a player occupies.
#[derive(Clone, Copy, Debug, PartialEq, Eq, Structural)]
pub enum Identity {
    First,
    Second,
}

/// The value the service uses on the board and in a move for each slot.
pub open spec fn marker_of(i: Identity) -> int {
    match i {
        Identity::First => 1,
        Identity::Second => -1,
    }
}

impl Identity {
    /// The marker sent along with a move by this player.
    pub fn marker(&self) -> (m: i8)
        ensures
            m as int == marker_of(*self),
    {
        match self {
            Identity::First => 1,
            Identity::Second => -1,
        }
    }
}

/// One square of the board.
#[derive(Clone, Copy, Debug, PartialEq, Eq, Structural)]
pub enum Cell {
    Empty,
    First,
    Second,
}

/// Who has won, as the service reports it.
#[derive(Clone, Copy, Debug, PartialEq, Eq, Structural)]
pub enum Winner {
    Nobody,
    First,
    Second,
    Draw,
}

/// The service's board value for a square: `0` empty, `1` first, `-1` second.
pub open spec fn cell_from(v: i8) -> Option<Cell> {
    if v == 0 {
        Some(Cell::Empty)
    } else if v == 1 {
        Some(Cell::First)
    } else if v == -1 {
        Some(Cell::Second)
    } else {
        None
    }
}

/// The service's name for a turn slot.
pub open spec fn turn_from(s: Seq<char>) -> Option<Identity> {
    if s == "FIRST"@ {
        Some(Identity::First)
    } else if s == "SECOND"@ {
        Some(Identity::Second)
    } else {
        None
    }
}

/// The service's name for the game's result.
pub open spec fn winner_from(s: Seq<char>) -> Option<Winner> {
    if s == "NONE"@ {
        Some(Winner::Nobody)
    } else if s == "FIRST"@ {
        Some(Winner::First)
    } else if s == "SECOND"@ {
        Some(Winner::Second)
    } else if s == "DRAW"@ {
        Some(Winner::Draw)
    } else {
        None
    }
}

/// The authoritative state of one game at the moment it was fetched.
/// It is replaced as a whole, never changed in place.
#[derive(Clone, Copy, Debug)]
pub struct GameSnapshot {
    pub board: [[Cell; 3]; 3],
    pub turn: Identity,
    pub winner: Winner,
}

/// The state of a game before anyone has moved.
pub open spec fn initial_snapshot() -> GameSnapshot {
    let row = [Cell::Empty, Cell::Empty, Cell::Empty];
    GameSnapshot { board: [row, row, row], turn: Identity::First, winner: Winner::Nobody }
}

impl GameSnapshot {
    pub open spec fn cell_at(self, r: int, c: int) -> Cell {
        self.board@[r]@[c]
    }

    /// The state of a game before anyone has moved.
    pub open spec fn is_initial(self) -> bool {
        &&& forall|r: int, c: int| 0 <= r < 3 && 0 <= c < 3 ==> self.cell_at(r, c) == Cell::Empty
        &&& self.turn == Identity::First
        &&& self.winner == Winner::Nobody
    }

    pub fn initial() -> (s: GameSnapshot)
        ensures
            s == initial_snapshot(),
            s.is_initial(),
    {
        let row = [Cell::Empty, Cell::Empty, Cell::Empty];
        GameSnapshot { board: [row, row, row], turn: Identity::First, winner: Winner::Nobody }
    }

    /// The square at `row`, `col`.
    pub fn cell(&self, row: usize, col: usize) -> (c: Cell)
        requires
            row < 3,
            col < 3,
        ensures
            c == self.cell_at(row as int, col as int),
    {
        self.board[row][col]
    }
}

/// A game state as the service sends it: a grid of markers and two names.
pub struct GameData {
    pub field: Vec<Vec<i8>>,
    pub winner: String,
    pub turn: String,
}

/// Every row of the grid has three valid markers, and there are three rows.
pub open spec fn field_ok(f: Seq<Vec<i8>>) -> bool {
    &&& f.len() == 3
    &&& forall|r: int| 0 <= r < 3 ==> #[trigger] f[r]@.len() == 3
    &&& forall|r: int, c: int| 0 <= r < 3 && 0 <= c < 3 ==> (#[trigger] cell_from(f[r]@[c])) is Some
}

impl GameData {
    /// The data can be read as a game state.
    pub open spec fn decodable(self) -> bool {
        &&& field_ok(self.field@)
        &&& turn_from(self.turn@) is Some
        &&& winner_from(self.winner@) is Some
    }

    /// `s` holds exactly what the data says.
    pub open spec fn decodes_to(self, s: GameSnapshot) -> bool {
        &&& forall|r: int, c: int|
            0 <= r < 3 && 0 <= c < 3 ==> cell_from(self.field@[r]@[c]) == Some(
                #[trigger] s.cell_at(r, c),
            )
        &&& turn_from(self.turn@) == Some(s.turn)
        &&& winner_from(self.winner@) == Some(s.winner)
    }

    /// The data of a game before anyone has moved.
    pub fn new() -> (d: GameData)
        ensures
            d.field@.len() == 3,
            forall|r: int| 0 <= r < 3 ==> #[trigger] d.field@[r]@ == seq![0i8, 0i8, 0i8],
            d.winner@ == "NONE"@,
            d.turn@ == "FIRST"@,
    {
        GameData {
            field: vec![vec![0, 0, 0], vec![0, 0, 0], vec![0, 0, 0]],
            winner: String::from_str("NONE"),
            turn: String::from_str("FIRST"),
        }
    }

    /// Reads the data as a game state; fails with `Decode` exactly when it
    /// is not one.
    pub fn decode(&self) -> (r: Result<GameSnapshot, SessionError>)
        ensures
            r is Ok <==> self.decodable(),
            r matches Ok(s) ==> self.decodes_to(s),
            r matches Err(e) ==> e == SessionError::Decode,
    {
        let turn = match turn_from_text(self.turn.as_str()) {
            Some(t) => t,
            None => return Err(SessionError::Decode),
        };
        let winner = match winner_from_text(self.winner.as_str()) {
            Some(w) => w,
            None => return Err(SessionError::Decode),
        };
        if self.field.len() != 3 {
            return Err(SessionError::Decode);
        }
        let mut board = [[Cell::Empty, Cell::Empty, Cell::Empty]; 3];
        let mut r: usize = 0;
        while r < 3
            invariant
                r <= 3,
                self.field@.len() == 3,
                turn_from(self.turn@) == Some(turn),
                winner_from(self.winner@) == Some(winner),
                forall|i: int| 0 <= i < r ==> #[trigger] self.field@[i]@.len() == 3,
                forall|i: int, c: int|
                    0 <= i < r && 0 <= c < 3 ==> cell_from(self.field@[i]@[c]) == Some(
                        #[trigger] board@[i]@[c],
                    ),
            decreases 3 - r,
        {
            let row = &self.field[r];
            if row.len() != 3 {
                return Err(SessionError::Decode);
            }
            let mut cells = [Cell::Empty, Cell::Empty, Cell::Empty];
            let mut c: usize = 0;
            while c < 3
                invariant
                    c <= 3,
                    r < 3,
                    self.field@.len() == 3,
                    row@ == self.field@[r as int]@,
                    row@.len() == 3,
                    forall|j: int| 0 <= j < c ==> cell_from(row@[j]) == Some(#[trigger] cells@[j]),
                decreases 3 - c,
            {
                match cell_from_value(row[c]) {
                    Some(x) => {
                        cells[c] = x;
                    },
                    None => {
                        assert(cell_from(self.field@[r as int]@[c as int]) is None);
                        return Err(SessionError::Decode);
                    },
                }
                c += 1;
            }
            board[r] = cells;
            r += 1;
        }
        let s = GameSnapshot { board, turn, winner };
        assert forall|i: int, c: int| 0 <= i < 3 && 0 <= c < 3 implies (#[trigger] cell_from(
            self.field@[i]@[c],
        )) is Some by {
            assert(cell_from(self.field@[i]@[c]) == Some(board@[i]@[c]));
        }
        assert(field_ok(self.field@));
        Ok(s)
    }
}

fn cell_from_value(v: i8) -> (r: Option<Cell>)
    ensures
        r == cell_from(v),
{
    if v == 0 {
        Some(Cell::Empty)
    } else if v == 1 {
        Some(Cell::First)
    } else if v == -1 {
        Some(Cell::Second)
    } else {
        None
    }
}

/// Whether two strings hold the same characters.
pub(crate) fn same_text(s: &str, t: &str) -> (r: bool)
    ensures
        r == (s@ == t@),
{
    let n = s.unicode_len();
    if n != t.unicode_len() {
        return false;
    }
    let mut i: usize = 0;
    while i < n
        invariant
            i <= n,
            n == s@.len(),
            n == t@.len(),
            forall|j: int| 0 <= j < i ==> s@[j] == t@[j],
        decreases n - i,
    {
        if s.get_char(i) != t.get_char(i) {
            return false;
        }
        i += 1;
    }
    assert(s@ =~= t@);
    true
}

fn turn_from_text(s: &str) -> (r: Option<Identity>)
    ensures
        r == turn_from(s@),
{
    if same_text(s, "FIRST") {
        Some(Identity::First)
    } else if same_text(s, "SECOND") {
        Some(Identity::Second)
    } else {
        None
    }
}

fn winner_from_text(s: &str) -> (r: Option<Winner>)
    ensures
        r == winner_from(s@),
{
    if same_text(s, "NONE") {
        Some(Winner::Nobody)
    } else if same_text(s, "FIRST") {
        Some(Winner::First)
    } else if same_text(s, "SECOND") {
        Some(Winner::Second)
    } else if same_text(s, "DRAW") {
        Some(Winner::Draw)
    } else {
        None
    }
}

} // verus!
