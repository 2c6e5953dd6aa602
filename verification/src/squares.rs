//! The grid and its proof-carrying move types: cell contents (`TileFill`),
//! bounds-checked coordinates (`RowTarget`, `ColumnTarget`), moves validated
//! against a board snapshot (`ValidMove`), and the `Board` itself with its
//! terminal-state queries.

use vstd::prelude::*;

verus! {

/// Side length of the fixed square grid.
pub const N: usize = 3;

/// The content of one cell: empty, or one of the two real players.
/// The same type doubles as the "whose turn is it" token.
#[derive(Clone, Copy, Debug, PartialEq, Eq, Structural)]
pub enum TileFill {
    Empty,
    O,
    X,
}

impl TileFill {
    /// A real player, as opposed to the empty marker.
    pub open spec fn is_player(self) -> bool {
        self != TileFill::Empty
    }

    /// The player who moves after `self`; meaningful only for real players.
    pub open spec fn spec_next_player(self) -> TileFill
        recommends
            self.is_player(),
    {
        match self {
            TileFill::O => TileFill::X,
            _ => TileFill::O,
        }
    }

    /// Turn alternation: the other real player. Empty is categorically not a
    /// player, so it is excluded by precondition rather than handled.
    pub fn get_next_player(&self) -> (next: TileFill)
        requires
            self.is_player(),
        ensures
            next == self.spec_next_player(),
            next.is_player(),
            next != *self,
    {
        match self {
            TileFill::O => TileFill::X,
            _ => TileFill::O,
        }
    }

    /// The single distinguishing glyph used when rendering a cell.
    pub open spec fn spec_symbol(self) -> char {
        match self {
            TileFill::Empty => '-',
            TileFill::O => 'O',
            TileFill::X => 'X',
        }
    }

    /// Executable counterpart of [`Self::spec_symbol`], for display code.
    pub fn symbol(&self) -> (glyph: char)
        ensures
            glyph == self.spec_symbol(),
    {
        match self {
            TileFill::Empty => '-',
            TileFill::O => 'O',
            TileFill::X => 'X',
        }
    }
}

/// A row index proven, at construction, to lie within `[0, N)`.
///
/// Rows and columns are distinct types so the two axes cannot be
/// transposed by accident.
#[derive(Clone, Copy, Debug, PartialEq, Eq, Structural)]
pub struct RowTarget {
    value: usize,
}

impl View for RowTarget {
    type V = int;

    closed spec fn view(&self) -> int {
        self.value as int
    }
}

impl RowTarget {
    /// The wrapped index lies within the grid.
    pub open spec fn wf(self) -> bool {
        0 <= self@ < N
    }

    /// The single validation gate for row indices: succeeds exactly on
    /// raw values below `N`, and otherwise reports a descriptive error
    /// for the caller to re-prompt on.
    pub fn try_from(value: usize) -> (result: Result<Self, &'static str>)
        ensures
            result is Ok <==> value < N,
            result matches Ok(row) ==> row.wf() && row@ == value,
            result matches Err(message) ==> message@ == "The value is out of range. Try again."@,
    {
        if value < N {
            Ok(RowTarget { value })
        } else {
            Err("The value is out of range. Try again.")
        }
    }

    /// The raw index back out, for display code.
    pub fn value(&self) -> (value: usize)
        ensures
            value == self@,
    {
        self.value
    }
}

/// A column index proven, at construction, to lie within `[0, N)`.
#[derive(Clone, Copy, Debug, PartialEq, Eq, Structural)]
pub struct ColumnTarget {
    value: usize,
}

impl View for ColumnTarget {
    type V = int;

    closed spec fn view(&self) -> int {
        self.value as int
    }
}

impl ColumnTarget {
    /// The wrapped index lies within the grid.
    pub open spec fn wf(self) -> bool {
        0 <= self@ < N
    }

    /// The single validation gate for column indices: succeeds exactly on
    /// raw values below `N`.
    pub fn try_from(value: usize) -> (result: Result<Self, &'static str>)
        ensures
            result is Ok <==> value < N,
            result matches Ok(column) ==> column.wf() && column@ == value,
            result matches Err(message) ==> message@ == "The value is out of range. Try again."@,
    {
        if value < N {
            Ok(ColumnTarget { value })
        } else {
            Err("The value is out of range. Try again.")
        }
    }

    /// The raw index back out, for display code.
    pub fn value(&self) -> (value: usize)
        ensures
            value == self@,
    {
        self.value
    }
}

/// Position of cell `(row, column)` in the row-major grid sequence.
pub open spec fn cell_index(row: int, column: int) -> int {
    row * N + column
}

/// Cells `a`, `b`, `c` of the grid hold the same real player.
pub open spec fn line_won(s: Seq<TileFill>, a: int, b: int, c: int) -> bool {
    s[a] != TileFill::Empty && s[a] == s[b] && s[a] == s[c]
}

/// Some full row, full column, or diagonal of the row-major grid is occupied
/// entirely by one real player.
pub open spec fn spec_complete(s: Seq<TileFill>) -> bool {
    ||| line_won(s, 0, 1, 2)
    ||| line_won(s, 3, 4, 5)
    ||| line_won(s, 6, 7, 8)
    ||| line_won(s, 0, 3, 6)
    ||| line_won(s, 1, 4, 7)
    ||| line_won(s, 2, 5, 8)
    ||| line_won(s, 0, 4, 8)
    ||| line_won(s, 2, 4, 6)
}

/// Every cell of the grid is occupied by a real player.
pub open spec fn spec_full(s: Seq<TileFill>) -> bool {
    forall|i: int| 0 <= i < s.len() ==> s[i] != TileFill::Empty
}

/// The grid is full and no line is won.
pub open spec fn spec_draw(s: Seq<TileFill>) -> bool {
    spec_full(s) && !spec_complete(s)
}

/// A fully occupied grid on which neither player holds a complete line is
/// exactly a draw.
pub proof fn lemma_full_without_line_is_draw(s: Seq<TileFill>)
    requires
        s.len() == N * N,
        spec_full(s),
        !spec_complete(s),
    ensures
        spec_draw(s),
{
}

/// The `N`-by-`N` grid, stored row-major. A board value is structurally
/// immutable once built: `make_move` returns a brand-new board.
pub struct Board {
    cells: Vec<TileFill>,
}

impl View for Board {
    type V = Seq<TileFill>;

    closed spec fn view(&self) -> Seq<TileFill> {
        self.cells@
    }
}

impl Board {
    /// Exactly one tile occupies each of the `N * N` cells.
    pub open spec fn wf(self) -> bool {
        self@.len() == N * N
    }

    /// A new board equal to `self` except that the targeted cell now holds
    /// `player`. The `ValidMove` precondition ties the move to this very
    /// board: the targeted cell must still be empty here, which rules out
    /// applying a move validated against a different snapshot.
    pub fn make_move(&self, player: TileFill, mv: &ValidMove) -> (board: Board)
        requires
            self.wf(),
            player.is_player(),
            mv.wf(),
            self@[mv.spec_index()] == TileFill::Empty,
        ensures
            board.wf(),
            board@[mv.spec_index()] == player,
            forall|i: int|
                0 <= i < self@.len() && i != mv.spec_index() ==> board@[i] == self@[i],
    {
        let target: usize = mv.row.value * N + mv.column.value;
        let mut cells: Vec<TileFill> = Vec::new();
        let mut i: usize = 0;
        while i < N * N
            invariant
                i <= N * N,
                self.wf(),
                cells@.len() == i,
                target == mv.spec_index(),
                forall|j: int| 0 <= j < i && j != target ==> cells@[j] == self@[j],
                target < i ==> cells@[target as int] == player,
            decreases N * N - i,
        {
            if i == target {
                cells.push(player);
            } else {
                cells.push(self.cells[i]);
            }
            i = i + 1;
        }
        Board { cells }
    }

    /// True exactly when some full row, full column, or diagonal is occupied
    /// entirely by the same real player.
    pub fn is_complete(&self) -> (complete: bool)
        requires
            self.wf(),
        ensures
            complete == spec_complete(self@),
    {
        self.line_filled(0, 1, 2) || self.line_filled(3, 4, 5) || self.line_filled(6, 7, 8)
            || self.line_filled(0, 3, 6) || self.line_filled(1, 4, 7) || self.line_filled(2, 5, 8)
            || self.line_filled(0, 4, 8) || self.line_filled(2, 4, 6)
    }

    /// True exactly when every cell is occupied and no line is won: a full
    /// board with a winning line is a win, not a draw.
    pub fn is_draw(&self) -> (draw: bool)
        requires
            self.wf(),
        ensures
            draw == spec_draw(self@),
    {
        let mut i: usize = 0;
        let mut full = true;
        while i < N * N
            invariant
                i <= N * N,
                self.wf(),
                full <==> (forall|j: int| 0 <= j < i ==> self@[j] != TileFill::Empty),
            decreases N * N - i,
        {
            if self.cells[i] == TileFill::Empty {
                full = false;
            }
            i = i + 1;
        }
        full && !self.is_complete()
    }

    /// One line of the grid is occupied entirely by the same real player.
    fn line_filled(&self, a: usize, b: usize, c: usize) -> (filled: bool)
        requires
            self.wf(),
            a < N * N,
            b < N * N,
            c < N * N,
        ensures
            filled == line_won(self@, a as int, b as int, c as int),
    {
        self.cells[a] != TileFill::Empty && self.cells[a] == self.cells[b] && self.cells[a]
            == self.cells[c]
    }

    /// Read-only lookup of one cell.
    pub fn cell(&self, row: RowTarget, column: ColumnTarget) -> (tile: TileFill)
        requires
            self.wf(),
            row.wf(),
            column.wf(),
        ensures
            tile == self@[cell_index(row@, column@)],
    {
        self.cells[row.value * N + column.value]
    }
}

impl Default for Board {
    /// A fresh board: every cell empty.
    fn default() -> (board: Board)
        ensures
            board.wf(),
            forall|i: int| 0 <= i < board@.len() ==> board@[i] == TileFill::Empty,
    {
        let mut cells: Vec<TileFill> = Vec::new();
        let mut i: usize = 0;
        while i < N * N
            invariant
                i <= N * N,
                cells@.len() == i,
                forall|j: int| 0 <= j < i ==> cells@[j] == TileFill::Empty,
            decreases N * N - i,
        {
            cells.push(TileFill::Empty);
            i = i + 1;
        }
        Board { cells }
    }
}

/// A coordinate pair checked, against a specific board snapshot, to target
/// a cell that was empty there. Holding one is the caller's proof that the
/// targeted cell is writable on that board.
pub struct ValidMove {
    row: RowTarget,
    column: ColumnTarget,
}

impl ValidMove {
    /// The validated row index.
    pub closed spec fn spec_row(self) -> int {
        self.row@
    }

    /// The validated column index.
    pub closed spec fn spec_column(self) -> int {
        self.column@
    }

    /// Position of the targeted cell in the row-major grid sequence.
    pub open spec fn spec_index(self) -> int {
        cell_index(self.spec_row(), self.spec_column())
    }

    /// Both coordinates lie within the grid.
    pub open spec fn wf(self) -> bool {
        0 <= self.spec_row() < N && 0 <= self.spec_column() < N
    }

    /// The one gate user coordinates pass before being applied: populated
    /// exactly when the targeted cell is empty on `board`. Pure; the board
    /// is never touched.
    pub fn new(board: &Board, row: RowTarget, column: ColumnTarget) -> (result: Option<
        ValidMove,
    >)
        requires
            board.wf(),
            row.wf(),
            column.wf(),
        ensures
            result is Some <==> board@[cell_index(row@, column@)] == TileFill::Empty,
            result matches Some(mv) ==> mv.wf() && mv.spec_row() == row@ && mv.spec_column()
                == column@,
    {
        if board.cell(row, column) == TileFill::Empty {
            Some(ValidMove { row, column })
        } else {
            None
        }
    }
}

} // verus!
