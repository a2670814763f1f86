use vstd::prelude::*;

use crate::space::{Space, glyph};
use crate::grid::string_from_chars;

verus! {

/// Why a move was refused.
#[derive(Clone, Copy, Debug, PartialEq, Eq, Structural)]
pub enum ErrorKind {
    /// A position on a board outside 1..=9.
    InvalidPosition,
    /// A cell index given to the giant board outside 1..=9.
    InvalidCellIndex,
    /// A board index given to the giant board outside 1..=9.
    InvalidBoardIndex,
    /// The target cell already holds a mark.
    CellOccupied,
}

/// What a board remembers of its winner.
#[derive(Clone, Copy, Debug, PartialEq, Eq, Structural)]
pub enum Verdict {
    /// Not computed since the last move.
    Unknown,
    /// Computed: no line was complete.
    NoWinner,
    /// Computed: this mark had a complete line.
    Winner(Space),
}

/// Whether the three cells `a`, `b`, `c` of the row-major cells `v` all hold `p`.
pub open spec fn line(v: Seq<Space>, a: int, b: int, c: int, p: Space) -> bool {
    v[a] == p && v[b] == p && v[c] == p
}

/// Whether `p` fills a row, a column or a diagonal of the row-major cells `v`.
pub open spec fn has_line(v: Seq<Space>, p: Space) -> bool {
    line(v, 0, 1, 2, p) || line(v, 3, 4, 5, p) || line(v, 6, 7, 8, p)
        || line(v, 0, 3, 6, p) || line(v, 1, 4, 7, p) || line(v, 2, 5, 8, p)
        || line(v, 0, 4, 8, p) || line(v, 2, 4, 6, p)
}

/// The first of `Cross`, `Circle` that fills a line of `v`, or `Empty`.
pub open spec fn winner(v: Seq<Space>) -> Space {
    if has_line(v, Space::Cross) {
        Space::Cross
    } else if has_line(v, Space::Circle) {
        Space::Circle
    } else {
        Space::Empty
    }
}

/// What `play` on cells `v` at `place` returns.
pub open spec fn play_result(v: Seq<Space>, place: int) -> Result<(), ErrorKind> {
    if place < 1 || place > 9 {
        Err(ErrorKind::InvalidPosition)
    } else if v[place - 1] != Space::Empty {
        Err(ErrorKind::CellOccupied)
    } else {
        Ok(())
    }
}

/// The cells after `play` at `place` with `player` returned `r`.
pub open spec fn cells_after(v: Seq<Space>, place: int, player: Space, r: Result<(), ErrorKind>) -> Seq<Space> {
    if r is Ok {
        v.update(place - 1, player)
    } else {
        v
    }
}

/// What the board remembers after a move: a verdict of no winner is forgotten.
pub open spec fn verdict_after_move(d: Verdict) -> Verdict {
    if d == Verdict::NoWinner {
        Verdict::Unknown
    } else {
        d
    }
}

/// Nine cells, all empty.
pub open spec fn empty_cells() -> Seq<Space> {
    Seq::new(9, |i: int| Space::Empty)
}

/// Row `r` of the cells `v` as text: `a | b | c` and a newline.
pub open spec fn row_text(v: Seq<Space>, r: int) -> Seq<char> {
    seq![glyph(v[3 * r]), ' ', '|', ' ', glyph(v[3 * r + 1]), ' ', '|', ' ', glyph(v[3 * r + 2]), '\n']
}

/// The line drawn between two rows of a board's text.
pub open spec fn rule_text() -> Seq<char> {
    seq!['-', '-', '+', '-', '-', '-', '+', '-', '-', '\n']
}

/// The cells `v` as five lines of text: three rows with rules between them.
pub open spec fn board_text(v: Seq<Space>) -> Seq<char> {
    row_text(v, 0) + rule_text() + row_text(v, 1) + rule_text() + row_text(v, 2)
}

fn push_all(out: &mut Vec<char>, s: &[char])
    ensures
        final(out)@ == old(out)@ + s@,
{
    let ghost start = out@;
    for i in 0..s.len()
        invariant
            out@ == start + s@.subrange(0, i as int),
    {
        out.push(s[i]);
        assert(s@.subrange(0, i + 1) =~= s@.subrange(0, i as int).push(s@[i as int]));
    }
    assert(s@.subrange(0, s@.len() as int) =~= s@);
}

/// One 3×3 tic-tac-toe board and what it remembers of its winner.
#[derive(Clone, Copy, Debug)]
pub struct TicTacToe {
    grid: [[Space; 3]; 3],
    verdict: Verdict,
}

impl View for TicTacToe {
    type V = Seq<Space>;

    /// The nine cells in row-major order.
    closed spec fn view(&self) -> Seq<Space> {
        Seq::new(9, |i: int| self.grid[i / 3][i % 3])
    }
}

impl TicTacToe {
    /// What the board remembers of its winner.
    pub closed spec fn verdict(self) -> Verdict {
        self.verdict
    }

    /// A remembered winner still fills a line, and a remembered absence of
    /// winner is still true.
    pub closed spec fn wf(self) -> bool {
        match self.verdict {
            Verdict::Unknown => true,
            Verdict::NoWinner => winner(self@) == Space::Empty,
            Verdict::Winner(m) => m != Space::Empty && has_line(self@, m),
        }
    }

    /// What `victory` reports: the remembered winner, else the first mark
    /// that fills a line.
    pub open spec fn outcome(self) -> Space {
        match self.verdict() {
            Verdict::Winner(m) => m,
            _ => winner(self@),
        }
    }

    /// An empty board.
    pub fn new() -> (r: TicTacToe)
        ensures
            r.wf(),
            r@ == empty_cells(),
            r.verdict() == Verdict::Unknown,
    {
        let r = TicTacToe { grid: [[Space::Empty; 3]; 3], verdict: Verdict::Unknown };
        assert(r@ =~= empty_cells());
        r
    }

    /// A board holding the row-major `cells`, nothing computed of it yet.
    pub fn from_cells(cells: [Space; 9]) -> (r: TicTacToe)
        ensures
            r.wf(),
            r@ == cells@,
            r.verdict() == Verdict::Unknown,
    {
        let r = TicTacToe {
            grid: [
                [cells[0], cells[1], cells[2]],
                [cells[3], cells[4], cells[5]],
                [cells[6], cells[7], cells[8]],
            ],
            verdict: Verdict::Unknown,
        };
        assert(r@ =~= cells@);
        r
    }

    /// The mark at `row`, `col` (each in 0..3).
    pub fn cell(&self, row: usize, col: usize) -> (r: Space)
        requires
            row < 3,
            col < 3,
        ensures
            r == self@[row * 3 + col],
    {
        self.grid[row][col]
    }

    /// The board as text: three rows `a | b | c`, with `--+---+--` between
    /// them, each line ending in a newline.
    pub fn to_text(&self) -> (r: String)
        ensures
            r@ == board_text(self@),
    {
        let ghost v = self@;
        let mut out: Vec<char> = Vec::new();
        for row in 0..3
            invariant
                v == self@,
                row < 3 ==> out@ == if row == 0 {
                    Seq::empty()
                } else if row == 1 {
                    row_text(v, 0) + rule_text()
                } else {
                    row_text(v, 0) + rule_text() + row_text(v, 1) + rule_text()
                },
                row == 3 ==> out@ == board_text(v),
        {
            let g = &self.grid[row];
            let ghost ri = row as int;
            assert(g[0] == v[3 * ri] && g[1] == v[3 * ri + 1] && g[2] == v[3 * ri + 2]);
            let line = [g[0].to_char(), ' ', '|', ' ', g[1].to_char(), ' ', '|', ' ', g[2].to_char(), '\n'];
            push_all(&mut out, &line);
            assert(line@ =~= row_text(v, ri));
            if row < 2 {
                let rule = ['-', '-', '+', '-', '-', '-', '+', '-', '-', '\n'];
                push_all(&mut out, &rule);
                assert(rule@ =~= rule_text());
            }
        }
        string_from_chars(&out)
    }

    /// Places `player` at `place` (1..=9, row-major). Fails with
    /// `InvalidPosition` outside 1..=9 and with `CellOccupied` on a cell
    /// that is not empty; otherwise sets that one cell.
    pub fn play(&mut self, player: Space, place: usize) -> (r: Result<(), ErrorKind>)
        requires
            old(self).wf(),
        ensures
            final(self).wf(),
            r == play_result(old(self)@, place as int),
            final(self)@ == cells_after(old(self)@, place as int, player, r),
            r is Ok ==> final(self).verdict() == verdict_after_move(old(self).verdict()),
            r is Err ==> *final(self) == *old(self),
    {
        if place == 0 || place > 9 {
            return Err(ErrorKind::InvalidPosition);
        }
        let p = place - 1;
        let row = p / 3;
        let col = p % 3;
        if self.grid[row][col] != Space::Empty {
            return Err(ErrorKind::CellOccupied);
        }
        let ghost before = self@;
        self.grid[row][col] = player;
        if self.verdict == Verdict::NoWinner {
            self.verdict = Verdict::Unknown;
        }
        assert(self@ =~= before.update(p as int, player));
        Ok(())
    }

    /// The winner of the board: the remembered one if any, else the first of
    /// `Cross`, `Circle` that fills a row, a column or a diagonal, else
    /// `Empty`. The result is remembered; the cells do not change.
    pub fn victory(&mut self) -> (r: Space)
        requires
            old(self).wf(),
        ensures
            final(self).wf(),
            r == old(self).outcome(),
            final(self)@ == old(self)@,
            final(self).outcome() == old(self).outcome(),
    {
        if let Verdict::Winner(m) = self.verdict {
            return m;
        }
        let w = self.compute_victory();
        if w == Space::Empty {
            self.verdict = Verdict::NoWinner;
        } else {
            self.verdict = Verdict::Winner(w);
        }
        w
    }

    /// The first of `Cross`, `Circle` that fills a row, a column or a
    /// diagonal, else `Empty`.
    pub fn compute_victory(&self) -> (r: Space)
        ensures
            r == winner(self@),
    {
        let g = &self.grid;
        let ghost v = self@;
        assert(v[0] == g[0][0] && v[1] == g[0][1] && v[2] == g[0][2]);
        assert(v[3] == g[1][0] && v[4] == g[1][1] && v[5] == g[1][2]);
        assert(v[6] == g[2][0] && v[7] == g[2][1] && v[8] == g[2][2]);
        let marks = [Space::Cross, Space::Circle];
        for k in 0..2
            invariant
                g == &self.grid,
                v == self@,
                v[0] == g[0][0] && v[1] == g[0][1] && v[2] == g[0][2],
                v[3] == g[1][0] && v[4] == g[1][1] && v[5] == g[1][2],
                v[6] == g[2][0] && v[7] == g[2][1] && v[8] == g[2][2],
                marks@ == seq![Space::Cross, Space::Circle],
                forall|j: int| 0 <= j < k ==> !has_line(v, #[trigger] marks@[j]),
        {
            let p = marks[k];
            for c in 0..3
                invariant
                    g == &self.grid,
                    v == self@,
                    c <= 3,
                    k < 2,
                    v[0] == g[0][0] && v[1] == g[0][1] && v[2] == g[0][2],
                    v[3] == g[1][0] && v[4] == g[1][1] && v[5] == g[1][2],
                    v[6] == g[2][0] && v[7] == g[2][1] && v[8] == g[2][2],
                    marks@ == seq![Space::Cross, Space::Circle],
                    forall|j: int| 0 <= j < k ==> !has_line(v, #[trigger] marks@[j]),
                    p == marks@[k as int],
                    c > 0 ==> !line(v, 0, 1, 2, p) && !line(v, 0, 3, 6, p),
                    c > 1 ==> !line(v, 3, 4, 5, p) && !line(v, 1, 4, 7, p),
                    c > 2 ==> !line(v, 6, 7, 8, p) && !line(v, 2, 5, 8, p),
            {
                let ghost ci = c as int;
                assert(g[ci][0] == v[3 * ci] && g[ci][1] == v[3 * ci + 1] && g[ci][2] == v[3 * ci + 2]);
                assert(g[0][ci] == v[ci] && g[1][ci] == v[ci + 3] && g[2][ci] == v[ci + 6]);
                if g[c][0] == p && g[c][1] == p && g[c][2] == p {
                    return p;
                }
                if g[0][c] == p && g[1][c] == p && g[2][c] == p {
                    return p;
                }
            }
            if g[0][0] == p && g[1][1] == p && g[2][2] == p {
                return p;
            }
            if g[0][2] == p && g[1][1] == p && g[2][0] == p {
                return p;
            }
            assert(!line(v, 0, 1, 2, p) && !line(v, 3, 4, 5, p) && !line(v, 6, 7, 8, p));
            assert(!line(v, 0, 3, 6, p) && !line(v, 1, 4, 7, p) && !line(v, 2, 5, 8, p));
        }
        assert(!has_line(v, marks@[0]) && !has_line(v, marks@[1]));
        Space::Empty
    }
}

/// On an empty board a mark is taken at every position in 1..=9, and a
/// second mark at that same position is then refused as occupied.
pub proof fn lemma_empty_board_takes_each_place_once(player: Space, place: int)
    requires
        1 <= place <= 9,
        player != Space::Empty,
    ensures
        play_result(empty_cells(), place) is Ok,
        play_result(cells_after(empty_cells(), place, player, play_result(empty_cells(), place)), place)
            == Err::<(), ErrorKind>(ErrorKind::CellOccupied),
{
}

/// Whatever the cells, a position outside 1..=9 (0 and 10 among them) is
/// refused as invalid and leaves the cells as they were.
pub proof fn lemma_out_of_range_place_refused(v: Seq<Space>, player: Space, place: int)
    requires
        place < 1 || place > 9,
    ensures
        play_result(v, place) == Err::<(), ErrorKind>(ErrorKind::InvalidPosition),
        cells_after(v, place, player, play_result(v, place)) == v,
{
}

/// What `victory` reports on a well-formed board fills a line, and it is
/// `Empty` exactly when no mark fills one.
pub proof fn lemma_outcome_fills_line(b: TicTacToe)
    requires
        b.wf(),
    ensures
        b.outcome() != Space::Empty ==> has_line(b@, b.outcome()),
        b.outcome() == Space::Empty <==> winner(b@) == Space::Empty,
{
}

impl Default for TicTacToe {
    fn default() -> (r: TicTacToe)
        ensures
            r.wf(),
            r@ == empty_cells(),
            r.verdict() == Verdict::Unknown,
    {
        TicTacToe::new()
    }
}

} // verus!
