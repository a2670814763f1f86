use vstd::prelude::*;

use crate::board::{
    ErrorKind, TicTacToe, Verdict, empty_cells, has_line, lemma_outcome_fills_line,
    verdict_after_move, winner,
};
use crate::space::Space;

verus! {

/// What `GiantTicTacToe::play` returns on `boards` (row-major) for board
/// index `grid` and cell index `cell`.
pub open spec fn giant_play_result(boards: Seq<TicTacToe>, grid: int, cell: int) -> Result<(), ErrorKind> {
    if grid < 1 || grid > 9 {
        Err(ErrorKind::InvalidBoardIndex)
    } else if cell < 1 || cell > 9 {
        Err(ErrorKind::InvalidCellIndex)
    } else if boards[grid - 1]@[cell - 1] != Space::Empty {
        Err(ErrorKind::CellOccupied)
    } else {
        Ok(())
    }
}

/// How `GiantTicTacToe::play` with `player`, `grid`, `cell` that returned `r`
/// takes `before` to `after`: unchanged on failure; on success the cell of
/// the board is set, the board forgets a verdict of no winner, and the other
/// boards stay as they were.
pub open spec fn played(
    before: GiantTicTacToe,
    after: GiantTicTacToe,
    player: Space,
    grid: int,
    cell: int,
    r: Result<(), ErrorKind>,
) -> bool {
    if r is Err {
        after == before
    } else {
        let g = grid - 1;
        &&& after.boards()[g]@ == before.boards()[g]@.update(cell - 1, player)
        &&& after.boards()[g].verdict() == verdict_after_move(before.boards()[g].verdict())
        &&& forall|i: int| 0 <= i < 9 && i != g ==> #[trigger] after.boards()[i] == before.boards()[i]
    }
}

/// Ultimate tic-tac-toe: a 3×3 arrangement of tic-tac-toe boards.
#[derive(Clone, Copy, Debug)]
pub struct GiantTicTacToe {
    grid: [[TicTacToe; 3]; 3],
}

impl GiantTicTacToe {
    /// The nine boards in row-major order.
    pub closed spec fn boards(self) -> Seq<TicTacToe> {
        Seq::new(9, |i: int| self.grid[i / 3][i % 3])
    }

    /// Every board is well formed.
    pub open spec fn wf(self) -> bool {
        forall|i: int| 0 <= i < 9 ==> #[trigger] self.boards()[i].wf()
    }

    /// What each board reports as its winner, row-major.
    pub open spec fn outcomes(self) -> Seq<Space> {
        Seq::new(9, |i: int| self.boards()[i].outcome())
    }

    /// Nine empty boards.
    pub fn new() -> (r: GiantTicTacToe)
        ensures
            r.wf(),
            forall|i: int|
                0 <= i < 9 ==> (#[trigger] r.boards()[i])@ == empty_cells() && r.boards()[i].verdict()
                    == Verdict::Unknown,
    {
        let b = TicTacToe::new();
        GiantTicTacToe { grid: [[b; 3]; 3] }
    }

    /// The board at `row`, `col` (each in 0..3).
    pub fn sub_board(&self, row: usize, col: usize) -> (r: &TicTacToe)
        requires
            row < 3,
            col < 3,
        ensures
            *r == self.boards()[row * 3 + col],
    {
        &self.grid[row][col]
    }

    /// Places `player` on board `grid` at cell `cell`, both numbered 1..=9
    /// row-major. Fails with `InvalidBoardIndex` for a board index outside
    /// 1..=9, then with `InvalidCellIndex` for a cell index outside 1..=9,
    /// then with `CellOccupied`; a failed move changes nothing. Any board may
    /// be played on, won or not.
    pub fn play(&mut self, player: Space, grid: usize, cell: usize) -> (r: Result<(), ErrorKind>)
        requires
            old(self).wf(),
        ensures
            final(self).wf(),
            r == giant_play_result(old(self).boards(), grid as int, cell as int),
            played(*old(self), *final(self), player, grid as int, cell as int, r),
    {
        if grid == 0 || grid > 9 {
            return Err(ErrorKind::InvalidBoardIndex);
        }
        if cell == 0 || cell > 9 {
            return Err(ErrorKind::InvalidCellIndex);
        }
        let g = grid - 1;
        let row = g / 3;
        let col = g % 3;
        let ghost before = self.boards();
        let mut b = self.grid[row][col];
        assert(b == before[g as int]);
        let res = b.play(player, cell);
        match res {
            Ok(()) => {
                self.grid[row][col] = b;
                assert(self.boards() =~= before.update(g as int, b));
                Ok(())
            },
            Err(e) => Err(e),
        }
    }

    /// A board whose cells are the winners of the nine boards, nothing
    /// computed of it yet.
    pub fn victories(&self) -> (r: TicTacToe)
        requires
            self.wf(),
        ensures
            r.wf(),
            r@ == self.outcomes(),
            r.verdict() == Verdict::Unknown,
    {
        let mut cells = [Space::Empty; 9];
        for i in 0..9
            invariant
                self.wf(),
                forall|j: int| 0 <= j < i ==> cells@[j] == self.outcomes()[j],
        {
            let mut b = self.grid[i / 3][i % 3];
            assert(b == self.boards()[i as int]);
            cells[i] = b.victory();
        }
        assert(cells@ =~= self.outcomes());
        TicTacToe::from_cells(cells)
    }

    /// The winner of the game: the first of `Cross`, `Circle` that fills a
    /// row, a column or a diagonal of the boards' winners, else `Empty`.
    pub fn victory(&self) -> (r: Space)
        requires
            self.wf(),
        ensures
            r == winner(self.outcomes()),
    {
        let mut t = self.victories();
        t.victory()
    }
}

impl Default for GiantTicTacToe {
    fn default() -> (r: GiantTicTacToe)
        ensures
            r.wf(),
            forall|i: int|
                0 <= i < 9 ==> (#[trigger] r.boards()[i])@ == empty_cells() && r.boards()[i].verdict()
                    == Verdict::Unknown,
    {
        GiantTicTacToe::new()
    }
}

/// When boards 1, 2 and 3 (the top row) each report `Cross` as winner, the
/// game's winner is `Cross`.
pub proof fn lemma_top_row_of_boards_wins(m: GiantTicTacToe)
    requires
        m.outcomes()[0] == Space::Cross,
        m.outcomes()[1] == Space::Cross,
        m.outcomes()[2] == Space::Cross,
    ensures
        winner(m.outcomes()) == Space::Cross,
{
}

/// When `Cross` fills some line of boards 1, 2 and 3 and `Circle` fills none
/// of theirs, the game's winner is `Cross`.
pub proof fn lemma_cross_lines_on_top_boards_win(m: GiantTicTacToe)
    requires
        m.wf(),
        forall|i: int|
            0 <= i < 3 ==> has_line((#[trigger] m.boards()[i])@, Space::Cross) && !has_line(
                m.boards()[i]@,
                Space::Circle,
            ),
    ensures
        winner(m.outcomes()) == Space::Cross,
{
    assert forall|i: int| 0 <= i < 3 implies m.outcomes()[i] == Space::Cross by {
        assert(m.boards()[i].wf());
        lemma_outcome_fills_line(m.boards()[i]);
    }
    assert(m.outcomes()[0] == Space::Cross);
    assert(m.outcomes()[1] == Space::Cross);
    assert(m.outcomes()[2] == Space::Cross);
}

} // verus!
