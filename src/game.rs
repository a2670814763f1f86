use vstd::prelude::*;

use crate::board::{ErrorKind, empty_cells};
use crate::giant::{GiantTicTacToe, giant_play_result, played};
use crate::space::Space;

verus! {

/// The mark that plays after `p`.
pub open spec fn other(p: Space) -> Space {
    if p == Space::Cross {
        Space::Circle
    } else {
        Space::Cross
    }
}

/// A game in progress: the giant board, the mark to play, and the board the
/// next move goes to (outside 1..=9 when the player may pick any).
#[derive(Clone, Copy, Debug)]
pub struct Game {
    pub board: GiantTicTacToe,
    pub player: Space,
    pub grid: usize,
}

impl Game {
    /// The board is well formed and a player is to move.
    pub open spec fn wf(self) -> bool {
        self.board.wf() && self.player != Space::Empty
    }

    /// An empty board, `Cross` to move, on a board of its choice.
    pub fn new() -> (r: Game)
        ensures
            r.wf(),
            r.player == Space::Cross,
            r.grid == 0,
            forall|i: int| 0 <= i < 9 ==> (#[trigger] r.board.boards()[i])@ == empty_cells(),
    {
        Game { board: GiantTicTacToe::new(), player: Space::Cross, grid: 0 }
    }

    /// Whether the player must first pick the board to play on: the board
    /// of the next move is outside 1..=9.
    pub fn needs_grid(&self) -> (r: bool)
        ensures
            r == (self.grid < 1 || self.grid > 9),
    {
        self.grid == 0 || self.grid > 9
    }

    /// One turn: the player to move plays `cell` on the board of the next
    /// move. On success the next move goes to the board numbered `cell`; on
    /// failure it stays where it was. Either way the other mark moves next.
    pub fn turn(&mut self, cell: usize) -> (r: Result<(), ErrorKind>)
        requires
            old(self).wf(),
        ensures
            final(self).wf(),
            r == giant_play_result(old(self).board.boards(), old(self).grid as int, cell as int),
            played(old(self).board, final(self).board, old(self).player, old(self).grid as int, cell as int, r),
            final(self).grid == if r is Ok { cell } else { old(self).grid },
            final(self).player == other(old(self).player),
    {
        let r = self.board.play(self.player, self.grid, cell);
        if r.is_ok() {
            self.grid = cell;
        }
        self.player = if self.player == Space::Cross { Space::Circle } else { Space::Cross };
        r
    }
}

} // verus!
