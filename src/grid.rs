use vstd::prelude::*;

use crate::giant::GiantTicTacToe;
use crate::space::glyph;

verus! {

/// The character at `row`, `col` of a rendering held in `s`: lines of
/// 36 characters, each but the last followed by a newline.
pub open spec fn at(s: Seq<char>, row: int, col: int) -> char {
    s[row * 37 + col]
}

/// The drawn frame of every board at `row`, `col`: within each 12×12 block,
/// `-` on local rows 3 and 7, `|` on local columns 3 and 7, `+` where they
/// cross, spaces elsewhere (the block's last row and column stay blank).
pub open spec fn frame_char(row: int, col: int) -> char {
    let lr = row % 12;
    let lc = col % 12;
    let across = lr == 3 || lr == 7;
    let down = lc == 3 || lc == 7;
    if across && down {
        '+'
    } else if across && lc < 11 {
        '-'
    } else if down && lr < 11 {
        '|'
    } else {
        ' '
    }
}

/// Whether `row`, `col` shows a cell of some board (local row and column 1, 5 or 9).
pub open spec fn is_cell_spot(row: int, col: int) -> bool {
    row % 12 % 4 == 1 && col % 12 % 4 == 1
}

/// The board (0..9, row-major) whose block holds `row`, `col`.
pub open spec fn board_at(row: int, col: int) -> int {
    (row / 12) * 3 + col / 12
}

/// The cell (0..9, row-major) of its board that a cell spot shows.
pub open spec fn cell_at(row: int, col: int) -> int {
    (row % 12 / 4) * 3 + col % 12 / 4
}

/// The decimal digit for `n` in 1..=9.
pub open spec fn digit(n: int) -> char {
    if n == 1 {
        '1'
    } else if n == 2 {
        '2'
    } else if n == 3 {
        '3'
    } else if n == 4 {
        '4'
    } else if n == 5 {
        '5'
    } else if n == 6 {
        '6'
    } else if n == 7 {
        '7'
    } else if n == 8 {
        '8'
    } else {
        '9'
    }
}

/// Whether `playable` asks to number the cells of board `b` (0..9).
pub open spec fn highlighted(playable: Option<usize>, b: int) -> bool {
    match playable {
        Some(g) => 1 <= g <= 9 && g - 1 == b,
        None => false,
    }
}

/// The character of the rendering of `m` at `row`, `col`: on a cell spot the
/// cell's number when its board is highlighted, else the cell's mark; elsewhere
/// the frame.
pub open spec fn grid_char(m: GiantTicTacToe, playable: Option<usize>, row: int, col: int) -> char {
    if is_cell_spot(row, col) {
        if highlighted(playable, board_at(row, col)) {
            digit(cell_at(row, col) + 1)
        } else {
            glyph(m.boards()[board_at(row, col)]@[cell_at(row, col)])
        }
    } else {
        frame_char(row, col)
    }
}

/// Whether `ch` is drawn as part of the frame.
pub open spec fn is_separator(ch: char) -> bool {
    ch == '-' || ch == '|' || ch == '+'
}

fn frame_glyph(row: usize, col: usize) -> (r: char)
    ensures
        r == frame_char(row as int, col as int),
{
    let lr = row % 12;
    let lc = col % 12;
    let across = lr == 3 || lr == 7;
    let down = lc == 3 || lc == 7;
    if across && down {
        '+'
    } else if across && lc < 11 {
        '-'
    } else if down && lr < 11 {
        '|'
    } else {
        ' '
    }
}

fn digit_char(n: usize) -> (r: char)
    requires
        1 <= n <= 9,
    ensures
        r == digit(n as int),
{
    match n {
        1 => '1',
        2 => '2',
        3 => '3',
        4 => '4',
        5 => '5',
        6 => '6',
        7 => '7',
        8 => '8',
        _ => '9',
    }
}

/// The frame of the giant board alone: 36 rows of 36 characters.
pub fn empty_giant_grid() -> (r: Vec<Vec<char>>)
    ensures
        r@.len() == 36,
        forall|row: int| 0 <= row < 36 ==> (#[trigger] r@[row])@.len() == 36,
        forall|row: int, col: int|
            0 <= row < 36 && 0 <= col < 36 ==> r@[row]@[col] == #[trigger] frame_char(row, col),
{
    let mut grid: Vec<Vec<char>> = Vec::new();
    for row in 0..36
        invariant
            grid@.len() == row,
            forall|i: int| 0 <= i < row ==> (#[trigger] grid@[i])@.len() == 36,
            forall|i: int, j: int|
                0 <= i < row && 0 <= j < 36 ==> grid@[i]@[j] == #[trigger] frame_char(i, j),
    {
        let mut line: Vec<char> = Vec::new();
        for col in 0..36
            invariant
                line@.len() == col,
                forall|j: int| 0 <= j < col ==> line@[j] == #[trigger] frame_char(row as int, j),
        {
            line.push(frame_glyph(row, col));
        }
        grid.push(line);
    }
    grid
}

/// Relies on `String`'s `FromIterator<&char>` (through `collect`): the string
/// holds the given characters in order.
#[verifier::external_body]
pub(crate) fn string_from_chars(chars: &Vec<char>) -> (r: String)
    ensures
        r@ == chars@,
{
    chars.iter().collect()
}

impl GiantTicTacToe {
    /// The giant board drawn as 36 lines of 36 characters joined by newlines.
    /// Each board takes a 12×12 block with its frame; its cells show their
    /// marks. With `playable` equal to `Some(g)`, `g` in 1..=9, the cells of
    /// board `g` show their numbers 1 to 9 instead.
    pub fn to_grid(&self, playable: Option<usize>) -> (r: String)
        ensures
            r@.len() == 1331,
            forall|row: int, col: int|
                0 <= row < 36 && 0 <= col < 36 ==> #[trigger] at(r@, row, col)
                    == grid_char(*self, playable, row, col) && at(r@, row, col) != '\n',
            forall|row: int| 0 <= row < 35 ==> #[trigger] at(r@, row, 36) == '\n',
    {
        let frame = empty_giant_grid();
        let mut out: Vec<char> = Vec::new();
        for row in 0..36
            invariant
                frame@.len() == 36,
                forall|i: int| 0 <= i < 36 ==> (#[trigger] frame@[i])@.len() == 36,
                forall|i: int, j: int|
                    0 <= i < 36 && 0 <= j < 36 ==> frame@[i]@[j] == #[trigger] frame_char(i, j),
                out@.len() == if row < 36 { row as int * 37 } else { 1331 },
                forall|i: int, j: int|
                    0 <= i < row && 0 <= j < 36 ==> #[trigger] at(out@, i, j)
                        == grid_char(*self, playable, i, j) && at(out@, i, j) != '\n',
                forall|i: int| 0 <= i < row && i < 35 ==> #[trigger] at(out@, i, 36) == '\n',
        {
            for col in 0..36
                invariant
                    row < 36,
                    frame@.len() == 36,
                    forall|i: int| 0 <= i < 36 ==> (#[trigger] frame@[i])@.len() == 36,
                    forall|i: int, j: int|
                        0 <= i < 36 && 0 <= j < 36 ==> frame@[i]@[j] == #[trigger] frame_char(i, j),
                    out@.len() == row as int * 37 + col as int,
                    forall|i: int, j: int|
                        0 <= i < row && 0 <= j < 36 ==> #[trigger] at(out@, i, j)
                            == grid_char(*self, playable, i, j) && at(out@, i, j) != '\n',
                    forall|i: int| 0 <= i < row && i < 35 ==> #[trigger] at(out@, i, 36) == '\n',
                    forall|j: int| 0 <= j < col ==> #[trigger] at(out@, row as int, j)
                        == grid_char(*self, playable, row as int, j) && at(out@, row as int, j) != '\n',
            {
                let lr = row % 12;
                let lc = col % 12;
                let ch = if lr % 4 == 1 && lc % 4 == 1 {
                    let b = (row / 12) * 3 + col / 12;
                    let k = (lr / 4) * 3 + lc / 4;
                    let lit = match playable {
                        Some(g) => 1 <= g && g <= 9 && g - 1 == b,
                        None => false,
                    };
                    if lit {
                        digit_char(k + 1)
                    } else {
                        self.sub_board(row / 12, col / 12).cell(lr / 4, lc / 4).to_char()
                    }
                } else {
                    frame_glyph(row, col)
                };
                let ghost before = out@;
                out.push(ch);
                assert forall|i: int, j: int| 0 <= i < row && 0 <= j < 36 implies #[trigger] at(out@, i, j) == at(before, i, j) by {}
                assert forall|i: int| 0 <= i < row && i < 35 implies #[trigger] at(out@, i, 36) == at(before, i, 36) by {}
                assert forall|j: int| 0 <= j < col implies #[trigger] at(out@, row as int, j) == at(before, row as int, j) by {}
            }
            let ghost mid = out@;
            if row < 35 {
                out.push('\n');
            }
            assert forall|i: int, j: int| 0 <= i <= row && 0 <= j < 36 implies #[trigger] at(out@, i, j) == at(mid, i, j) by {}
            assert forall|i: int| 0 <= i < row && i < 35 implies #[trigger] at(out@, i, 36) == at(mid, i, 36) by {}
        }
        string_from_chars(&out)
    }
}

/// Numbering the cells of a board (`Some(g)`, `g` in 1..=9) changes no frame
/// character of the rendering, and changes nothing outside that board's
/// nine cell spots.
pub proof fn lemma_highlight_keeps_frame(m: GiantTicTacToe, g: usize, row: int, col: int)
    requires
        1 <= g <= 9,
        0 <= row < 36,
        0 <= col < 36,
    ensures
        is_separator(grid_char(m, None, row, col)) ==> grid_char(m, Some(g), row, col) == grid_char(
            m,
            None,
            row,
            col,
        ),
        grid_char(m, Some(g), row, col) != grid_char(m, None, row, col) ==> is_cell_spot(row, col)
            && board_at(row, col) == g - 1,
{
}

/// With `Some(g)`, `g` in 1..=9, the `n`-th cell (0..9, row-major) of board
/// `g` is drawn as the digit `n + 1`.
pub proof fn lemma_highlight_numbers_cells(m: GiantTicTacToe, g: usize, n: int)
    requires
        1 <= g <= 9,
        0 <= n < 9,
    ensures
        grid_char(
            m,
            Some(g),
            ((g - 1) / 3) * 12 + 1 + 4 * (n / 3),
            ((g - 1) % 3) * 12 + 1 + 4 * (n % 3),
        ) == digit(n + 1),
{
}

} // verus!
