use giant_tictactoe::board::{ErrorKind, TicTacToe};
use giant_tictactoe::space::Space;

fn board_of(cells: [Space; 9]) -> TicTacToe {
    TicTacToe::from_cells(cells)
}

const E: Space = Space::Empty;
const X: Space = Space::Cross;
const O: Space = Space::Circle;

#[test]
fn each_place_taken_once_on_empty_board() {
    for p in 1..=9usize {
        let mut b = TicTacToe::default();
        assert_eq!(b.play(X, p), Ok(()));
        assert_eq!(b.play(X, p), Err(ErrorKind::CellOccupied));
        assert_eq!(b.play(O, p), Err(ErrorKind::CellOccupied));
        let q = p - 1;
        assert_eq!(b.cell(q / 3, q % 3), X);
    }
}

#[test]
fn every_place_filled_in_turn() {
    let mut b = TicTacToe::new();
    for p in 1..=9usize {
        assert_eq!(b.play(if p % 2 == 0 { O } else { X }, p), Ok(()));
    }
    for p in 1..=9usize {
        assert_eq!(b.play(X, p), Err(ErrorKind::CellOccupied));
    }
}

#[test]
fn out_of_range_places_refused() {
    let mut b = TicTacToe::new();
    assert_eq!(b.play(X, 0), Err(ErrorKind::InvalidPosition));
    assert_eq!(b.play(X, 10), Err(ErrorKind::InvalidPosition));
    assert_eq!(b.play(O, usize::MAX), Err(ErrorKind::InvalidPosition));
    for r in 0..3 {
        for c in 0..3 {
            assert_eq!(b.cell(r, c), E);
        }
    }
    let mut full = board_of([X, O, X, X, O, O, O, X, X]);
    assert_eq!(full.play(X, 0), Err(ErrorKind::InvalidPosition));
    assert_eq!(full.play(O, 10), Err(ErrorKind::InvalidPosition));
}

#[test]
fn row_of_cross_wins() {
    let mut b = board_of([X, X, X, O, O, E, E, E, E]);
    assert_eq!(b.victory(), X);
    assert_eq!(b.compute_victory(), X);
}

#[test]
fn column_of_circle_wins() {
    let mut b = board_of([O, X, X, O, E, E, O, X, E]);
    assert_eq!(b.victory(), O);
}

#[test]
fn diagonals_win() {
    let mut b = board_of([X, O, E, O, X, E, E, E, X]);
    assert_eq!(b.victory(), X);
    let mut b = board_of([X, X, O, E, O, E, O, X, E]);
    assert_eq!(b.victory(), O);
}

#[test]
fn full_board_without_line_has_no_winner() {
    let mut b = board_of([X, O, X, X, O, O, O, X, X]);
    assert_eq!(b.victory(), E);
    assert_eq!(b.compute_victory(), E);
}

#[test]
fn empty_board_has_no_winner() {
    let mut b = TicTacToe::new();
    assert_eq!(b.victory(), E);
}

#[test]
fn winner_found_after_an_earlier_empty_result() {
    let mut b = TicTacToe::new();
    assert_eq!(b.play(X, 1), Ok(()));
    assert_eq!(b.play(X, 2), Ok(()));
    assert_eq!(b.victory(), E);
    assert_eq!(b.play(X, 3), Ok(()));
    assert_eq!(b.victory(), X);
}

#[test]
fn cross_checked_before_circle() {
    let mut b = board_of([O, O, O, X, X, X, E, E, E]);
    assert_eq!(b.compute_victory(), X);
    assert_eq!(b.victory(), X);
}

#[test]
fn won_board_still_takes_moves_and_keeps_its_winner() {
    let mut b = TicTacToe::new();
    for p in [4usize, 5, 6] {
        assert_eq!(b.play(O, p), Ok(()));
    }
    assert_eq!(b.victory(), O);
    for p in [1usize, 2, 3] {
        assert_eq!(b.play(X, p), Ok(()));
    }
    assert_eq!(b.compute_victory(), X);
    assert_eq!(b.victory(), O);
}

#[test]
fn board_text_shows_rows_and_rules() {
    let b = board_of([X, E, O, E, X, E, O, E, X]);
    assert_eq!(b.to_text(), "X |   | O\n--+---+--\n  | X |  \n--+---+--\nO |   | X\n");
}

#[test]
fn space_characters() {
    assert_eq!(Space::Empty.to_char(), ' ');
    assert_eq!(Space::Cross.to_char(), 'X');
    assert_eq!(Space::Circle.to_char(), 'O');
    assert_eq!(Space::default(), Space::Empty);
}
