use giant_tictactoe::giant::GiantTicTacToe;
use giant_tictactoe::grid::empty_giant_grid;
use giant_tictactoe::space::Space;

fn lines(s: &str) -> Vec<Vec<char>> {
    s.split('\n').map(|l| l.chars().collect()).collect()
}

fn sample() -> GiantTicTacToe {
    let mut m = GiantTicTacToe::new();
    m.play(Space::Cross, 1, 1).unwrap();
    m.play(Space::Circle, 5, 5).unwrap();
    m.play(Space::Cross, 5, 1).unwrap();
    m.play(Space::Circle, 9, 9).unwrap();
    m
}

#[test]
fn rendering_is_a_36_by_36_square() {
    for m in [GiantTicTacToe::new(), sample()] {
        for h in [None, Some(1), Some(5), Some(9), Some(0), Some(10)] {
            let s = m.to_grid(h);
            let ls = lines(&s);
            assert_eq!(ls.len(), 36);
            for l in &ls {
                assert_eq!(l.len(), 36);
            }
        }
    }
}

#[test]
fn empty_rendering_lines() {
    let s = GiantTicTacToe::new().to_grid(None);
    let ls: Vec<&str> = s.split('\n').collect();
    let blank = "   |   |       |   |       |   |    ";
    let rule = "---+---+--- ---+---+--- ---+---+--- ";
    let last = " ".repeat(36);
    assert_eq!(ls[0], blank);
    assert_eq!(ls[1], blank);
    assert_eq!(ls[3], rule);
    assert_eq!(ls[7], rule);
    assert_eq!(ls[11], last);
    assert_eq!(ls[15], rule);
    assert_eq!(ls[35], last);
}

#[test]
fn marks_drawn_at_cell_spots() {
    let s = sample().to_grid(None);
    let ls = lines(&s);
    assert_eq!(ls[1][1], 'X');
    assert_eq!(ls[13][13], 'X');
    assert_eq!(ls[17][17], 'O');
    assert_eq!(ls[33][33], 'O');
    assert_eq!(ls[1][5], ' ');
    assert_eq!(
        s.split('\n').nth(13).unwrap(),
        "   |   |     X |   |       |   |    "
    );
}

#[test]
fn highlight_numbers_board_five() {
    let m = sample();
    let plain = lines(&m.to_grid(None));
    let lit = lines(&m.to_grid(Some(5)));
    for r in 0..36 {
        for c in 0..36 {
            let ch = plain[r][c];
            if ch == '-' || ch == '|' || ch == '+' {
                assert_eq!(lit[r][c], ch);
            }
        }
    }
    let mut n = 1;
    let mut spots = Vec::new();
    for i in 0..3 {
        for j in 0..3 {
            let (r, c) = (12 + 1 + 4 * i, 12 + 1 + 4 * j);
            assert_eq!(lit[r][c], char::from(b'0' + n));
            spots.push((r, c));
            n += 1;
        }
    }
    for r in 0..36 {
        for c in 0..36 {
            if !spots.contains(&(r, c)) {
                assert_eq!(lit[r][c], plain[r][c]);
            }
        }
    }
}

#[test]
fn highlight_out_of_range_draws_plain() {
    let m = sample();
    assert_eq!(m.to_grid(Some(0)), m.to_grid(None));
    assert_eq!(m.to_grid(Some(10)), m.to_grid(None));
}

#[test]
fn frame_grid_matches_empty_rendering() {
    let frame = empty_giant_grid();
    assert_eq!(frame.len(), 36);
    let joined: Vec<String> = frame.iter().map(|l| l.iter().collect()).collect();
    assert_eq!(joined.join("\n"), GiantTicTacToe::new().to_grid(None));
    assert_eq!(frame[3][3], '+');
    assert_eq!(frame[7][11], ' ');
    assert_eq!(frame[11][3], ' ');
    assert_eq!(frame[10][3], '|');
}
