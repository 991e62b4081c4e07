use big_tac_toe::{Marking, OuterBoard, Outcome, PlacementError};

const X: Marking = Marking::Cross;
const O: Marking = Marking::Nought;

/// Lets `m` win board `(i, j)` along its top row.
fn win_board(g: &mut OuterBoard, i: usize, j: usize, m: Marking) -> Result<Outcome, PlacementError> {
    assert_eq!(g.place(i, j, &0, &0, &m), Ok(Outcome::Next(0, 0)));
    assert_eq!(g.place(i, j, &0, &1, &m), Ok(Outcome::Next(0, 1)));
    g.place(i, j, &0, &2, &m)
}

#[test]
fn new_game_is_empty() {
    let g = OuterBoard::new();
    assert_eq!(g.winner(), None);
    assert_eq!(g.master_board().winner(), None);
    for i in 0..3 {
        for j in 0..3 {
            assert_eq!(g.master_board().cell(i, j), None);
            let b = g.board(i, j).unwrap();
            assert_eq!(b.winner(), None);
            for row in 0..3 {
                for col in 0..3 {
                    assert_eq!(b.cell(row, col), None);
                }
            }
        }
    }
}

#[test]
fn board_off_the_grid_is_none() {
    let g = OuterBoard::new();
    assert!(g.board(3, 0).is_none());
    assert!(g.board(0, 3).is_none());
    assert!(g.board(usize::MAX, usize::MAX).is_none());
    assert!(g.board(2, 2).is_some());
}

#[test]
fn placement_returns_the_cell_played() {
    let mut g = OuterBoard::new();
    for row in 0..3 {
        for col in 0..3 {
            let m = if (row + col) % 2 == 0 { X } else { O };
            assert_eq!(g.place(col, row, &row, &col, &m), Ok(Outcome::Next(row, col)));
            assert_eq!(g.board(col, row).unwrap().cell(row, col), Some(m));
        }
    }
    assert_eq!(g.winner(), None);
}

#[test]
fn placement_reaches_the_addressed_board_only() {
    let mut g = OuterBoard::new();
    assert_eq!(g.place(1, 2, &0, &1, &O), Ok(Outcome::Next(0, 1)));
    for i in 0..3 {
        for j in 0..3 {
            for row in 0..3 {
                for col in 0..3 {
                    let expected = if (i, j, row, col) == (1, 2, 0, 1) { Some(O) } else { None };
                    assert_eq!(g.board(i, j).unwrap().cell(row, col), expected);
                }
            }
            assert_eq!(g.master_board().cell(i, j), None);
        }
    }
}

#[test]
fn top_row_of_crosses_wins_board_and_master_cell() {
    let mut g = OuterBoard::new();
    assert_eq!(g.place(0, 0, &0, &0, &X), Ok(Outcome::Next(0, 0)));
    assert_eq!(g.board(0, 0).unwrap().winner(), None);
    assert_eq!(g.master_board().cell(0, 0), None);
    assert_eq!(g.place(0, 0, &0, &1, &X), Ok(Outcome::Next(0, 1)));
    assert_eq!(g.board(0, 0).unwrap().winner(), None);
    assert_eq!(g.master_board().cell(0, 0), None);
    assert_eq!(g.place(0, 0, &0, &2, &X), Ok(Outcome::Next(0, 2)));
    assert_eq!(g.board(0, 0).unwrap().winner(), Some(X));
    assert_eq!(g.master_board().cell(0, 0), Some(X));
    assert!(g.master_board().contains(0, 0, &X));
    assert_eq!(g.winner(), None);
}

#[test]
fn master_top_row_wins_the_game() {
    let mut g = OuterBoard::new();
    assert_eq!(win_board(&mut g, 0, 0, X), Ok(Outcome::Next(0, 2)));
    assert_eq!(g.winner(), None);
    assert_eq!(win_board(&mut g, 0, 1, X), Ok(Outcome::Next(0, 2)));
    assert_eq!(g.winner(), None);
    assert_eq!(win_board(&mut g, 0, 2, X), Ok(Outcome::Won(X)));
    assert_eq!(g.winner(), Some(X));
    assert_eq!(g.master_board().winner(), Some(X));
    for j in 0..3 {
        assert_eq!(g.master_board().cell(0, j), Some(X));
    }
    assert!(g.master_board().check_winner(&X));
}

#[test]
fn master_diagonal_of_noughts_wins_the_game() {
    let mut g = OuterBoard::new();
    assert_eq!(win_board(&mut g, 2, 0, O), Ok(Outcome::Next(0, 2)));
    assert_eq!(win_board(&mut g, 0, 2, O), Ok(Outcome::Next(0, 2)));
    assert_eq!(win_board(&mut g, 1, 1, O), Ok(Outcome::Won(O)));
    assert_eq!(g.winner(), Some(O));
}

#[test]
fn second_placement_on_a_cell_is_refused() {
    for first in [X, O] {
        for second in [X, O] {
            let mut g = OuterBoard::new();
            assert_eq!(g.place(0, 0, &0, &0, &first), Ok(Outcome::Next(0, 0)));
            let before = g.render();
            assert_eq!(
                g.place(0, 0, &0, &0, &second),
                Err(PlacementError::FilledSpaceError(0, 0))
            );
            assert_eq!(g.render(), before);
            assert_eq!(g.board(0, 0).unwrap().cell(0, 0), Some(first));
        }
    }
}

#[test]
fn cell_row_of_five_is_an_invalid_location() {
    let mut g = OuterBoard::new();
    for col in 0..4 {
        let before = g.render();
        assert_eq!(g.place(1, 1, &5, &col, &X), Err(PlacementError::InvalidLocationError(5, col)));
        assert_eq!(g.render(), before);
    }
    assert_eq!(g.place(1, 1, &0, &3, &X), Err(PlacementError::InvalidLocationError(0, 3)));
}

#[test]
fn board_off_the_grid_is_an_invalid_location() {
    let mut g = OuterBoard::new();
    assert_eq!(g.place(0, 0, &1, &1, &X), Ok(Outcome::Next(1, 1)));
    let before = g.render();
    assert_eq!(g.place(3, 0, &1, &1, &O), Err(PlacementError::InvalidLocationError(3, 0)));
    assert_eq!(g.place(0, 3, &1, &1, &O), Err(PlacementError::InvalidLocationError(0, 3)));
    assert_eq!(g.place(7, 8, &5, &5, &O), Err(PlacementError::InvalidLocationError(7, 8)));
    assert_eq!(
        g.place(usize::MAX, 0, &0, &0, &O),
        Err(PlacementError::InvalidLocationError(usize::MAX, 0))
    );
    assert_eq!(g.render(), before);
    assert_eq!(g.master_board().render(), OuterBoard::new().master_board().render());
}

#[test]
fn master_cell_is_set_once() {
    let mut g = OuterBoard::new();
    assert_eq!(win_board(&mut g, 0, 0, X), Ok(Outcome::Next(0, 2)));
    assert_eq!(g.master_board().cell(0, 0), Some(X));
    // Noughts fill the middle row of the same board: the master cell stays.
    assert_eq!(g.place(0, 0, &1, &0, &O), Ok(Outcome::Next(1, 0)));
    assert_eq!(g.place(0, 0, &1, &1, &O), Ok(Outcome::Next(1, 1)));
    assert_eq!(g.place(0, 0, &1, &2, &O), Ok(Outcome::Next(1, 2)));
    assert_eq!(g.board(0, 0).unwrap().winner(), Some(X));
    assert_eq!(g.master_board().cell(0, 0), Some(X));
    // Noughts win another board: only that master cell is set.
    assert_eq!(win_board(&mut g, 1, 1, O), Ok(Outcome::Next(0, 2)));
    assert_eq!(g.master_board().cell(0, 0), Some(X));
    assert_eq!(g.master_board().cell(1, 1), Some(O));
    for (i, j) in [(0, 1), (0, 2), (1, 0), (1, 2), (2, 0), (2, 1), (2, 2)] {
        assert_eq!(g.master_board().cell(i, j), None);
    }
    assert_eq!(g.winner(), None);
}

#[test]
fn master_mirrors_the_winners_of_the_boards() {
    let mut g = OuterBoard::new();
    let plays = [(0, 0, X), (2, 1, O), (1, 2, X), (1, 0, O)];
    for (i, j, m) in plays {
        assert_eq!(win_board(&mut g, i, j, m), Ok(Outcome::Next(0, 2)));
        for r in 0..3 {
            for c in 0..3 {
                assert_eq!(g.master_board().cell(r, c), g.board(r, c).unwrap().winner());
            }
        }
    }
}

#[test]
fn drawn_board_claims_no_master_cell() {
    let mut g = OuterBoard::new();
    let moves = [
        (0, 0, X),
        (0, 1, O),
        (0, 2, X),
        (1, 1, O),
        (1, 0, X),
        (1, 2, O),
        (2, 1, X),
        (2, 0, O),
        (2, 2, X),
    ];
    for (row, col, m) in moves {
        assert_eq!(g.place(1, 1, &row, &col, &m), Ok(Outcome::Next(row, col)));
    }
    assert_eq!(g.board(1, 1).unwrap().winner(), None);
    assert_eq!(g.master_board().cell(1, 1), None);
    assert_eq!(g.winner(), None);
}

#[test]
fn winner_of_the_game_stays() {
    let mut g = OuterBoard::new();
    assert_eq!(win_board(&mut g, 0, 0, X), Ok(Outcome::Next(0, 2)));
    assert_eq!(win_board(&mut g, 1, 1, X), Ok(Outcome::Next(0, 2)));
    assert_eq!(win_board(&mut g, 2, 2, X), Ok(Outcome::Won(X)));
    assert_eq!(g.winner(), Some(X));
    // Noughts play on and fill the right column of the master board.
    assert_eq!(win_board(&mut g, 0, 2, O), Ok(Outcome::Next(0, 2)));
    assert_eq!(win_board(&mut g, 1, 2, O), Ok(Outcome::Next(0, 2)));
    assert_eq!(g.place(2, 2, &1, &0, &O), Ok(Outcome::Next(1, 0)));
    assert_eq!(g.winner(), Some(X));
    // A further cross still sees the line of crosses.
    assert_eq!(g.place(2, 0, &1, &1, &X), Ok(Outcome::Won(X)));
    assert_eq!(g.winner(), Some(X));
    // A refused placement reports the error, not the win.
    assert_eq!(g.place(2, 0, &1, &1, &X), Err(PlacementError::FilledSpaceError(1, 1)));
    assert_eq!(g.winner(), Some(X));
}
