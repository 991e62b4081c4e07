//! One three by three board: its cells and the winner it has recorded.

use vstd::prelude::*;
use crate::error::PlacementError;
use crate::lines::{has_line, holds, in_grid, mark_at, no_line, within_grid, Marks};
use crate::marking::Marking;

verus! {

/// What a board is, mathematically: the marks on its cells and the winner
/// it has recorded.
pub struct BoardView {
    pub marks: Marks,
    pub winner: Option<Marking>,
}

impl BoardView {
    /// The board before any move.
    pub open spec fn empty() -> BoardView {
        BoardView { marks: Map::empty(), winner: None }
    }

    /// Why a placement at `(row, col)` is turned down, or `None` where it is
    /// accepted: the location is checked first, then whether the cell is free.
    pub open spec fn refusal(self, row: usize, col: usize) -> Option<PlacementError> {
        if !in_grid(row as int, col as int) {
            Some(PlacementError::InvalidLocationError(row, col))
        } else if self.marks.dom().contains((row as int, col as int)) {
            Some(PlacementError::FilledSpaceError(row, col))
        } else {
            None
        }
    }

    /// The board after `m` went to `(row, col)`: the cell holds `m`, and a
    /// board without a winner records `m` if `m` now fills a line. A winner
    /// that was recorded before stays.
    pub open spec fn placed(self, row: int, col: int, m: Marking) -> BoardView {
        let marks = self.marks.insert((row, col), m);
        BoardView {
            marks,
            winner: if self.winner is None && has_line(marks, m) {
                Some(m)
            } else {
                self.winner
            },
        }
    }

    /// The board after a placement at `(row, col)` was asked for: as
    /// `placed` says where the placement is accepted, unchanged where it is
    /// turned down.
    pub open spec fn attempted(self, row: usize, col: usize, m: Marking) -> BoardView {
        if self.refusal(row, col) is None {
            self.placed(row as int, col as int, m)
        } else {
            self
        }
    }

    /// Every mark lies on the grid, the recorded winner fills a line, and
    /// while nobody is recorded nobody fills one.
    pub open spec fn wf(self) -> bool {
        &&& within_grid(self.marks)
        &&& match self.winner {
            Some(w) => has_line(self.marks, w),
            None => no_line(self.marks),
        }
    }
}

/// A three by three board of cells, each empty or holding a mark, with the
/// winner recorded once a player has filled a line.
#[derive(Clone, Copy, Debug)]
pub struct InnerBoard {
    board: [[Option<Marking>; 3]; 3],
    winner: Option<Marking>,
}

impl View for InnerBoard {
    type V = BoardView;

    closed spec fn view(&self) -> BoardView {
        BoardView {
            marks: Map::new(
                |p: (int, int)| in_grid(p.0, p.1) && self.board[p.0][p.1] is Some,
                |p: (int, int)| self.board[p.0][p.1]->0,
            ),
            winner: self.winner,
        }
    }
}

impl InnerBoard {
    /// A board with nine empty cells and no winner.
    pub fn new() -> (b: InnerBoard)
        ensures
            b@ == BoardView::empty(),
            b@.wf(),
    {
        let b = InnerBoard { board: [[None; 3]; 3], winner: None };
        assert(b@.marks =~= Map::empty());
        b
    }

    /// Whether the cell at `(row, col)` holds exactly `m`. An empty cell, a
    /// cell with the other mark, and a location off the grid all give `false`.
    pub fn contains(&self, row: usize, col: usize, m: &Marking) -> (found: bool)
        ensures
            found == holds(self@.marks, row as int, col as int, *m),
    {
        if row < 3 && col < 3 {
            match self.board[row][col] {
                Some(value) => *m == value,
                None => false,
            }
        } else {
            false
        }
    }

    /// The winner this board has recorded, if any. A board that is full
    /// without a line has none.
    pub fn winner(&self) -> (w: Option<Marking>)
        ensures
            w == self@.winner,
    {
        self.winner
    }

    /// What the cell at `(row, col)` holds: `None` for an empty cell and for
    /// a location off the grid.
    pub fn cell(&self, row: usize, col: usize) -> (c: Option<Marking>)
        ensures
            c == mark_at(self@.marks, row as int, col as int),
    {
        if row < 3 && col < 3 {
            self.board[row][col]
        } else {
            None
        }
    }

    /// Whether `m` fills one of the eight lines of this board.
    pub fn check_winner(&self, m: &Marking) -> (won: bool)
        ensures
            won == has_line(self@.marks, *m),
    {
        // Lines through the middle cell.
        if self.contains(1, 1, m) {
            if self.contains(1, 0, m) && self.contains(1, 2, m) {
                return true;
            }
            if self.contains(0, 1, m) && self.contains(2, 1, m) {
                return true;
            }
            if self.contains(0, 0, m) && self.contains(2, 2, m) {
                return true;
            }
            if self.contains(0, 2, m) && self.contains(2, 0, m) {
                return true;
            }
        }
        // The top row and the left column, through the top left cell.
        if self.contains(0, 0, m) {
            if self.contains(0, 1, m) && self.contains(0, 2, m) {
                return true;
            }
            if self.contains(1, 0, m) && self.contains(2, 0, m) {
                return true;
            }
        }
        // The bottom row and the right column, through the bottom right cell.
        if self.contains(2, 2, m) {
            if self.contains(2, 0, m) && self.contains(2, 1, m) {
                return true;
            }
            if self.contains(0, 2, m) && self.contains(1, 2, m) {
                return true;
            }
        }
        false
    }

    /// Puts `marking` on the cell at `(row, col)` and leaves the recorded
    /// winner alone. A location off the grid and a cell that is taken are
    /// turned down, and the board is then left as it was.
    pub(crate) fn place_marker(&mut self, row: &usize, col: &usize, marking: &Marking) -> (res:
        Result<(), PlacementError>)
        ensures
            match old(self)@.refusal(*row, *col) {
                Some(e) => res == Err::<(), PlacementError>(e) && *final(self) == *old(self),
                None => res is Ok && final(self)@ == (BoardView {
                    marks: old(self)@.marks.insert((*row as int, *col as int), *marking),
                    winner: old(self)@.winner,
                }),
            },
    {
        if *row >= 3 || *col >= 3 {
            return Err(PlacementError::InvalidLocationError(*row, *col));
        }
        match self.board[*row][*col] {
            None => {
                self.board[*row][*col] = Some(*marking);
                assert(self@.marks =~= old(self)@.marks.insert((*row as int, *col as int), *marking));
                Ok(())
            },
            _ => Err(PlacementError::FilledSpaceError(*row, *col)),
        }
    }

    /// Looks whether `m` fills a line and, if so and no winner is recorded
    /// yet, records `m`. Says whether `m` fills a line.
    pub(crate) fn record_winner(&mut self, m: &Marking) -> (won: bool)
        ensures
            won == has_line(old(self)@.marks, *m),
            final(self)@ == (BoardView {
                marks: old(self)@.marks,
                winner: if old(self)@.winner is None && won {
                    Some(*m)
                } else {
                    old(self)@.winner
                },
            }),
    {
        let won = self.check_winner(m);
        if won && self.winner.is_none() {
            self.winner = Some(*m);
        }
        won
    }

    /// Places `m` on the cell at `(row, col)`.
    ///
    /// Fails with `InvalidLocationError(row, col)` when `row` or `col` is 3 or
    /// more, and with `FilledSpaceError(row, col)` when the cell already holds
    /// a mark; the board is then unchanged. Otherwise the cell takes `m`, and
    /// if `m` now fills a line while no winner is recorded, `m` is recorded as
    /// the winner. No other cell changes, and a recorded winner never does.
    pub fn place(&mut self, row: &usize, col: &usize, m: &Marking) -> (res: Result<
        (),
        PlacementError,
    >)
        ensures
            match old(self)@.refusal(*row, *col) {
                Some(e) => res == Err::<(), PlacementError>(e) && *final(self) == *old(self),
                None => res is Ok && final(self)@ == old(self)@.placed(
                    *row as int,
                    *col as int,
                    *m,
                ),
            },
            old(self)@.wf() ==> final(self)@.wf(),
    {
        match self.place_marker(row, col, m) {
            Err(e) => {
                return Err(e);
            },
            Ok(()) => {},
        }
        self.record_winner(m);
        Ok(())
    }
}

} // verus!
