//! The whole game: nine boards and the master board that mirrors their
//! winners.

use vstd::prelude::*;
use crate::error::PlacementError;
use crate::inner_board::{BoardView, InnerBoard};
use crate::lines::{has_line, in_grid, mark_at};
use crate::marking::Marking;

verus! {

/// How an accepted placement leaves the game.
#[derive(Clone, Copy, Debug, PartialEq, Eq, Structural)]
pub enum Outcome {
    /// The game goes on. The coordinates are those of the cell just played,
    /// which name the board the next player is sent to.
    Next(usize, usize),
    /// The mark just placed fills a line of the master board: the game is
    /// over and there is no next move.
    Won(Marking),
}

/// What a game is, mathematically: the nine boards by `(row, column)` and the
/// master board.
pub struct GameView {
    pub boards: Map<(int, int), BoardView>,
    pub master: BoardView,
}

impl GameView {
    /// The game before any move.
    pub open spec fn empty() -> GameView {
        GameView {
            boards: Map::new(|p: (int, int)| in_grid(p.0, p.1), |p: (int, int)| BoardView::empty()),
            master: BoardView::empty(),
        }
    }

    /// Why a placement on cell `(row, col)` of board `(i, j)` is turned down,
    /// or `None` where it is accepted. The board's location is checked first
    /// and reported with the board's own coordinates; the rest is the
    /// addressed board's answer.
    pub open spec fn refusal(self, i: usize, j: usize, row: usize, col: usize) -> Option<
        PlacementError,
    > {
        if !in_grid(i as int, j as int) {
            Some(PlacementError::InvalidLocationError(i, j))
        } else {
            self.boards[(i as int, j as int)].refusal(row, col)
        }
    }

    /// The master board once board `(i, j)` has been looked at: a winner that
    /// the board has recorded is copied to an empty master cell, and a master
    /// cell that is set stays as it is.
    pub open spec fn mirrored(self, i: int, j: int) -> BoardView {
        let winner = self.boards[(i, j)].winner;
        BoardView {
            marks: if winner is Some && !self.master.marks.dom().contains((i, j)) {
                self.master.marks.insert((i, j), winner->0)
            } else {
                self.master.marks
            },
            winner: self.master.winner,
        }
    }

    /// The game after `m` went to cell `(row, col)` of board `(i, j)`: that
    /// board takes the mark, the master board mirrors the board's winner, and
    /// a master board without a winner records `m` if `m` now fills a line of
    /// it.
    pub open spec fn placed(self, i: int, j: int, row: int, col: int, m: Marking) -> GameView {
        let boards = self.boards.insert((i, j), self.boards[(i, j)].placed(row, col, m));
        let master = (GameView { boards, master: self.master }).mirrored(i, j);
        GameView {
            boards,
            master: BoardView {
                marks: master.marks,
                winner: if master.winner is None && has_line(master.marks, m) {
                    Some(m)
                } else {
                    master.winner
                },
            },
        }
    }

    /// The game after a placement on cell `(row, col)` of board `(i, j)` was
    /// asked for: as `placed` says where the placement is accepted, unchanged
    /// where it is turned down.
    pub open spec fn attempted(self, i: usize, j: usize, row: usize, col: usize, m: Marking)
        -> GameView {
        if self.refusal(i, j, row, col) is None {
            self.placed(i as int, j as int, row as int, col as int, m)
        } else {
            self
        }
    }

    /// What a placement of `m` on cell `(row, col)` reports when it leaves the
    /// game in this state.
    pub open spec fn outcome(self, row: usize, col: usize, m: Marking) -> Outcome {
        if has_line(self.master.marks, m) {
            Outcome::Won(m)
        } else {
            Outcome::Next(row, col)
        }
    }

    /// There are exactly nine boards, each well formed, the master board is
    /// well formed, and a master cell is set if and only if the board behind
    /// it has a winner, to that winner.
    pub open spec fn wf(self) -> bool {
        &&& forall|p: (int, int)| #[trigger] self.boards.dom().contains(p) <==> in_grid(p.0, p.1)
        &&& forall|p: (int, int)| in_grid(p.0, p.1) ==> (#[trigger] self.boards[p]).wf()
        &&& self.master.wf()
        &&& forall|p: (int, int)|
            in_grid(p.0, p.1) ==> mark_at(self.master.marks, p.0, p.1)
                == (#[trigger] self.boards[p]).winner
    }
}

/// Nine boards in three rows of three, and the master board whose cells
/// mirror the winners of the nine.
#[derive(Debug)]
pub struct OuterBoard {
    boards: [[InnerBoard; 3]; 3],
    master_board: InnerBoard,
}

impl View for OuterBoard {
    type V = GameView;

    closed spec fn view(&self) -> GameView {
        GameView {
            boards: Map::new(
                |p: (int, int)| in_grid(p.0, p.1),
                |p: (int, int)| self.boards[p.0][p.1]@,
            ),
            master: self.master_board@,
        }
    }
}

impl OuterBoard {
    /// A game with nine empty boards, an empty master board and no winner.
    pub fn new() -> (g: OuterBoard)
        ensures
            g@ == GameView::empty(),
            g@.wf(),
    {
        let g = OuterBoard { boards: [[InnerBoard::new(); 3]; 3], master_board: InnerBoard::new() };
        assert(g@.boards =~= GameView::empty().boards);
        g
    }

    /// The board at `(i, j)`, or `None` where `i` or `j` is 3 or more.
    pub fn board(&self, i: usize, j: usize) -> (b: Option<&InnerBoard>)
        ensures
            match b {
                Some(b) => in_grid(i as int, j as int) && b@ == self@.boards[(i as int, j as int)],
                None => !in_grid(i as int, j as int),
            },
    {
        if i < 3 && j < 3 {
            Some(&self.boards[i][j])
        } else {
            None
        }
    }

    /// The master board: each of its cells holds the winner of the board
    /// behind it, once that board has one.
    pub fn master_board(&self) -> (b: &InnerBoard)
        ensures
            b@ == self@.master,
    {
        &self.master_board
    }

    /// The winner of the game: the first player to fill a line of the master
    /// board, or `None` while nobody has.
    pub fn winner(&self) -> (w: Option<Marking>)
        ensures
            w == self@.master.winner,
    {
        self.master_board.winner()
    }

    /// Copies the winner of board `(row, col)` to the master board, unless
    /// that master cell is set already or the board has no winner.
    fn update_master_board(&mut self, row: &usize, col: &usize)
        requires
            *row < 3,
            *col < 3,
        ensures
            final(self)@ == (GameView {
                boards: old(self)@.boards,
                master: old(self)@.mirrored(*row as int, *col as int),
            }),
    {
        if self.master_board.cell(*row, *col).is_none() {
            match self.boards[*row][*col].winner() {
                Some(w) => {
                    let _ = self.master_board.place_marker(row, col, &w);
                },
                None => {},
            }
        }
    }

    /// Places `m` on cell `(row, col)` of the board at `(i, j)`.
    ///
    /// Fails with `InvalidLocationError(i, j)` when `i` or `j` is 3 or more,
    /// and otherwise with the error of the addressed board, unchanged; the
    /// game is then left as it was. On success the board takes the mark, a
    /// winner that it has recorded is copied to the master board if that
    /// master cell is still empty, and the master board is searched for a
    /// line of `m`. With such a line the game is over: the result is
    /// `Won(m)`, and `m` is recorded as the winner of the game unless one
    /// was recorded before. Without one the result is `Next(row, col)`.
    pub fn place(&mut self, i: usize, j: usize, row: &usize, col: &usize, m: &Marking) -> (res:
        Result<Outcome, PlacementError>)
        ensures
            match old(self)@.refusal(i, j, *row, *col) {
                Some(e) => res == Err::<Outcome, PlacementError>(e) && *final(self) == *old(self),
                None => final(self)@ == old(self)@.placed(
                    i as int,
                    j as int,
                    *row as int,
                    *col as int,
                    *m,
                ) && res == Ok::<Outcome, PlacementError>(final(self)@.outcome(*row, *col, *m)),
            },
            old(self)@.wf() ==> final(self)@.wf(),
    {
        if i >= 3 || j >= 3 {
            return Err(PlacementError::InvalidLocationError(i, j));
        }
        match self.boards[i][j].place(row, col, m) {
            Err(e) => {
                assert(self.boards[i as int] =~= old(self).boards[i as int]);
                assert(self.boards =~= old(self).boards);
                return Err(e);
            },
            Ok(()) => {},
        }
        assert(self@.boards =~= old(self)@.boards.insert((i as int, j as int), self.boards[i as int][j as int]@));
        self.update_master_board(&i, &j);
        if self.master_board.record_winner(m) {
            return Ok(Outcome::Won(*m));
        }
        Ok(Outcome::Next(*row, *col))
    }
}

} // verus!
