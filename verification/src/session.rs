//! A game as two players play it, line by line: whose turn it is and which
//! board the turn goes to.
//!
//! The first line names the board on which play starts. Every later line
//! names a cell of the board that the move before it pointed to: a move on
//! cell `(r, c)` sends the next player to board `(r, c)`. Crosses begin, and
//! the turn passes with every accepted move.

use vstd::prelude::*;
use crate::error::PlacementError;
use crate::lines::has_line;
use crate::marking::Marking;
use crate::outer_board::{GameView, OuterBoard, Outcome};
use crate::position::{get_position, position, PositionError};

verus! {

/// The answer to one line of a player.
#[derive(Clone, Copy, Debug, PartialEq, Eq, Structural)]
pub enum Reply {
    /// The line is no position. Nothing changed; the same player is asked
    /// again.
    NoPosition(PositionError),
    /// The line named the board on which play starts.
    Start(usize, usize),
    /// The placement was turned down. Nothing changed; the same player is
    /// asked again.
    Refused(PlacementError),
    /// The mark was placed. The turn passes, and the next move goes to the
    /// board at these coordinates.
    Placed(usize, usize),
    /// The mark was placed and fills a line of the master board: this
    /// player has won the game.
    Won(Marking),
}

/// What a session is, mathematically: the game, the player whose turn it
/// is, and the board the turn goes to, if one is fixed yet.
pub struct SessionView {
    pub game: GameView,
    pub turn: Marking,
    pub target: Option<(usize, usize)>,
}

impl SessionView {
    /// A session before the first line: an empty game, crosses to move, and
    /// no board fixed.
    pub open spec fn start() -> SessionView {
        SessionView { game: GameView::empty(), turn: Marking::Cross, target: None }
    }

    /// The answer to `line`. A line that is no position is answered so.
    /// While no board is fixed, a position names the board to start on.
    /// After that it names a cell of the fixed board, for the mark of the
    /// player whose turn it is.
    pub open spec fn reply(self, line: Seq<char>) -> Reply {
        match position(line) {
            Err(e) => Reply::NoPosition(e),
            Ok((row, col)) => match self.target {
                None => Reply::Start(row, col),
                Some((i, j)) => match self.game.refusal(i, j, row, col) {
                    Some(e) => Reply::Refused(e),
                    None => if has_line(self.moved(row, col).master.marks, self.turn) {
                        Reply::Won(self.turn)
                    } else {
                        Reply::Placed(row, col)
                    },
                },
            },
        }
    }

    /// The session after `line`. A line that is no position and a placement
    /// that is turned down change nothing. The first position fixes the
    /// board to start on. A mark that is placed without winning passes the
    /// turn and fixes the board that its cell points to; one that wins
    /// leaves the turn and the board as they are.
    pub open spec fn answered(self, line: Seq<char>) -> SessionView {
        match self.reply(line) {
            Reply::NoPosition(_) => self,
            Reply::Refused(_) => self,
            Reply::Start(i, j) => SessionView {
                game: self.game,
                turn: self.turn,
                target: Some((i, j)),
            },
            Reply::Placed(row, col) => SessionView {
                game: self.moved(row, col),
                turn: self.turn.other(),
                target: Some((row, col)),
            },
            Reply::Won(_) => match position(line) {
                Ok((row, col)) => SessionView {
                    game: self.moved(row, col),
                    turn: self.turn,
                    target: self.target,
                },
                Err(_) => self,
            },
        }
    }

    /// The game once the player whose turn it is has placed a mark on cell
    /// `(row, col)` of the fixed board.
    pub open spec fn moved(self, row: usize, col: usize) -> GameView {
        match self.target {
            Some((i, j)) => self.game.placed(
                i as int,
                j as int,
                row as int,
                col as int,
                self.turn,
            ),
            None => self.game,
        }
    }

    /// The game is well formed, and a fixed board is one of the nine.
    pub open spec fn wf(self) -> bool {
        &&& self.game.wf()
        &&& self.target matches Some((i, j)) ==> i < 3 && j < 3
    }
}

/// A game in play: the boards, the player whose turn it is, and the board
/// the turn goes to.
#[derive(Debug)]
pub struct Session {
    game: OuterBoard,
    turn: Marking,
    target: Option<(usize, usize)>,
}

impl View for Session {
    type V = SessionView;

    closed spec fn view(&self) -> SessionView {
        SessionView { game: self.game@, turn: self.turn, target: self.target }
    }
}

impl Session {
    /// A session before the first line.
    pub fn new() -> (s: Session)
        ensures
            s@ == SessionView::start(),
            s@.wf(),
    {
        Session { game: OuterBoard::new(), turn: Marking::Cross, target: None }
    }

    /// The game as it stands.
    pub fn game(&self) -> (g: &OuterBoard)
        ensures
            g@ == self@.game,
    {
        &self.game
    }

    /// The player whose turn it is.
    pub fn turn(&self) -> (m: Marking)
        ensures
            m == self@.turn,
    {
        self.turn
    }

    /// The board the turn goes to, or `None` while the first line is
    /// awaited.
    pub fn target(&self) -> (t: Option<(usize, usize)>)
        ensures
            t == self@.target,
    {
        self.target
    }

    /// Takes one line of the player whose turn it is and answers it.
    ///
    /// The board a move points to is the target of the next move whatever
    /// that board holds: on a board with a winner the free cells can still
    /// be played, and on a full board every placement is turned down.
    pub fn answer(&mut self, line: String) -> (reply: Reply)
        ensures
            reply == old(self)@.reply(line@),
            final(self)@ == old(self)@.answered(line@),
            old(self)@.wf() ==> final(self)@.wf(),
    {
        let (row, col) = match get_position(line) {
            Ok(p) => p,
            Err(e) => {
                return Reply::NoPosition(e);
            },
        };
        let (i, j) = match self.target {
            Some(t) => t,
            None => {
                self.target = Some((row, col));
                return Reply::Start(row, col);
            },
        };
        let mark = self.turn;
        match self.game.place(i, j, &row, &col, &mark) {
            Err(e) => Reply::Refused(e),
            Ok(Outcome::Won(m)) => Reply::Won(m),
            Ok(Outcome::Next(r, c)) => {
                self.turn = mark.other_mark();
                self.target = Some((r, c));
                Reply::Placed(r, c)
            },
        }
    }
}

} // verus!
