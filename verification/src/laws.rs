//! What holds of every board and every game, whatever was played.

use vstd::prelude::*;
use crate::error::PlacementError;
use crate::inner_board::BoardView;
use crate::lines::{has_line, holds, in_grid, mark_at, no_line};
use crate::marking::Marking;
use crate::outer_board::GameView;

verus! {

/// One placement that was asked for on a board: the row, the column and the
/// mark.
pub struct BoardMove {
    pub row: usize,
    pub col: usize,
    pub mark: Marking,
}

/// One placement that was asked for in a game: the board's row and column,
/// the cell's row and column, and the mark.
pub struct GameMove {
    pub i: usize,
    pub j: usize,
    pub row: usize,
    pub col: usize,
    pub mark: Marking,
}

/// The board after the placements `moves` were asked for, in order.
pub open spec fn board_after(b: BoardView, moves: Seq<BoardMove>) -> BoardView
    decreases moves.len(),
{
    if moves.len() == 0 {
        b
    } else {
        let last = moves.last();
        board_after(b, moves.drop_last()).attempted(last.row, last.col, last.mark)
    }
}

/// The game after the placements `moves` were asked for, in order.
pub open spec fn game_after(g: GameView, moves: Seq<GameMove>) -> GameView
    decreases moves.len(),
{
    if moves.len() == 0 {
        g
    } else {
        let last = moves.last();
        game_after(g, moves.drop_last()).attempted(last.i, last.j, last.row, last.col, last.mark)
    }
}

/// A mark that was placed on a free cell of the grid is found on that cell
/// afterwards, and the other mark is not.
pub proof fn placed_mark_is_found(b: BoardView, row: usize, col: usize, m: Marking)
    requires
        b.refusal(row, col) is None,
    ensures
        holds(b.placed(row as int, col as int, m).marks, row as int, col as int, m),
        !holds(b.placed(row as int, col as int, m).marks, row as int, col as int, m.other()),
{
}

/// A placement leaves every other cell as it was.
pub proof fn placed_keeps_other_cells(
    b: BoardView,
    row: usize,
    col: usize,
    m: Marking,
    r: int,
    c: int,
)
    requires
        (r, c) != (row as int, col as int),
    ensures
        mark_at(b.placed(row as int, col as int, m).marks, r, c) == mark_at(b.marks, r, c),
{
}

/// A row or a column of 3 or more is turned down as an invalid location,
/// whatever the board holds, and the board stays as it was.
pub proof fn off_grid_is_refused(b: BoardView, row: usize, col: usize, m: Marking)
    requires
        row >= 3 || col >= 3,
    ensures
        b.refusal(row, col) == Some(PlacementError::InvalidLocationError(row, col)),
        b.attempted(row, col, m) == b,
{
}

/// A cell of the grid that holds a mark is turned down as filled, and the
/// board stays as it was.
pub proof fn filled_cell_is_refused(b: BoardView, row: usize, col: usize, m: Marking)
    requires
        row < 3,
        col < 3,
        mark_at(b.marks, row as int, col as int) is Some,
    ensures
        b.refusal(row, col) == Some(PlacementError::FilledSpaceError(row, col)),
        b.attempted(row, col, m) == b,
{
}

/// The move with which `m` fills any of the eight lines makes `m` the
/// recorded winner, on a board where the other player is not recorded.
pub proof fn completing_move_records_winner(b: BoardView, row: usize, col: usize, m: Marking)
    requires
        b.refusal(row, col) is None,
        b.winner != Some(m.other()),
        has_line(b.marks.insert((row as int, col as int), m), m),
    ensures
        b.placed(row as int, col as int, m).winner == Some(m),
{
}

/// A recorded winner stays through one more placement, accepted or not.
pub proof fn recorded_winner_stays(b: BoardView, row: usize, col: usize, m: Marking)
    requires
        b.winner is Some,
    ensures
        b.attempted(row, col, m).winner == b.winner,
{
}

/// A recorded winner stays whatever is played afterwards.
pub proof fn recorded_winner_is_final(b: BoardView, moves: Seq<BoardMove>)
    requires
        b.winner is Some,
    ensures
        board_after(b, moves).winner == b.winner,
    decreases moves.len(),
{
    if moves.len() > 0 {
        recorded_winner_is_final(b, moves.drop_last());
    }
}

/// A mark on a cell stays whatever is played afterwards.
pub proof fn placed_mark_is_final(b: BoardView, moves: Seq<BoardMove>, r: int, c: int)
    requires
        mark_at(b.marks, r, c) is Some,
    ensures
        mark_at(board_after(b, moves).marks, r, c) == mark_at(b.marks, r, c),
    decreases moves.len(),
{
    if moves.len() > 0 {
        placed_mark_is_final(b, moves.drop_last(), r, c);
    }
}

/// A well-formed board stays well formed through a placement.
pub proof fn board_stays_well_formed(b: BoardView, row: usize, col: usize, m: Marking)
    requires
        b.wf(),
    ensures
        b.attempted(row, col, m).wf(),
{
}

/// Every board that play can reach from the empty board is well formed.
pub proof fn reachable_board_is_well_formed(moves: Seq<BoardMove>)
    ensures
        board_after(BoardView::empty(), moves).wf(),
    decreases moves.len(),
{
    if moves.len() > 0 {
        reachable_board_is_well_formed(moves.drop_last());
        let last = moves.last();
        board_stays_well_formed(
            board_after(BoardView::empty(), moves.drop_last()),
            last.row,
            last.col,
            last.mark,
        );
    }
}

/// A well-formed board on which neither player fills a line has no winner,
/// however full it is: a draw.
pub proof fn board_without_line_has_no_winner(b: BoardView)
    requires
        b.wf(),
        no_line(b.marks),
    ensures
        b.winner is None,
{
}

/// The winner of a well-formed board fills a line of it, and a well-formed
/// board on which a player fills a line has a winner.
pub proof fn winner_goes_with_line(b: BoardView)
    requires
        b.wf(),
    ensures
        b.winner matches Some(w) ==> has_line(b.marks, w),
        b.winner is Some <==> !no_line(b.marks),
{
}

/// In a game, a board location off the grid is turned down with the board's
/// coordinates, a cell location off the grid with the cell's, and a filled
/// cell as filled; the game then stays as it was.
pub proof fn game_refusals(g: GameView, i: usize, j: usize, row: usize, col: usize, m: Marking)
    ensures
        i >= 3 || j >= 3 ==> g.refusal(i, j, row, col) == Some(
            PlacementError::InvalidLocationError(i, j),
        ),
        i < 3 && j < 3 && (row >= 3 || col >= 3) ==> g.refusal(i, j, row, col) == Some(
            PlacementError::InvalidLocationError(row, col),
        ),
        i < 3 && j < 3 && row < 3 && col < 3 && mark_at(
            g.boards[(i as int, j as int)].marks,
            row as int,
            col as int,
        ) is Some ==> g.refusal(i, j, row, col) == Some(
            PlacementError::FilledSpaceError(row, col),
        ),
        g.refusal(i, j, row, col) is Some ==> g.attempted(i, j, row, col, m) == g,
{
}

/// A placement in a game changes the addressed board as a placement on that
/// board alone would, and no other board.
pub proof fn game_placement_is_local(
    g: GameView,
    i: usize,
    j: usize,
    row: usize,
    col: usize,
    m: Marking,
    p: (int, int),
)
    requires
        g.boards.dom().contains(p),
    ensures
        g.attempted(i, j, row, col, m).boards[p] == if p == (i as int, j as int) && in_grid(
            i as int,
            j as int,
        ) {
            g.boards[p].attempted(row, col, m)
        } else {
            g.boards[p]
        },
{
}

/// The placement with which a board of a well-formed game gets its winner
/// puts that winner on the board's cell of the master board.
pub proof fn board_win_claims_master_cell(
    g: GameView,
    i: usize,
    j: usize,
    row: usize,
    col: usize,
    m: Marking,
)
    requires
        g.wf(),
        g.refusal(i, j, row, col) is None,
        g.boards[(i as int, j as int)].winner is None,
        has_line(g.boards[(i as int, j as int)].marks.insert((row as int, col as int), m), m),
    ensures
        holds(
            g.placed(i as int, j as int, row as int, col as int, m).master.marks,
            i as int,
            j as int,
            m,
        ),
{
}

/// A master cell that is set stays as it is through one more placement,
/// wherever that placement goes and whatever it wins.
pub proof fn master_cell_stays(
    g: GameView,
    i: usize,
    j: usize,
    row: usize,
    col: usize,
    m: Marking,
    r: int,
    c: int,
)
    requires
        mark_at(g.master.marks, r, c) is Some,
    ensures
        mark_at(g.attempted(i, j, row, col, m).master.marks, r, c) == mark_at(g.master.marks, r, c),
{
}

/// A master cell that is set stays as it is whatever is played afterwards.
pub proof fn master_cell_is_final(g: GameView, moves: Seq<GameMove>, r: int, c: int)
    requires
        mark_at(g.master.marks, r, c) is Some,
    ensures
        mark_at(game_after(g, moves).master.marks, r, c) == mark_at(g.master.marks, r, c),
    decreases moves.len(),
{
    if moves.len() > 0 {
        master_cell_is_final(g, moves.drop_last(), r, c);
        let last = moves.last();
        master_cell_stays(
            game_after(g, moves.drop_last()),
            last.i,
            last.j,
            last.row,
            last.col,
            last.mark,
            r,
            c,
        );
    }
}

/// The recorded winner of a game stays whatever is played afterwards.
pub proof fn game_winner_is_final(g: GameView, moves: Seq<GameMove>)
    requires
        g.master.winner is Some,
    ensures
        game_after(g, moves).master.winner == g.master.winner,
    decreases moves.len(),
{
    if moves.len() > 0 {
        game_winner_is_final(g, moves.drop_last());
    }
}

/// A well-formed game stays well formed through a placement: the master
/// board goes on mirroring the winners of the nine boards.
pub proof fn game_stays_well_formed(
    g: GameView,
    i: usize,
    j: usize,
    row: usize,
    col: usize,
    m: Marking,
)
    requires
        g.wf(),
    ensures
        g.attempted(i, j, row, col, m).wf(),
{
}

/// Every game that play can reach from the empty game is well formed.
pub proof fn reachable_game_is_well_formed(moves: Seq<GameMove>)
    ensures
        game_after(GameView::empty(), moves).wf(),
    decreases moves.len(),
{
    if moves.len() > 0 {
        reachable_game_is_well_formed(moves.drop_last());
        let last = moves.last();
        game_stays_well_formed(
            game_after(GameView::empty(), moves.drop_last()),
            last.i,
            last.j,
            last.row,
            last.col,
            last.mark,
        );
    }
}

/// In a well-formed game a master cell is set exactly when the board behind
/// it has a winner, and holds that winner.
pub proof fn master_mirrors_winners(g: GameView, i: int, j: int)
    requires
        g.wf(),
        in_grid(i, j),
    ensures
        mark_at(g.master.marks, i, j) == g.boards[(i, j)].winner,
{
}

} // verus!
