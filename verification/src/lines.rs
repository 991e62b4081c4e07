//! The eight winning lines of a three by three grid.
//!
//! A grid is modelled by the marks placed on it: a map from `(row, column)`
//! to the mark that cell holds. A cell that holds nothing has no entry.

use vstd::prelude::*;
use crate::marking::Marking;

verus! {

/// The marks on a grid, by `(row, column)`.
pub type Marks = Map<(int, int), Marking>;

/// `(row, col)` names one of the nine cells.
pub open spec fn in_grid(row: int, col: int) -> bool {
    0 <= row < 3 && 0 <= col < 3
}

/// Every key of `marks` names a cell.
pub open spec fn within_grid(marks: Marks) -> bool {
    forall|p: (int, int)| #[trigger] marks.dom().contains(p) ==> in_grid(p.0, p.1)
}

/// The cell at `(row, col)` holds exactly `m`.
pub open spec fn holds(marks: Marks, row: int, col: int, m: Marking) -> bool {
    marks.contains_pair((row, col), m)
}

/// What the cell at `(row, col)` holds, if anything.
pub open spec fn mark_at(marks: Marks, row: int, col: int) -> Option<Marking> {
    if marks.dom().contains((row, col)) {
        Some(marks[(row, col)])
    } else {
        None
    }
}

/// All three cells of row `row` hold `m`.
pub open spec fn row_full(marks: Marks, row: int, m: Marking) -> bool {
    holds(marks, row, 0, m) && holds(marks, row, 1, m) && holds(marks, row, 2, m)
}

/// All three cells of column `col` hold `m`.
pub open spec fn col_full(marks: Marks, col: int, m: Marking) -> bool {
    holds(marks, 0, col, m) && holds(marks, 1, col, m) && holds(marks, 2, col, m)
}

/// The diagonal from the top left to the bottom right holds `m` throughout.
pub open spec fn diagonal_full(marks: Marks, m: Marking) -> bool {
    holds(marks, 0, 0, m) && holds(marks, 1, 1, m) && holds(marks, 2, 2, m)
}

/// The diagonal from the top right to the bottom left holds `m` throughout.
pub open spec fn antidiagonal_full(marks: Marks, m: Marking) -> bool {
    holds(marks, 0, 2, m) && holds(marks, 1, 1, m) && holds(marks, 2, 0, m)
}

/// `m` fills at least one of the eight lines: three rows, three columns and
/// the two diagonals.
pub open spec fn has_line(marks: Marks, m: Marking) -> bool {
    ||| row_full(marks, 0, m)
    ||| row_full(marks, 1, m)
    ||| row_full(marks, 2, m)
    ||| col_full(marks, 0, m)
    ||| col_full(marks, 1, m)
    ||| col_full(marks, 2, m)
    ||| diagonal_full(marks, m)
    ||| antidiagonal_full(marks, m)
}

/// Neither player fills a line.
pub open spec fn no_line(marks: Marks) -> bool {
    !has_line(marks, Marking::Nought) && !has_line(marks, Marking::Cross)
}

} // verus!
