//! Boards drawn as text.

use vstd::prelude::*;
use vstd::seq_lib::lemma_concat_associative;
use crate::inner_board::InnerBoard;
use crate::lines::{mark_at, Marks};
use crate::outer_board::{GameView, OuterBoard};

verus! {

/// The character that stands for the cell at `(row, col)`: the mark's own, or
/// a blank for an empty cell.
pub open spec fn glyph_at(marks: Marks, row: int, col: int) -> char {
    match mark_at(marks, row, col) {
        Some(m) => m.glyph(),
        None => ' ',
    }
}

/// One row of a board, its three cells between bars.
pub open spec fn draw_row(marks: Marks, row: int) -> Seq<char> {
    seq![
        '|',
        glyph_at(marks, row, 0),
        '|',
        glyph_at(marks, row, 1),
        '|',
        glyph_at(marks, row, 2),
        '|',
    ]
}

/// One row of a board with the rule below it, each on a line of its own.
pub open spec fn draw_line(marks: Marks, row: int) -> Seq<char> {
    draw_row(marks, row) + "\n-------\n"@
}

/// A board on seven lines: a rule, then each row with a rule below it.
pub open spec fn draw_board(marks: Marks) -> Seq<char> {
    "-------\n"@ + draw_line(marks, 0) + draw_line(marks, 1) + draw_line(marks, 2)
}

/// Row `row` of the three boards in band `i` of the game, side by side
/// between double bars, with the rule below it.
pub open spec fn draw_band_line(g: GameView, i: int, row: int) -> Seq<char> {
    "‖"@ + draw_row(g.boards[(i, 0)].marks, row) + "‖"@ + draw_row(g.boards[(i, 1)].marks, row)
        + "‖"@ + draw_row(g.boards[(i, 2)].marks, row) + "‖\n‖-------‖-------‖-------‖\n"@
}

/// The three boards in band `i` of the game, closed by a heavy rule.
pub open spec fn draw_band(g: GameView, i: int) -> Seq<char> {
    draw_band_line(g, i, 0) + draw_band_line(g, i, 1) + draw_band_line(g, i, 2)
        + "=========================\n"@
}

/// The nine boards of a game: a heavy rule, then the three bands.
pub open spec fn draw_game(g: GameView) -> Seq<char> {
    "=========================\n"@ + draw_band(g, 0) + draw_band(g, 1) + draw_band(g, 2)
}

/// The opening bar of a row and its first `n` cells, a bar after each.
spec fn cells_upto(marks: Marks, row: int, n: int) -> Seq<char>
    decreases n,
{
    if n <= 0 {
        seq!['|']
    } else {
        cells_upto(marks, row, n - 1) + seq![glyph_at(marks, row, n - 1), '|']
    }
}

/// The first `n` rows of a board, each with its rule.
spec fn lines_upto(marks: Marks, n: int) -> Seq<char>
    decreases n,
{
    if n <= 0 {
        Seq::empty()
    } else {
        lines_upto(marks, n - 1) + draw_line(marks, n - 1)
    }
}

/// The opening double bar of a row of band `i` and that row of the band's
/// first `n` boards, a double bar after each.
spec fn boards_upto(g: GameView, i: int, row: int, n: int) -> Seq<char>
    decreases n,
{
    if n <= 0 {
        "‖"@
    } else {
        boards_upto(g, i, row, n - 1) + (draw_row(g.boards[(i, n - 1)].marks, row) + "‖"@)
    }
}

/// The first `n` rows of a band, each with its rule.
spec fn band_lines_upto(g: GameView, i: int, n: int) -> Seq<char>
    decreases n,
{
    if n <= 0 {
        Seq::empty()
    } else {
        band_lines_upto(g, i, n - 1) + draw_band_line(g, i, n - 1)
    }
}

/// The first `n` bands of a game.
spec fn bands_upto(g: GameView, n: int) -> Seq<char>
    decreases n,
{
    if n <= 0 {
        Seq::empty()
    } else {
        bands_upto(g, n - 1) + draw_band(g, n - 1)
    }
}

/// Three pieces gathered one after another behind `head` read as `head`
/// followed by the three, and still do with `tail` behind them.
proof fn lemma_gathered(
    head: Seq<char>,
    a: Seq<char>,
    b: Seq<char>,
    c: Seq<char>,
    tail: Seq<char>,
)
    ensures
        head + (Seq::<char>::empty() + a + b + c) == head + a + b + c,
        head + (Seq::<char>::empty() + a + b + c) + tail == head + (a + b + c + tail),
{
}

impl InnerBoard {
    /// Appends row `row` of this board to `out`, its cells between bars.
    fn push_row(&self, out: &mut String, row: usize)
        requires
            row < 3,
        ensures
            final(out)@ == old(out)@ + draw_row(self@.marks, row as int),
    {
        proof {
            reveal_strlit("|");
        }
        out.append("|");
        for col in 0..3usize
            invariant
                row < 3,
                out@ == old(out)@ + cells_upto(self@.marks, row as int, col as int),
        {
            proof {
                reveal_strlit("|");
                reveal_strlit(" ");
            }
            match self.cell(row, col) {
                Some(m) => out.append(m.as_str()),
                None => out.append(" "),
            }
            out.append("|");
            proof {
                lemma_concat_associative(
                    old(out)@,
                    cells_upto(self@.marks, row as int, col as int),
                    seq![glyph_at(self@.marks, row as int, col as int), '|'],
                );
            }
        }
        assert(cells_upto(self@.marks, row as int, 3) =~= draw_row(self@.marks, row as int)) by {
            reveal_with_fuel(cells_upto, 4);
        }
    }

    /// The board as text, on seven lines: a rule of dashes, then each row
    /// between bars with a rule below it. A nought is drawn `O`, a cross `X`
    /// and an empty cell as a blank.
    pub fn render(&self) -> (text: String)
        ensures
            text@ == draw_board(self@.marks),
    {
        let mut text = String::new();
        text.append("-------\n");
        for row in 0..3usize
            invariant
                text@ == "-------\n"@ + lines_upto(self@.marks, row as int),
        {
            let ghost before = text@;
            self.push_row(&mut text, row);
            text.append("\n-------\n");
            proof {
                let line = draw_row(self@.marks, row as int);
                lemma_concat_associative(before, line, "\n-------\n"@);
                lemma_concat_associative(
                    "-------\n"@,
                    lines_upto(self@.marks, row as int),
                    draw_line(self@.marks, row as int),
                );
            }
        }
        proof {
            reveal_with_fuel(lines_upto, 4);
            lemma_gathered(
                "-------\n"@,
                draw_line(self@.marks, 0),
                draw_line(self@.marks, 1),
                draw_line(self@.marks, 2),
                Seq::empty(),
            );
        }
        text
    }
}

impl OuterBoard {
    /// Appends row `row` of the three boards in band `i` to `out`, with the
    /// rule below it.
    fn push_band_line(&self, out: &mut String, i: usize, row: usize)
        requires
            i < 3,
            row < 3,
        ensures
            final(out)@ == old(out)@ + draw_band_line(self@, i as int, row as int),
    {
        out.append("‖");
        for j in 0..3usize
            invariant
                i < 3,
                row < 3,
                out@ == old(out)@ + boards_upto(self@, i as int, row as int, j as int),
        {
            let ghost before = out@;
            match self.board(i, j) {
                Some(b) => b.push_row(out, row),
                None => {},
            }
            out.append("‖");
            proof {
                let piece = draw_row(self@.boards[(i as int, j as int)].marks, row as int) + "‖"@;
                lemma_concat_associative(
                    before,
                    draw_row(self@.boards[(i as int, j as int)].marks, row as int),
                    "‖"@,
                );
                lemma_concat_associative(
                    old(out)@,
                    boards_upto(self@, i as int, row as int, j as int),
                    piece,
                );
            }
        }
        out.append("\n‖-------‖-------‖-------‖\n");
        proof {
            reveal_strlit("‖");
            reveal_strlit("\n‖-------‖-------‖-------‖\n");
            reveal_strlit("‖\n‖-------‖-------‖-------‖\n");
            reveal_with_fuel(boards_upto, 4);
            assert(old(out)@ + boards_upto(self@, i as int, row as int, 3)
                + "\n‖-------‖-------‖-------‖\n"@ =~= old(out)@ + draw_band_line(
                self@,
                i as int,
                row as int,
            ));
        }
    }

    /// Appends the three boards in band `i` to `out`: their rows side by
    /// side, and a heavy rule below.
    fn push_band(&self, out: &mut String, i: usize)
        requires
            i < 3,
        ensures
            final(out)@ == old(out)@ + draw_band(self@, i as int),
    {
        for row in 0..3usize
            invariant
                i < 3,
                out@ == old(out)@ + band_lines_upto(self@, i as int, row as int),
        {
            self.push_band_line(out, i, row);
            proof {
                lemma_concat_associative(
                    old(out)@,
                    band_lines_upto(self@, i as int, row as int),
                    draw_band_line(self@, i as int, row as int),
                );
            }
        }
        out.append("=========================\n");
        proof {
            reveal_with_fuel(band_lines_upto, 4);
            lemma_gathered(
                old(out)@,
                draw_band_line(self@, i as int, 0),
                draw_band_line(self@, i as int, 1),
                draw_band_line(self@, i as int, 2),
                "=========================\n"@,
            );
        }
    }

    /// The nine boards as text: a heavy rule, then for each band of three
    /// boards their rows side by side between double bars, a rule below each
    /// row and a heavy rule below the band.
    pub fn render(&self) -> (text: String)
        ensures
            text@ == draw_game(self@),
    {
        let mut text = String::new();
        text.append("=========================\n");
        for i in 0..3usize
            invariant
                text@ == "=========================\n"@ + bands_upto(self@, i as int),
        {
            self.push_band(&mut text, i);
            proof {
                lemma_concat_associative(
                    "=========================\n"@,
                    bands_upto(self@, i as int),
                    draw_band(self@, i as int),
                );
            }
        }
        proof {
            reveal_with_fuel(bands_upto, 4);
            lemma_gathered(
                "=========================\n"@,
                draw_band(self@, 0),
                draw_band(self@, 1),
                draw_band(self@, 2),
                Seq::empty(),
            );
        }
        text
    }
}

} // verus!
