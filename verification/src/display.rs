//! The text of a frame: what the terminal is sent to show the board and the
//! falling piece.

use crate::geometry::{HEIGHT, WIDTH};
use vstd::prelude::*;

verus! {

/// The escape sequence that clears the screen and moves the cursor home:
/// `ESC [ 2 J`, then `ESC [ 1 ; 1 H`.
pub open spec fn clear_screen() -> Seq<char> {
    seq!['\x1b', '[', '2', 'J', '\x1b', '[', '1', ';', '1', 'H']
}

/// The two characters of one cell: `[]` where the falling piece is, else `[]`
/// where the board is filled, else a blank and a dot.
pub open spec fn cell_text(active: bool, filled: bool) -> Seq<char> {
    if active {
        seq!['[', ']']
    } else if filled {
        seq!['[', ']']
    } else {
        seq![' ', '.']
    }
}

/// The cells of one row, from column 0 up to but not including `upto`.
pub open spec fn cells_text(
    filled: Set<(int, int)>,
    active: Set<(int, int)>,
    row: int,
    upto: int,
) -> Seq<char> {
    Seq::new(
        upto as nat,
        |col: int| cell_text(active.contains((col, row)), filled.contains((col, row))),
    ).flatten()
}

/// One line of the frame: the cells of the row, then a line feed.
pub open spec fn row_text(filled: Set<(int, int)>, active: Set<(int, int)>, row: int) -> Seq<
    char,
> {
    cells_text(filled, active, row, WIDTH as int) + seq!['\n']
}

/// The lines of the rows from row 0 up to but not including `upto`.
pub open spec fn rows_text(filled: Set<(int, int)>, active: Set<(int, int)>, upto: int) -> Seq<
    char,
> {
    Seq::new(upto as nat, |row: int| row_text(filled, active, row)).flatten()
}

/// The whole frame: the clearing sequence, then every row from the top down.
pub open spec fn frame_text(filled: Set<(int, int)>, active: Set<(int, int)>) -> Seq<char> {
    clear_screen() + rows_text(filled, active, HEIGHT as int)
}

/// Adding one more cell to a row's text appends that cell's two characters.
pub proof fn lemma_cells_text_step(
    filled: Set<(int, int)>,
    active: Set<(int, int)>,
    row: int,
    upto: int,
)
    requires
        0 <= upto,
    ensures
        cells_text(filled, active, row, 0) == Seq::<char>::empty(),
        cells_text(filled, active, row, upto + 1) == cells_text(filled, active, row, upto)
            + cell_text(active.contains((upto, row)), filled.contains((upto, row))),
{
    let cell = |col: int| cell_text(active.contains((col, row)), filled.contains((col, row)));
    let shorter = Seq::new(upto as nat, cell);
    assert(Seq::new((upto + 1) as nat, cell) =~= shorter.push(cell(upto)));
    shorter.lemma_flatten_push(cell(upto));
    assert(Seq::new(0nat, cell).flatten() =~= Seq::<char>::empty());
}

/// Adding one more row to the text appends that row's line.
pub proof fn lemma_rows_text_step(filled: Set<(int, int)>, active: Set<(int, int)>, upto: int)
    requires
        0 <= upto,
    ensures
        rows_text(filled, active, 0) == Seq::<char>::empty(),
        rows_text(filled, active, upto + 1) == rows_text(filled, active, upto) + row_text(
            filled,
            active,
            upto,
        ),
{
    let line = |row: int| row_text(filled, active, row);
    let shorter = Seq::new(upto as nat, line);
    assert(Seq::new((upto + 1) as nat, line) =~= shorter.push(line(upto)));
    shorter.lemma_flatten_push(line(upto));
    assert(Seq::new(0nat, line).flatten() =~= Seq::<char>::empty());
}

} // verus!
