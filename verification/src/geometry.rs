//! The mathematics of cells: which cells a mask covers at an anchor, when a
//! set of cells fits on the board, and what fixing it there leaves filled.
//!
//! A cell is a pair `(col, row)`, with `(0, 0)` the top-left cell of the board.

use vstd::prelude::*;

verus! {

/// Number of columns of the board.
pub const WIDTH: usize = 10;

/// Number of rows of the board.
pub const HEIGHT: usize = 20;

/// Side of the square mask that holds a piece.
pub const MASK_SIDE: usize = 4;

/// A mask is four rows of four entries.
pub open spec fn is_mask(mask: Seq<Seq<u8>>) -> bool {
    &&& mask.len() == MASK_SIDE
    &&& forall|row: int| 0 <= row < MASK_SIDE ==> (#[trigger] mask[row]).len() == MASK_SIDE
}

/// Whether the mask holds a 1 at `(col, row)`; nothing is occupied outside the mask.
pub open spec fn occupied(mask: Seq<Seq<u8>>, col: int, row: int) -> bool {
    &&& 0 <= col < MASK_SIDE
    &&& 0 <= row < MASK_SIDE
    &&& mask[row][col] == 1
}

/// Whether the mask has an occupied entry at all.
pub open spec fn has_cell(mask: Seq<Seq<u8>>) -> bool {
    exists|col: int, row: int| occupied(mask, col, row)
}

/// The board cells that a mask covers when its top-left corner is at `(x, y)`.
pub open spec fn cells_at(mask: Seq<Seq<u8>>, x: int, y: int) -> Set<(int, int)> {
    Set::new(|cell: (int, int)| occupied(mask, cell.0 - x, cell.1 - y))
}

/// Whether `(col, row)` is a cell of the board.
pub open spec fn on_board(col: int, row: int) -> bool {
    0 <= col < WIDTH && 0 <= row < HEIGHT
}

/// All the cells of the board.
pub open spec fn board_cells() -> Set<(int, int)> {
    Set::new(|cell: (int, int)| on_board(cell.0, cell.1))
}

/// A set of cells fits when each of them is on the board and not filled yet.
pub open spec fn fits(filled: Set<(int, int)>, cells: Set<(int, int)>) -> bool {
    cells.subset_of(board_cells().difference(filled))
}

/// What is filled after `cells` are fixed: cells off the board are dropped.
pub open spec fn fixed(filled: Set<(int, int)>, cells: Set<(int, int)>) -> Set<(int, int)> {
    filled.union(cells.intersect(board_cells()))
}

/// The mask turned a quarter clockwise: the entry at `(col, row)` goes to
/// `(3 - row, col)`.
pub open spec fn rotate_mask(mask: Seq<Seq<u8>>) -> Seq<Seq<u8>> {
    Seq::new(
        MASK_SIDE as nat,
        |row: int| Seq::new(MASK_SIDE as nat, |col: int| mask[MASK_SIDE - 1 - col][row]),
    )
}

} // verus!
