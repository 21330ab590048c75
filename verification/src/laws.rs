//! What holds of the pieces and the board whatever the game does.

use crate::board::Board;
use crate::geometry::{board_cells, cells_at, fits, fixed, is_mask, rotate_mask};
use crate::piece::{canonical_mask, shape_cells, Tetromino, SHAPE_COUNT};
use vstd::prelude::*;

verus! {

/// The cells in which two sets of filled cells differ.
pub open spec fn changed(before: Set<(int, int)>, after: Set<(int, int)>) -> Set<(int, int)> {
    Set::new(|cell: (int, int)| before.contains(cell) != after.contains(cell))
}

/// Pieces with the same mask are the same piece.
pub proof fn lemma_mask_determines_piece(a: Tetromino, b: Tetromino)
    requires
        a@ == b@,
    ensures
        a == b,
{
    assert forall|row: int| 0 <= row < 4 implies a.shape[row] == b.shape[row] by {
        assert(a@[row] == b@[row]);
        assert(a.shape[row]@ == b.shape[row]@);
        assert(a.shape[row] =~= b.shape[row]);
    }
    assert(a.shape =~= b.shape);
}

/// Four quarter turns give back the mask: a piece turned four times is the
/// piece it was. This holds of every mask, so of each of the seven shapes.
pub proof fn lemma_four_turns_restore(piece: Tetromino)
    ensures
        rotate_mask(rotate_mask(rotate_mask(rotate_mask(piece@)))) == piece@,
{
    let mask = piece@;
    assert(is_mask(mask));
    let once = rotate_mask(mask);
    let twice = rotate_mask(once);
    let thrice = rotate_mask(twice);
    let back = rotate_mask(thrice);
    assert forall|row: int, col: int| 0 <= row < 4 && 0 <= col < 4 implies back[row][col]
        == mask[row][col] by {
        assert(back[row][col] == thrice[3 - col][row]);
        assert(thrice[3 - col][row] == twice[3 - row][3 - col]);
        assert(twice[3 - row][3 - col] == once[col][3 - row]);
        assert(once[col][3 - row] == mask[row][col]);
    }
    assert(back =~~= mask);
}

/// A shape anchored at `(x, y)` covers its four cells, moved by the anchor,
/// and nothing else.
pub proof fn lemma_shape_covers_its_cells(kind: int, x: int, y: int)
    requires
        0 <= kind < SHAPE_COUNT,
    ensures
        forall|col: int, row: int|
            cells_at(canonical_mask(kind), x, y).contains((col, row)) <==> #[trigger] shape_cells(
                kind,
            ).contains((col - x, row - y)),
{
    assert forall|col: int, row: int|
        cells_at(canonical_mask(kind), x, y).contains((col, row)) <==> #[trigger] shape_cells(
            kind,
        ).contains((col - x, row - y)) by {
        if shape_cells(kind).contains((col - x, row - y)) {
            assert(0 <= col - x < 4 && 0 <= row - y < 4);
        }
    }
}

/// A piece with a cell off the board collides, whatever the board holds.
pub proof fn lemma_off_board_never_fits(board: Board, piece: Tetromino, x: int, y: int)
    requires
        !cells_at(piece@, x, y).subset_of(board_cells()),
    ensures
        !fits(board@, cells_at(piece@, x, y)),
{
}

/// A piece fits at an anchor exactly when fixing it there changes the cells
/// under the piece and no others. Fixing only ever fills: each cell that
/// changes is filled afterwards, and no filled cell is lost.
pub proof fn lemma_fits_iff_fixing_changes_its_cells(board: Board, piece: Tetromino, x: int, y: int)
    ensures
        fits(board@, cells_at(piece@, x, y)) <==> changed(
            board@,
            fixed(board@, cells_at(piece@, x, y)),
        ) == cells_at(piece@, x, y),
        changed(board@, fixed(board@, cells_at(piece@, x, y))).subset_of(
            fixed(board@, cells_at(piece@, x, y)),
        ),
        board@.subset_of(fixed(board@, cells_at(piece@, x, y))),
{
    let cells = cells_at(piece@, x, y);
    let after = fixed(board@, cells);
    if fits(board@, cells) {
        assert(changed(board@, after) =~= cells);
    }
    if changed(board@, after) == cells {
        assert forall|cell: (int, int)| cells.contains(cell) implies board_cells().difference(
            board@,
        ).contains(cell) by {
            assert(changed(board@, after).contains(cell));
        }
    }
}

} // verus!
