//! The falling piece: a 4×4 mask, the seven shapes, and a quarter turn.

use crate::chance::pick_in_range;
use crate::geometry::{cells_at, rotate_mask, MASK_SIDE};
use vstd::prelude::*;

verus! {

/// How many shapes there are.
pub const SHAPE_COUNT: usize = 7;

/// A piece is its mask: a 1 marks an occupied entry. `shape[row][col]`.
#[derive(Clone, Copy, Debug, PartialEq, Eq)]
pub struct Tetromino {
    pub shape: [[u8; 4]; 4],
}

/// The rows of an array mask, as sequences.
pub open spec fn mask_of(shape: [[u8; 4]; 4]) -> Seq<Seq<u8>> {
    Seq::new(MASK_SIDE as nat, |row: int| shape[row]@)
}

impl View for Tetromino {
    type V = Seq<Seq<u8>>;

    open spec fn view(&self) -> Seq<Seq<u8>> {
        mask_of(self.shape)
    }
}

/// The four mask cells `(col, row)` of each shape, in the order I, O, S, Z, J, L, T.
pub open spec fn shape_cells(kind: int) -> Set<(int, int)> {
    if kind == 0 {
        set![(0, 1), (1, 1), (2, 1), (3, 1)]
    } else if kind == 1 {
        set![(0, 0), (1, 0), (0, 1), (1, 1)]
    } else if kind == 2 {
        set![(1, 0), (2, 0), (0, 1), (1, 1)]
    } else if kind == 3 {
        set![(0, 0), (1, 0), (1, 1), (2, 1)]
    } else if kind == 4 {
        set![(0, 0), (0, 1), (1, 1), (2, 1)]
    } else if kind == 5 {
        set![(2, 0), (0, 1), (1, 1), (2, 1)]
    } else {
        set![(1, 0), (0, 1), (1, 1), (2, 1)]
    }
}

/// The mask of a shape: 1 on its four cells, 0 elsewhere.
pub open spec fn canonical_mask(kind: int) -> Seq<Seq<u8>> {
    Seq::new(
        MASK_SIDE as nat,
        |row: int|
            Seq::new(
                MASK_SIDE as nat,
                |col: int|
                    if shape_cells(kind).contains((col, row)) {
                        1u8
                    } else {
                        0u8
                    },
            ),
    )
}

/// Whether the mask is that of one of the seven shapes.
pub open spec fn is_canonical(mask: Seq<Seq<u8>>) -> bool {
    exists|kind: int| 0 <= kind < SHAPE_COUNT && mask == #[trigger] canonical_mask(kind)
}

impl Tetromino {
    /// The masks of the seven shapes, in the order I, O, S, Z, J, L, T.
    pub fn patterns() -> (all: Vec<[[u8; 4]; 4]>)
        ensures
            all@.len() == SHAPE_COUNT,
            forall|kind: int|
                0 <= kind < SHAPE_COUNT ==> mask_of(#[trigger] all@[kind]) == canonical_mask(kind),
    {
        let all = vec![
            [
                [0, 0, 0, 0],
                [1, 1, 1, 1],
                [0, 0, 0, 0],
                [0, 0, 0, 0],
            ],
            [
                [1, 1, 0, 0],
                [1, 1, 0, 0],
                [0, 0, 0, 0],
                [0, 0, 0, 0],
            ],
            [
                [0, 1, 1, 0],
                [1, 1, 0, 0],
                [0, 0, 0, 0],
                [0, 0, 0, 0],
            ],
            [
                [1, 1, 0, 0],
                [0, 1, 1, 0],
                [0, 0, 0, 0],
                [0, 0, 0, 0],
            ],
            [
                [1, 0, 0, 0],
                [1, 1, 1, 0],
                [0, 0, 0, 0],
                [0, 0, 0, 0],
            ],
            [
                [0, 0, 1, 0],
                [1, 1, 1, 0],
                [0, 0, 0, 0],
                [0, 0, 0, 0],
            ],
            [
                [0, 1, 0, 0],
                [1, 1, 1, 0],
                [0, 0, 0, 0],
                [0, 0, 0, 0],
            ],
        ];
        proof {
            assert forall|kind: int| 0 <= kind < SHAPE_COUNT implies mask_of(#[trigger] all@[kind])
                == canonical_mask(kind) by {
                assert(mask_of(all@[kind]) =~~= canonical_mask(kind));
            }
        }
        all
    }

    /// The shape with the given index, in the order of `patterns`.
    pub fn from_index(index: usize) -> (piece: Tetromino)
        requires
            index < SHAPE_COUNT,
        ensures
            piece@ == canonical_mask(index as int),
    {
        let patterns = Tetromino::patterns();
        Tetromino { shape: patterns[index] }
    }

    /// One of the seven shapes, picked by the random source. Which one is not
    /// said: the contract holds of every pick.
    pub fn random() -> (piece: Tetromino)
        ensures
            is_canonical(piece@),
    {
        let mut rng = rand::thread_rng();
        let index = pick_in_range(&mut rng, 0, SHAPE_COUNT);
        Tetromino::from_index(index)
    }

    /// Whether the piece, anchored at `(x, y)`, covers the board cell
    /// `(col, row)`. A cell that falls outside the mask is never covered.
    pub fn occupies(&self, x: isize, y: isize, col: usize, row: usize) -> (covered: bool)
        ensures
            covered == cells_at(self@, x as int, y as int).contains((col as int, row as int)),
            !(0 <= col - x < MASK_SIDE && 0 <= row - y < MASK_SIDE) ==> !covered,
    {
        let rel_x: i128 = col as i128 - x as i128;
        let rel_y: i128 = row as i128 - y as i128;
        if rel_x >= 0 && rel_x < 4 && rel_y >= 0 && rel_y < 4 {
            self.shape[rel_y as usize][rel_x as usize] == 1
        } else {
            false
        }
    }

    /// The piece turned a quarter clockwise within its mask. The receiver is
    /// left as it was.
    pub fn rotate_right(&self) -> (rotated: Tetromino)
        ensures
            rotated@ == rotate_mask(self@),
    {
        let mut new_shape = [[0u8; 4]; 4];
        for y in 0..4usize
            invariant
                forall|row: int, col: int|
                    0 <= row < y && 0 <= col < MASK_SIDE ==> new_shape[col][3 - row]
                        == self.shape[row][col],
        {
            for x in 0..4usize
                invariant
                    y < MASK_SIDE,
                    forall|row: int, col: int|
                        0 <= row < y && 0 <= col < MASK_SIDE ==> new_shape[col][3 - row]
                            == self.shape[row][col],
                    forall|col: int|
                        0 <= col < x ==> new_shape[col][3 - y] == self.shape[y as int][col],
            {
                new_shape[x][3 - y] = self.shape[y][x];
            }
        }
        let rotated = Tetromino { shape: new_shape };
        proof {
            assert forall|row: int, col: int|
                0 <= row < MASK_SIDE && 0 <= col < MASK_SIDE implies rotated@[row][col]
                == rotate_mask(self@)[row][col] by {
                assert(new_shape[row][3 - (3 - col)] == self.shape[3 - col][row]);
            }
            assert(rotated@ =~~= rotate_mask(self@));
        }
        rotated
    }
}

} // verus!
