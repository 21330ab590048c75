//! The board: the grid of placed cells, the test whether a piece fits, and
//! the fixing of a landed piece.

use crate::display::{
    cell_text, cells_text, clear_screen, frame_text, lemma_cells_text_step, lemma_rows_text_step,
    row_text, rows_text,
};
use crate::geometry::{
    board_cells, cells_at, fits, fixed, on_board, HEIGHT, MASK_SIDE, WIDTH,
};
use crate::piece::Tetromino;
use vstd::prelude::*;
use vstd::string::*;

verus! {

/// The state of one board cell.
#[derive(Clone, Copy, PartialEq, Eq, Structural, Debug)]
pub enum Cell {
    Empty,
    Filled,
}

/// The grid of placed cells, `HEIGHT` rows of `WIDTH` cells. Only
/// `fix_tetromino` changes it.
#[derive(Clone, Copy, Debug)]
pub struct Board {
    grid: [[Cell; WIDTH]; HEIGHT],
}

impl View for Board {
    type V = Set<(int, int)>;

    /// The board is the set of its filled cells.
    closed spec fn view(&self) -> Set<(int, int)> {
        Set::new(|cell: (int, int)| self.is_filled(cell.0, cell.1))
    }
}

impl Board {
    /// Whether `(col, row)` is a cell of the board and filled.
    spec fn is_filled(&self, col: int, row: int) -> bool {
        on_board(col, row) && self.grid[row][col] == Cell::Filled
    }

    /// Every filled cell is a cell of the board.
    pub proof fn lemma_filled_cells_on_board(&self)
        ensures
            self@.subset_of(board_cells()),
    {
    }

    /// A board with every cell empty.
    pub fn new() -> (board: Board)
        ensures
            board@ == Set::<(int, int)>::empty(),
    {
        let board = Board { grid: [[Cell::Empty; WIDTH]; HEIGHT] };
        assert(board@ =~= Set::<(int, int)>::empty());
        board
    }

    /// Whether the board cell `(col, row)` is filled; no cell off the board is.
    pub fn filled_at(&self, col: usize, row: usize) -> (filled: bool)
        ensures
            filled == self@.contains((col as int, row as int)),
    {
        if col < WIDTH && row < HEIGHT {
            self.grid[row][col] == Cell::Filled
        } else {
            false
        }
    }

    /// Whether the piece, anchored at `(x, y)`, collides: one of its cells lies
    /// off the board or on a filled cell. The board is left as it was.
    pub fn check_collision(&self, tetromino: &Tetromino, x: isize, y: isize) -> (hit: bool)
        ensures
            hit == !fits(self@, cells_at(tetromino@, x as int, y as int)),
            !cells_at(tetromino@, x as int, y as int).subset_of(board_cells()) ==> hit,
    {
        let ghost cells = cells_at(tetromino@, x as int, y as int);
        for dy in 0..4usize
            invariant
                cells == cells_at(tetromino@, x as int, y as int),
                forall|col: int, row: int|
                    y <= row < y + dy && #[trigger] cells.contains((col, row)) ==> on_board(
                        col,
                        row,
                    ) && !self@.contains((col, row)),
        {
            for dx in 0..4usize
                invariant
                    dy < MASK_SIDE,
                    cells == cells_at(tetromino@, x as int, y as int),
                    forall|col: int, row: int|
                        y <= row < y + dy && #[trigger] cells.contains((col, row)) ==> on_board(
                            col,
                            row,
                        ) && !self@.contains((col, row)),
                    forall|col: int|
                        x <= col < x + dx && #[trigger] cells.contains((col, y + dy)) ==> on_board(
                            col,
                            y + dy,
                        ) && !self@.contains((col, y + dy)),
            {
                if tetromino.shape[dy][dx] == 1 {
                    let nx: i128 = x as i128 + dx as i128;
                    let ny: i128 = y as i128 + dy as i128;
                    assert(cells.contains((nx as int, ny as int)));
                    if nx < 0 || nx >= WIDTH as i128 || ny < 0 || ny >= HEIGHT as i128 {
                        return true;
                    }
                    if self.grid[ny as usize][nx as usize] == Cell::Filled {
                        assert(self@.contains((nx as int, ny as int)));
                        return true;
                    }
                }
            }
        }
        proof {
            assert forall|cell: (int, int)| cells.contains(cell) implies on_board(cell.0, cell.1)
                && !self@.contains(cell) by {
                assert(cells.contains((cell.0, cell.1)));
            }
        }
        false
    }

    /// Fixes the piece, anchored at `(x, y)`, into the grid: each of its cells
    /// that lies on the board becomes filled; a cell off the board is passed
    /// over. No other cell changes.
    pub fn fix_tetromino(&mut self, tetromino: &Tetromino, x: isize, y: isize)
        ensures
            final(self)@ == fixed(old(self)@, cells_at(tetromino@, x as int, y as int)),
        no_unwind
    {
        let ghost cells = cells_at(tetromino@, x as int, y as int);
        // `while`, not `for`: stepping a range is not known to the verifier as
        // free of unwinding, and this function promises not to unwind.
        let mut dy: usize = 0;
        while dy < MASK_SIDE
            invariant
                dy <= MASK_SIDE,
                cells == cells_at(tetromino@, x as int, y as int),
                forall|col: int, row: int|
                    #![trigger self.is_filled(col, row)]
                    self.is_filled(col, row) == (old(self).is_filled(col, row) || (on_board(
                        col,
                        row,
                    ) && cells.contains((col, row)) && row < y + dy)),
            decreases MASK_SIDE - dy,
        {
            let mut dx: usize = 0;
            while dx < MASK_SIDE
                invariant
                    dx <= MASK_SIDE,
                    dy < MASK_SIDE,
                    cells == cells_at(tetromino@, x as int, y as int),
                    forall|col: int, row: int|
                        #![trigger self.is_filled(col, row)]
                        self.is_filled(col, row) == (old(self).is_filled(col, row) || (on_board(
                            col,
                            row,
                        ) && cells.contains((col, row)) && (row < y + dy || (row == y + dy && col
                            < x + dx)))),
                decreases MASK_SIDE - dx,
            {
                let ghost before = *self;
                assert(cells.contains((x + dx, y + dy)) == (tetromino.shape[dy as int][dx as int]
                    == 1));
                if tetromino.shape[dy][dx] == 1 {
                    let nx: i128 = x as i128 + dx as i128;
                    let ny: i128 = y as i128 + dy as i128;
                    if nx >= 0 && nx < WIDTH as i128 && ny >= 0 && ny < HEIGHT as i128 {
                        self.grid[ny as usize][nx as usize] = Cell::Filled;
                    }
                }
                assert forall|col: int, row: int|
                    #![trigger self.is_filled(col, row)]
                    self.is_filled(col, row) == (before.is_filled(col, row) || (on_board(col, row)
                        && cells.contains((col, row)) && row == y + dy && col == x + dx)) by {
                    if on_board(col, row) {
                        assert(self.grid[row][col] == if row == y + dy && col == x + dx
                            && cells.contains((col, row)) {
                            Cell::Filled
                        } else {
                            before.grid[row][col]
                        });
                    }
                }
                dx += 1;
            }
            dy += 1;
        }
        assert(self@ =~= fixed(old(self)@, cells));
    }

    /// The frame that shows the board with the piece anchored at `(x, y)`:
    /// the sequence that clears the screen, then one line per row.
    pub fn render(&self, tetromino: &Tetromino, x: isize, y: isize) -> (frame: String)
        ensures
            frame@ == frame_text(self@, cells_at(tetromino@, x as int, y as int)),
    {
        let ghost active = cells_at(tetromino@, x as int, y as int);
        let mut frame = String::new();
        frame.append("\x1B[2J\x1B[1;1H");
        proof {
            reveal_strlit("\x1B[2J\x1B[1;1H");
            assert("\x1B[2J\x1B[1;1H"@ =~= clear_screen());
            reveal_strlit("[]");
            reveal_strlit(" .");
            reveal_strlit("\n");
            assert("[]"@ =~= cell_text(true, false));
            assert(" ."@ =~= cell_text(false, false));
            assert("\n"@ =~= seq!['\n']);
            lemma_rows_text_step(self@, active, 0);
        }
        for row in 0..HEIGHT
            invariant
                active == cells_at(tetromino@, x as int, y as int),
                frame@ == clear_screen() + rows_text(self@, active, row as int),
                "[]"@ == cell_text(true, false),
                " ."@ == cell_text(false, false),
                "\n"@ == seq!['\n'],
        {
            let ghost start = frame@;
            proof {
                lemma_cells_text_step(self@, active, row as int, 0);
            }
            for col in 0..WIDTH
                invariant
                    row < HEIGHT,
                    active == cells_at(tetromino@, x as int, y as int),
                    frame@ == start + cells_text(self@, active, row as int, col as int),
                    "[]"@ == cell_text(true, false),
                    " ."@ == cell_text(false, false),
            {
                proof {
                    lemma_cells_text_step(self@, active, row as int, col as int);
                }
                if tetromino.occupies(x, y, col, row) {
                    frame.append("[]");
                } else {
                    match self.grid[row][col] {
                        Cell::Empty => frame.append(" ."),
                        Cell::Filled => frame.append("[]"),
                    }
                }
            }
            frame.append("\n");
            proof {
                lemma_rows_text_step(self@, active, row as int);
                assert(frame@ =~= clear_screen() + rows_text(self@, active, row + 1));
            }
        }
        frame
    }
}

} // verus!
