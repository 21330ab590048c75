use tetromino_game::geometry::{HEIGHT, WIDTH};
use tetromino_game::{Board, Cell, Tetromino};

const I: usize = 0;
const O: usize = 1;
const T: usize = 6;

fn filled_cells(board: &Board) -> Vec<(usize, usize)> {
    let mut cells = Vec::new();
    for row in 0..HEIGHT {
        for col in 0..WIDTH {
            if board.filled_at(col, row) {
                cells.push((col, row));
            }
        }
    }
    cells
}

#[test]
fn board_dimensions() {
    assert_eq!(WIDTH, 10);
    assert_eq!(HEIGHT, 20);
    assert_ne!(Cell::Empty, Cell::Filled);
}

#[test]
fn new_board_is_empty() {
    let board = Board::new();
    assert!(filled_cells(&board).is_empty());
}

#[test]
fn filled_at_is_false_off_the_board() {
    let mut board = Board::new();
    board.fix_tetromino(&Tetromino { shape: [[1; 4]; 4] }, 6, 16);
    assert!(board.filled_at(9, 19));
    assert!(!board.filled_at(10, 19));
    assert!(!board.filled_at(9, 20));
    assert!(!board.filled_at(usize::MAX, usize::MAX));
}

#[test]
fn i_piece_on_an_empty_board() {
    let board = Board::new();
    let piece = Tetromino::from_index(I);
    assert!(!board.check_collision(&piece, 3, 0));
    assert!(board.check_collision(&piece, -1, 0));
    assert!(!board.check_collision(&piece, 0, 0));
    assert!(!board.check_collision(&piece, 6, 0));
    assert!(board.check_collision(&piece, 7, 0));
    for y in 0..19 {
        assert!(!board.check_collision(&piece, 3, y));
    }
    assert!(!board.check_collision(&piece, 3, 18));
    assert!(board.check_collision(&piece, 3, 19));
    assert!(!board.check_collision(&piece, 3, -1));
    assert!(board.check_collision(&piece, 3, -2));
}

#[test]
fn fixing_an_o_piece_fills_its_block() {
    let mut board = Board::new();
    board.fix_tetromino(&Tetromino::from_index(O), 4, 18);
    assert_eq!(filled_cells(&board), vec![(4, 18), (5, 18), (4, 19), (5, 19)]);
}

#[test]
fn collision_whenever_a_cell_is_off_the_board() {
    let mut board = Board::new();
    board.fix_tetromino(&Tetromino::from_index(O), 0, 18);
    for kind in 0..7 {
        let piece = Tetromino::from_index(kind);
        for y in -5isize..25 {
            for x in -5isize..15 {
                let mut off = false;
                for row in 0..4 {
                    for col in 0..4 {
                        if piece.shape[row][col] == 1 {
                            let nx = x + col as isize;
                            let ny = y + row as isize;
                            if nx < 0 || nx >= 10 || ny < 0 || ny >= 20 {
                                off = true;
                            }
                        }
                    }
                }
                if off {
                    assert!(board.check_collision(&piece, x, y));
                }
            }
        }
    }
}

#[test]
fn collision_with_a_filled_cell() {
    let mut board = Board::new();
    let piece = Tetromino::from_index(O);
    board.fix_tetromino(&piece, 4, 18);
    assert!(board.check_collision(&piece, 4, 18));
    assert!(board.check_collision(&piece, 5, 17));
    assert!(board.check_collision(&piece, 3, 18));
    assert!(!board.check_collision(&piece, 4, 16));
    assert!(!board.check_collision(&piece, 6, 18));
    assert!(!board.check_collision(&piece, 2, 18));
}

#[test]
fn collision_far_from_the_board() {
    let board = Board::new();
    let piece = Tetromino::from_index(T);
    assert!(board.check_collision(&piece, isize::MAX, isize::MAX));
    assert!(board.check_collision(&piece, isize::MIN, isize::MIN));
    assert!(board.check_collision(&piece, isize::MAX, 0));
    assert!(board.check_collision(&piece, 0, isize::MIN));
}

#[test]
fn a_blank_mask_never_collides() {
    let mut board = Board::new();
    board.fix_tetromino(&Tetromino { shape: [[1; 4]; 4] }, 0, 0);
    let blank = Tetromino { shape: [[0; 4]; 4] };
    assert!(!board.check_collision(&blank, 0, 0));
    assert!(!board.check_collision(&blank, -100, 100));
    assert!(!board.check_collision(&blank, isize::MAX, isize::MIN));
}

#[test]
fn check_collision_leaves_the_board_alone() {
    let mut board = Board::new();
    board.fix_tetromino(&Tetromino::from_index(T), 2, 5);
    let before = filled_cells(&board);
    let _ = board.check_collision(&Tetromino::from_index(I), 2, 5);
    assert_eq!(filled_cells(&board), before);
}

#[test]
fn fixing_passes_over_cells_off_the_board() {
    let mut board = Board::new();
    board.fix_tetromino(&Tetromino::from_index(I), -2, 0);
    assert_eq!(filled_cells(&board), vec![(0, 1), (1, 1)]);
    let mut board = Board::new();
    board.fix_tetromino(&Tetromino::from_index(I), 8, 18);
    assert_eq!(filled_cells(&board), vec![(8, 19), (9, 19)]);
    let mut board = Board::new();
    board.fix_tetromino(&Tetromino::from_index(I), 3, 19);
    assert!(filled_cells(&board).is_empty());
    board.fix_tetromino(&Tetromino::from_index(I), isize::MAX, isize::MIN);
    assert!(filled_cells(&board).is_empty());
}

#[test]
fn fixing_keeps_what_was_filled() {
    let mut board = Board::new();
    board.fix_tetromino(&Tetromino::from_index(O), 4, 18);
    board.fix_tetromino(&Tetromino::from_index(I), 5, 17);
    assert_eq!(
        filled_cells(&board),
        vec![(4, 18), (5, 18), (6, 18), (7, 18), (8, 18), (4, 19), (5, 19)]
    );
}

#[test]
fn no_collision_exactly_when_fixing_changes_the_cells_of_the_piece() {
    let mut start = Board::new();
    start.fix_tetromino(&Tetromino::from_index(O), 4, 18);
    start.fix_tetromino(&Tetromino::from_index(I), 0, 15);
    for kind in 0..7 {
        let piece = Tetromino::from_index(kind);
        for y in -4isize..21 {
            for x in -4isize..11 {
                let mut board = start;
                let hit = start.check_collision(&piece, x, y);
                board.fix_tetromino(&piece, x, y);
                let mut exact = true;
                for row in -4isize..24 {
                    for col in -4isize..14 {
                        let on_board = (0..10).contains(&col) && (0..20).contains(&row);
                        let before = on_board && start.filled_at(col as usize, row as usize);
                        let after = on_board && board.filled_at(col as usize, row as usize);
                        let under = (0..4).contains(&(col - x)) && (0..4).contains(&(row - y))
                            && piece.shape[(row - y) as usize][(col - x) as usize] == 1;
                        if (before != after) != under {
                            exact = false;
                        }
                        if under && !hit {
                            assert!(after);
                        }
                        if before {
                            assert!(after);
                        }
                    }
                }
                assert_eq!(!hit, exact);
            }
        }
    }
}

#[test]
fn render_of_an_empty_board_with_the_i_piece() {
    let board = Board::new();
    let frame = board.render(&Tetromino::from_index(I), 3, 0);
    let mut expected = String::from("\x1B[2J\x1B[1;1H");
    expected.push_str(" . . . . . . . . . .\n");
    expected.push_str(" . . .[][][][] . . .\n");
    for _ in 2..20 {
        expected.push_str(" . . . . . . . . . .\n");
    }
    assert_eq!(frame, expected);
    assert_eq!(frame.len(), 10 + 20 * 21);
}

#[test]
fn render_shows_filled_cells_and_the_piece() {
    let mut board = Board::new();
    board.fix_tetromino(&Tetromino::from_index(O), 4, 18);
    let frame = board.render(&Tetromino::from_index(T), 0, 17);
    let lines: Vec<&str> = frame.split('\n').collect();
    assert_eq!(lines.len(), 21);
    assert_eq!(lines[20], "");
    assert_eq!(lines[0], "\x1B[2J\x1B[1;1H . . . . . . . . . .");
    assert_eq!(lines[16], " . . . . . . . . . .");
    assert_eq!(lines[17], " .[] . . . . . . . .");
    assert_eq!(lines[18], "[][][] .[][] . . . .");
    assert_eq!(lines[19], " . . . .[][] . . . .");
}

#[test]
fn render_with_the_piece_off_the_board() {
    let board = Board::new();
    let frame = board.render(&Tetromino::from_index(I), -2, 18);
    let lines: Vec<&str> = frame.split('\n').collect();
    assert_eq!(lines[19], "[][] . . . . . . . .");
    let frame = board.render(&Tetromino::from_index(I), isize::MIN, isize::MAX);
    assert!(!frame.contains("[]"));
}
