//! The rules of play: what a key does to the falling piece, what the clock
//! does to it, and when the game ends. The caller shows the frame, waits for
//! a key and reads the clock; `Game::step` decides.

use crate::board::Board;
use crate::geometry::{cells_at, fits, fixed, has_cell, occupied, on_board, HEIGHT, MASK_SIDE, WIDTH};
use crate::piece::{canonical_mask, is_canonical, shape_cells, Tetromino, SHAPE_COUNT};
use vstd::prelude::*;

verus! {

/// How long the caller waits for a key before it goes on, in milliseconds.
pub const POLL_MS: u64 = 50;

/// The time between two steps of gravity, in milliseconds.
pub const TICK_MS: u128 = 400;

/// Column of the anchor of a new piece: `WIDTH / 2 - 2`, which centres the mask.
pub const SPAWN_X: isize = 3;

/// Row of the anchor of a new piece.
pub const SPAWN_Y: isize = 0;

/// A key as the terminal reports it.
#[derive(Clone, Copy, Debug, PartialEq, Eq)]
pub enum Key {
    Left,
    Right,
    Down,
    Enter,
    Esc,
    Char(char),
    Other,
}

/// What a key asks for.
#[derive(Clone, Copy, Debug, PartialEq, Eq)]
pub enum Command {
    Left,
    Right,
    Down,
    Rotate,
    Quit,
    Ignore,
}

/// Whether the game goes on.
#[derive(Clone, Copy, Debug, PartialEq, Eq)]
pub enum Phase {
    Running,
    Terminated,
}

/// What the caller does after a step.
#[derive(Clone, Copy, Debug, PartialEq, Eq)]
pub enum Step {
    /// Show the next frame and go on; restart the gravity clock if told so.
    Continue { restart_clock: bool },
    /// Leave the loop: nothing more is shown.
    Exit,
}

/// The command of a key: the arrows move, Enter (or a carriage return or line
/// feed that comes as a character) rotates, Escape quits, all else is ignored.
pub open spec fn command_of(key: Key) -> Command {
    match key {
        Key::Left => Command::Left,
        Key::Right => Command::Right,
        Key::Down => Command::Down,
        Key::Enter => Command::Rotate,
        Key::Char(c) => if c == '\r' || c == '\n' {
            Command::Rotate
        } else {
            Command::Ignore
        },
        Key::Esc => Command::Quit,
        Key::Other => Command::Ignore,
    }
}

/// The command of what the poll brought: no key asks for nothing.
pub open spec fn command_of_input(key: Option<Key>) -> Command {
    match key {
        Some(k) => command_of(k),
        None => Command::Ignore,
    }
}

/// The game as mathematics: the filled cells, the mask of the falling piece,
/// its anchor, and whether the game goes on.
pub struct GameView {
    pub filled: Set<(int, int)>,
    pub mask: Seq<Seq<u8>>,
    pub x: int,
    pub y: int,
    pub running: bool,
}

impl GameView {
    /// The game at its start: an empty board and the piece at the spawn anchor.
    pub open spec fn start(mask: Seq<Seq<u8>>) -> GameView {
        GameView { filled: Set::empty(), mask, x: SPAWN_X as int, y: SPAWN_Y as int, running: true }
    }

    /// The cells under the falling piece.
    pub open spec fn cells(self) -> Set<(int, int)> {
        cells_at(self.mask, self.x, self.y)
    }

    /// The piece moved by `(dx, dy)` if it fits there, else the game unchanged.
    pub open spec fn shifted(self, dx: int, dy: int) -> GameView {
        if fits(self.filled, cells_at(self.mask, self.x + dx, self.y + dy)) {
            GameView { x: self.x + dx, y: self.y + dy, ..self }
        } else {
            self
        }
    }

    /// The piece turned a quarter clockwise if it fits so at its anchor, else
    /// the game unchanged.
    pub open spec fn turned(self) -> GameView {
        let mask = crate::geometry::rotate_mask(self.mask);
        if fits(self.filled, cells_at(mask, self.x, self.y)) {
            GameView { mask, ..self }
        } else {
            self
        }
    }

    /// The game after a command. A game that has ended stays as it is.
    pub open spec fn after(self, command: Command) -> GameView {
        if !self.running {
            self
        } else {
            match command {
                Command::Left => self.shifted(-1, 0),
                Command::Right => self.shifted(1, 0),
                Command::Down => self.shifted(0, 1),
                Command::Rotate => self.turned(),
                Command::Quit => GameView { running: false, ..self },
                Command::Ignore => self,
            }
        }
    }

    /// Whether the piece has landed: it cannot go one row down.
    pub open spec fn lands(self) -> bool {
        !fits(self.filled, cells_at(self.mask, self.x, self.y + 1))
    }

    /// The piece one row further down.
    pub open spec fn fallen(self) -> GameView {
        GameView { y: self.y + 1, ..self }
    }

    /// The piece fixed where it is, and `next` at the spawn anchor. Whether
    /// the spawn anchor is free is not asked.
    pub open spec fn settled(self, next: Seq<Seq<u8>>) -> GameView {
        GameView {
            filled: fixed(self.filled, self.cells()),
            mask: next,
            x: SPAWN_X as int,
            y: SPAWN_Y as int,
            ..self
        }
    }

    /// One step of gravity with `next` as the piece to come: the piece falls a
    /// row, or lands and `next` takes its place. A game that has ended stays
    /// as it is.
    pub open spec fn ticked(self, next: Seq<Seq<u8>>) -> GameView {
        if !self.running {
            self
        } else if self.lands() {
            self.settled(next)
        } else {
            self.fallen()
        }
    }
}

impl Command {
    /// The command that a key asks for.
    pub fn from_key(key: Key) -> (command: Command)
        ensures
            command == command_of(key),
    {
        match key {
            Key::Left => Command::Left,
            Key::Right => Command::Right,
            Key::Down => Command::Down,
            Key::Enter => Command::Rotate,
            Key::Char(c) => if c == '\r' || c == '\n' {
                Command::Rotate
            } else {
                Command::Ignore
            },
            Key::Esc => Command::Quit,
            Key::Other => Command::Ignore,
        }
    }
}

/// Whether gravity is due after `elapsed_ms` milliseconds since its last step.
pub fn tick_due(elapsed_ms: u128) -> (due: bool)
    ensures
        due == (elapsed_ms >= TICK_MS),
{
    elapsed_ms >= TICK_MS
}

/// Every shape has a cell.
pub proof fn lemma_canonical_has_cell(mask: Seq<Seq<u8>>)
    requires
        is_canonical(mask),
    ensures
        has_cell(mask),
{
    let kind = choose|kind: int| 0 <= kind < SHAPE_COUNT && mask == #[trigger] canonical_mask(kind);
    assert(shape_cells(kind).contains((1, 1)));
    assert(occupied(mask, 1, 1));
}

/// A quarter turn keeps a piece from being blank.
pub proof fn lemma_rotation_keeps_cell(mask: Seq<Seq<u8>>)
    requires
        has_cell(mask),
    ensures
        has_cell(crate::geometry::rotate_mask(mask)),
{
    let (col, row) = choose|col: int, row: int| occupied(mask, col, row);
    assert(occupied(crate::geometry::rotate_mask(mask), MASK_SIDE - 1 - row, col));
}

/// A piece with a cell that fits at an anchor has its anchor near the board.
pub proof fn lemma_fit_bounds_anchor(filled: Set<(int, int)>, mask: Seq<Seq<u8>>, x: int, y: int)
    requires
        has_cell(mask),
        fits(filled, cells_at(mask, x, y)),
    ensures
        -(MASK_SIDE as int) < x < WIDTH,
        -(MASK_SIDE as int) < y < HEIGHT,
{
    let (col, row) = choose|col: int, row: int| occupied(mask, col, row);
    assert(cells_at(mask, x, y).contains((x + col, y + row)));
    assert(on_board(x + col, y + row));
}

/// The game: the board, the falling piece and its anchor. The piece in play
/// always has a cell, and its anchor stays within a mask's side of the board.
pub struct Game {
    board: Board,
    piece: Tetromino,
    x: isize,
    y: isize,
    phase: Phase,
}

impl View for Game {
    type V = GameView;

    closed spec fn view(&self) -> GameView {
        GameView {
            filled: self.board@,
            mask: self.piece@,
            x: self.x as int,
            y: self.y as int,
            running: self.phase == Phase::Running,
        }
    }
}

impl Game {
    #[verifier::type_invariant]
    spec fn well_formed(self) -> bool {
        &&& has_cell(self.piece@)
        &&& -(MASK_SIDE as int) < self.x < WIDTH
        &&& -(MASK_SIDE as int) < self.y < HEIGHT
    }

    /// A game that starts with the given piece: an empty board, the piece at
    /// the spawn anchor `(WIDTH / 2 - 2, 0)`.
    pub fn with_piece(first: Tetromino) -> (game: Game)
        requires
            has_cell(first@),
        ensures
            game@ == GameView::start(first@),
            game@.x == WIDTH / 2 - 2,
            game@.y == 0,
    {
        Game { board: Board::new(), piece: first, x: SPAWN_X, y: SPAWN_Y, phase: Phase::Running }
    }

    /// A game that starts with a random shape.
    pub fn new() -> (game: Game)
        ensures
            is_canonical(game@.mask),
            game@ == GameView::start(game@.mask),
    {
        let first = Tetromino::random();
        proof {
            lemma_canonical_has_cell(first@);
        }
        Game::with_piece(first)
    }

    /// The board with the pieces that have landed.
    pub fn board(&self) -> (board: &Board)
        ensures
            board@ == self@.filled,
    {
        &self.board
    }

    /// The falling piece. It is never blank.
    pub fn piece(&self) -> (piece: Tetromino)
        ensures
            piece@ == self@.mask,
            has_cell(piece@),
    {
        proof {
            use_type_invariant(self);
        }
        self.piece
    }

    /// The anchor `(x, y)` of the falling piece. The mask always touches the
    /// board or lies next to it.
    pub fn position(&self) -> (anchor: (isize, isize))
        ensures
            anchor.0 == self@.x,
            anchor.1 == self@.y,
            -(MASK_SIDE as int) < anchor.0 < WIDTH,
            -(MASK_SIDE as int) < anchor.1 < HEIGHT,
    {
        proof {
            use_type_invariant(self);
        }
        (self.x, self.y)
    }

    /// Whether the game goes on.
    pub fn is_running(&self) -> (running: bool)
        ensures
            running == self@.running,
    {
        match self.phase {
            Phase::Running => true,
            Phase::Terminated => false,
        }
    }

    /// The frame that shows the board and the falling piece.
    pub fn render(&self) -> (frame: String)
        ensures
            frame@ == crate::display::frame_text(self@.filled, self@.cells()),
    {
        self.board.render(&self.piece, self.x, self.y)
    }

    /// Applies a command: a move or a turn is made if the piece fits there and
    /// dropped if it does not; quitting ends the game. A game that has ended
    /// stays as it is.
    pub fn handle(&mut self, command: Command)
        ensures
            final(self)@ == old(self)@.after(command),
    {
        proof {
            use_type_invariant(&*self);
        }
        if !self.is_running() {
            return ;
        }
        match command {
            Command::Left => {
                if !self.board.check_collision(&self.piece, self.x - 1, self.y) {
                    proof {
                        lemma_fit_bounds_anchor(self.board@, self.piece@, self.x - 1, self.y as int);
                    }
                    self.x = self.x - 1;
                }
            },
            Command::Right => {
                if !self.board.check_collision(&self.piece, self.x + 1, self.y) {
                    proof {
                        lemma_fit_bounds_anchor(self.board@, self.piece@, self.x + 1, self.y as int);
                    }
                    self.x = self.x + 1;
                }
            },
            Command::Down => {
                if !self.board.check_collision(&self.piece, self.x, self.y + 1) {
                    proof {
                        lemma_fit_bounds_anchor(self.board@, self.piece@, self.x as int, self.y + 1);
                    }
                    self.y = self.y + 1;
                }
            },
            Command::Rotate => {
                let rotated = self.piece.rotate_right();
                if !self.board.check_collision(&rotated, self.x, self.y) {
                    proof {
                        lemma_rotation_keeps_cell(self.piece@);
                    }
                    self.piece = rotated;
                }
            },
            Command::Quit => {
                self.phase = Phase::Terminated;
            },
            Command::Ignore => {},
        }
    }

    /// Whether the piece has landed: it cannot go one row down.
    pub fn lands(&self) -> (landed: bool)
        ensures
            landed == self@.lands(),
    {
        proof {
            use_type_invariant(self);
        }
        self.board.check_collision(&self.piece, self.x, self.y + 1)
    }

    /// Fixes the falling piece into the board where it is and puts `next` at
    /// the spawn anchor, whether or not that place is free.
    pub fn settle(&mut self, next: Tetromino)
        requires
            has_cell(next@),
        ensures
            final(self)@ == old(self)@.settled(next@),
    {
        proof {
            use_type_invariant(&*self);
        }
        self.board.fix_tetromino(&self.piece, self.x, self.y);
        self.piece = next;
        self.x = SPAWN_X;
        self.y = SPAWN_Y;
    }

    /// One step of gravity: the piece falls a row; if it has landed, it is
    /// fixed and a random shape takes its place at the spawn anchor. A game
    /// that has ended stays as it is.
    pub fn gravity(&mut self)
        ensures
            final(self)@ == old(self)@.ticked(final(self)@.mask),
            old(self)@.running && old(self)@.lands() ==> is_canonical(final(self)@.mask),
    {
        proof {
            use_type_invariant(&*self);
        }
        if !self.is_running() {
            return ;
        }
        if self.lands() {
            let next = Tetromino::random();
            proof {
                lemma_canonical_has_cell(next@);
            }
            self.settle(next);
        } else {
            proof {
                lemma_fit_bounds_anchor(self.board@, self.piece@, self.x as int, self.y + 1);
            }
            self.y = self.y + 1;
        }
    }

    /// One turn of the loop, after the frame was shown: `key` is what the poll
    /// brought, `elapsed_ms` the time since gravity last acted. The command of
    /// the key is applied first. Quitting ends the turn at once: gravity does
    /// not act and the caller leaves the loop. Else gravity acts if it is due,
    /// and the caller is told to restart its clock.
    pub fn step(&mut self, key: Option<Key>, elapsed_ms: u128) -> (next: Step)
        ensures
            ({
                let moved = old(self)@.after(command_of_input(key));
                if !moved.running {
                    next == Step::Exit && final(self)@ == moved
                } else if elapsed_ms >= TICK_MS {
                    &&& next == (Step::Continue { restart_clock: true })
                    &&& final(self)@ == moved.ticked(final(self)@.mask)
                    &&& moved.lands() ==> is_canonical(final(self)@.mask)
                } else {
                    next == (Step::Continue { restart_clock: false }) && final(self)@ == moved
                }
            }),
    {
        let command = match key {
            Some(k) => Command::from_key(k),
            None => Command::Ignore,
        };
        self.handle(command);
        if !self.is_running() {
            return Step::Exit;
        }
        if tick_due(elapsed_ms) {
            self.gravity();
            Step::Continue { restart_clock: true }
        } else {
            Step::Continue { restart_clock: false }
        }
    }
}

} // verus!
