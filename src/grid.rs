//! Cells, headings, and one step of movement on a wrap-around board.
use vstd::prelude::*;

verus! {

/// One of the four headings a snake can travel in.
#[derive(Clone, Copy, Debug, PartialEq, Eq, Structural)]
pub enum Direction {
    Right,
    Left,
    Up,
    Down,
}

/// A cell of the board, column first. Signed so that a value just past an edge
/// can be written down while a move is being computed.
#[derive(Clone, Copy, Debug, PartialEq, Eq, Structural)]
pub struct SnakePiece(pub i32, pub i32);

/// The heading that points the other way.
pub open spec fn opposite(d: Direction) -> Direction {
    match d {
        Direction::Right => Direction::Left,
        Direction::Left => Direction::Right,
        Direction::Up => Direction::Down,
        Direction::Down => Direction::Up,
    }
}

/// The cell lies on a board of `cols` columns and `rows` rows.
pub open spec fn in_board(p: SnakePiece, cols: int, rows: int) -> bool {
    0 <= p.0 < cols && 0 <= p.1 < rows
}

/// The cell one step away from `p` in heading `d`, leaving one edge of the
/// board and coming back in at the opposite one.
pub open spec fn step(p: SnakePiece, d: Direction, cols: int, rows: int) -> SnakePiece {
    match d {
        Direction::Left => SnakePiece((if p.0 == 0 { cols - 1 } else { p.0 - 1 }) as i32, p.1),
        Direction::Right => SnakePiece((if p.0 == cols - 1 { 0 } else { p.0 + 1 }) as i32, p.1),
        Direction::Up => SnakePiece(p.0, (if p.1 == 0 { rows - 1 } else { p.1 - 1 }) as i32),
        Direction::Down => SnakePiece(p.0, (if p.1 == rows - 1 { 0 } else { p.1 + 1 }) as i32),
    }
}

/// Whether turning from `current` to `requested` would reverse the snake.
pub fn is_reversal(current: Direction, requested: Direction) -> (r: bool)
    ensures
        r == (requested == opposite(current)),
{
    match current {
        Direction::Right => requested == Direction::Left,
        Direction::Left => requested == Direction::Right,
        Direction::Up => requested == Direction::Down,
        Direction::Down => requested == Direction::Up,
    }
}

impl SnakePiece {
    /// The cell reached from this one by one move in heading `d`. A move off an
    /// edge first places the coordinate just beyond the opposite edge, so that
    /// the unit step lands on the first cell inside it.
    pub fn step(self, d: Direction, cols: u32, rows: u32) -> (r: SnakePiece)
        requires
            in_board(self, cols as int, rows as int),
            cols <= i32::MAX,
            rows <= i32::MAX,
        ensures
            r == step(self, d, cols as int, rows as int),
            in_board(r, cols as int, rows as int),
    {
        let mut x: i32 = self.0;
        let mut y: i32 = self.1;
        if x == 0 && d == Direction::Left {
            x = cols as i32;
        } else if d == Direction::Right && x == (cols - 1) as i32 {
            x = -1;
        }
        if y == 0 && d == Direction::Up {
            y = rows as i32;
        } else if y == (rows - 1) as i32 && d == Direction::Down {
            y = -1;
        }
        match d {
            Direction::Left => x = x - 1,
            Direction::Right => x = x + 1,
            Direction::Up => y = y - 1,
            Direction::Down => y = y + 1,
        }
        SnakePiece(x, y)
    }
}

/// A move never leaves the board, and a move off an edge comes back in on the
/// last (or first) cell of the opposite edge.
pub proof fn lemma_step_wraps(p: SnakePiece, d: Direction, cols: int, rows: int)
    requires
        in_board(p, cols, rows),
        cols <= i32::MAX,
        rows <= i32::MAX,
    ensures
        in_board(step(p, d, cols, rows), cols, rows),
        p.0 == 0 && d == Direction::Left ==> step(p, d, cols, rows) == SnakePiece((cols - 1) as i32, p.1),
        p.0 == cols - 1 && d == Direction::Right ==> step(p, d, cols, rows) == SnakePiece(0, p.1),
        p.1 == 0 && d == Direction::Up ==> step(p, d, cols, rows) == SnakePiece(p.0, (rows - 1) as i32),
        p.1 == rows - 1 && d == Direction::Down ==> step(p, d, cols, rows) == SnakePiece(p.0, 0),
{
}

} // verus!
