//! The food cell: eat detection and placement away from the snake.
use rand::Rng;
use vstd::prelude::*;
use crate::grid::SnakePiece;
use crate::snake::Snake;

verus! {

/// How many random cells placement draws before it walks the board instead.
/// With a single free cell on a board of a thousand cells, running out of draws
/// has a chance below one in a million trillion.
pub const DRAW_LIMIT: u32 = 65536;

/// The cell the snake is after.
#[derive(Clone, Copy, Debug, PartialEq, Eq, Structural)]
pub struct Food {
    pub pos_x: u32,
    pub pos_y: u32,
}

/// Relies on rand's `thread_rng().gen_range(0, bound)`: a value in `[0, bound)`,
/// which panics when the range is empty.
#[verifier::external_body]
fn random_below(bound: u32) -> (r: u32)
    requires
        0 < bound,
    ensures
        r < bound,
{
    rand::thread_rng().gen_range(0, bound)
}

/// Every cell of the board is covered by the snake.
pub open spec fn board_full(snake: &Snake, cols: int, rows: int) -> bool {
    forall|x: int, y: int|
        0 <= x < cols && 0 <= y < rows ==> #[trigger] snake.snake_parts@.contains(
            SnakePiece(x as i32, y as i32),
        )
}

impl Food {
    /// The food's cell.
    pub open spec fn cell(&self) -> SnakePiece {
        SnakePiece(self.pos_x as i32, self.pos_y as i32)
    }

    /// A cell the food may be placed on: on the board and off the snake.
    pub open spec fn free_for(&self, snake: &Snake, cols: int, rows: int) -> bool {
        &&& self.pos_x < cols
        &&& self.pos_y < rows
        &&& !snake.snake_parts@.contains(self.cell())
    }

    /// Whether the snake's head is on the food.
    pub fn update(&self, snake: &Snake) -> (r: bool)
        requires
            snake.snake_parts@.len() > 0,
            self.pos_x <= i32::MAX,
            self.pos_y <= i32::MAX,
        ensures
            r == (snake.snake_parts@[0] == self.cell()),
    {
        let front = snake.snake_parts[0];
        front.0 == self.pos_x as i32 && front.1 == self.pos_y as i32
    }

    /// Food on cell `(x, y)` if the snake leaves that cell free.
    pub fn place(snake: &Snake, x: u32, y: u32) -> (r: Option<Food>)
        requires
            x <= i32::MAX,
            y <= i32::MAX,
        ensures
            r == (if snake.snake_parts@.contains(SnakePiece(x as i32, y as i32)) {
                None
            } else {
                Some(Food { pos_x: x, pos_y: y })
            }),
    {
        if snake.is_collide(x as i32, y as i32) {
            None
        } else {
            Some(Food { pos_x: x, pos_y: y })
        }
    }

    /// New food on a uniformly drawn cell that the snake does not cover,
    /// drawing again while the drawn cell is covered. Should `DRAW_LIMIT` draws
    /// all miss, the first free cell in row order is taken. `None` only when
    /// the snake covers the whole board.
    pub fn respawn(cols: u32, rows: u32, snake: &Snake) -> (r: Option<Food>)
        requires
            0 < cols <= i32::MAX,
            0 < rows <= i32::MAX,
        ensures
            match r {
                Some(f) => f.free_for(snake, cols as int, rows as int),
                None => board_full(snake, cols as int, rows as int),
            },
    {
        let mut draws: u32 = 0;
        while draws < DRAW_LIMIT
            invariant
                0 < cols <= i32::MAX,
                0 < rows <= i32::MAX,
            decreases DRAW_LIMIT - draws,
        {
            let x = random_below(cols);
            let y = random_below(rows);
            let placed = Food::place(snake, x, y);
            if placed.is_some() {
                return placed;
            }
            draws = draws + 1;
        }
        let mut y: u32 = 0;
        while y < rows
            invariant
                y <= rows,
                rows <= i32::MAX,
                0 < cols <= i32::MAX,
                forall|xx: int, yy: int|
                    0 <= xx < cols && 0 <= yy < y ==> #[trigger] snake.snake_parts@.contains(
                        SnakePiece(xx as i32, yy as i32),
                    ),
            decreases rows - y,
        {
            let mut x: u32 = 0;
            while x < cols
                invariant
                    x <= cols,
                    y < rows,
                    rows <= i32::MAX,
                    0 < cols <= i32::MAX,
                    forall|xx: int, yy: int|
                        0 <= xx < cols && 0 <= yy < y ==> #[trigger] snake.snake_parts@.contains(
                            SnakePiece(xx as i32, yy as i32),
                        ),
                    forall|xx: int|
                        0 <= xx < x ==> #[trigger] snake.snake_parts@.contains(
                            SnakePiece(xx as i32, y as i32),
                        ),
                decreases cols - x,
            {
                let placed = Food::place(snake, x, y);
                if placed.is_some() {
                    return placed;
                }
                x = x + 1;
            }
            y = y + 1;
        }
        None
    }
}

} // verus!
