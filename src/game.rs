//! A session: the snake, the food and the board, advanced one tick at a time.
use vstd::prelude::*;
use crate::food::{board_full, Food};
use crate::grid::{in_board, is_reversal, opposite, step, Direction, SnakePiece};
use crate::snake::{kept_body, Snake};

verus! {

/// What a tick tells the driver: keep going, or the session is over.
#[derive(Clone, Copy, Debug, PartialEq, Eq, Structural)]
pub enum GameResult {
    Continue,
    Terminated,
}

/// The state of one session. `next_direction` is the heading that the next
/// tick will travel in; requests change it, ticks apply it.
pub struct Game {
    pub snake: Snake,
    pub food: Food,
    pub just_eaten: bool,
    pub rows: u32,
    pub cols: u32,
    pub next_direction: Direction,
}

impl Game {
    /// The board fits the cell type, the snake is well formed on it, and the
    /// food lies on a free cell.
    pub open spec fn wf(&self) -> bool {
        &&& 0 < self.cols <= i32::MAX
        &&& 0 < self.rows <= i32::MAX
        &&& self.snake.wf(self.cols as int, self.rows as int)
        &&& self.food.free_for(&self.snake, self.cols as int, self.rows as int)
    }

    /// The body, head first.
    pub open spec fn body(&self) -> Seq<SnakePiece> {
        self.snake.snake_parts@
    }

    /// Where the head goes on the next tick.
    pub open spec fn next_head(&self) -> SnakePiece {
        step(self.body()[0], self.next_direction, self.cols as int, self.rows as int)
    }

    /// The next tick moves the head onto the part of the body that stays.
    pub open spec fn collides(&self) -> bool {
        kept_body(self.body(), self.just_eaten).contains(self.next_head())
    }

    /// The body after the next tick, when it does not collide.
    pub open spec fn moved_body(&self) -> Seq<SnakePiece> {
        seq![self.next_head()] + kept_body(self.body(), self.just_eaten)
    }

    /// The heading the next tick uses once `d` has been requested: `d`, unless
    /// it would reverse the heading in effect.
    pub open spec fn requested(&self, d: Direction) -> Direction {
        if d == opposite(self.snake.direction) {
            self.next_direction
        } else {
            d
        }
    }

    /// A session on a `cols` by `rows` board with a one-cell snake at `start`
    /// heading `direction`, and food at `food`.
    pub fn new(cols: u32, rows: u32, start: SnakePiece, direction: Direction, food: Food) -> (r: Game)
        requires
            0 < cols <= i32::MAX,
            0 < rows <= i32::MAX,
            in_board(start, cols as int, rows as int),
            food.pos_x < cols,
            food.pos_y < rows,
            food.cell() != start,
        ensures
            r.wf(),
            r.body() == seq![start],
            r.snake.direction == direction,
            r.next_direction == direction,
            r.food == food,
            !r.just_eaten,
            r.cols == cols,
            r.rows == rows,
    {
        let snake = Snake::new(start, direction);
        proof {
            assert(snake.snake_parts@.contains(food.cell()) ==> snake.snake_parts@[0] == food.cell());
        }
        Game { snake, food, just_eaten: false, rows, cols, next_direction: direction }
    }

    /// Requests heading `d` for the next tick. A request that would reverse the
    /// heading in effect is dropped; otherwise the latest request wins.
    pub fn pressed(&mut self, d: Direction)
        ensures
            final(self).next_direction == old(self).requested(d),
            final(self).body() == old(self).body(),
            final(self).snake.direction == old(self).snake.direction,
            final(self).food == old(self).food,
            final(self).just_eaten == old(self).just_eaten,
            final(self).cols == old(self).cols,
            final(self).rows == old(self).rows,
    {
        if !is_reversal(self.snake.direction, d) {
            self.next_direction = d;
        }
    }

    /// One tick. The snake takes the requested heading and moves; if it bites
    /// itself the session ends with the body unchanged. Growth from food eaten
    /// on the previous tick happens now. When the head reaches the food, the
    /// next tick grows the snake and new food is placed on a free cell; should
    /// the snake cover the whole board there is none, and the session ends.
    pub fn update(&mut self) -> (r: GameResult)
        requires
            old(self).wf(),
        ensures
            final(self).snake.direction == old(self).next_direction,
            final(self).next_direction == old(self).next_direction,
            final(self).cols == old(self).cols,
            final(self).rows == old(self).rows,
            old(self).collides() ==> r == GameResult::Terminated && final(self).body() == old(
                self,
            ).body() && final(self).food == old(self).food && final(self).just_eaten == old(
                self,
            ).just_eaten,
            !old(self).collides() ==> {
                &&& final(self).body() == old(self).moved_body()
                &&& final(self).just_eaten == (old(self).next_head() == old(self).food.cell())
                &&& !final(self).just_eaten ==> final(self).food == old(self).food && r
                    == GameResult::Continue
                &&& final(self).just_eaten ==> (r == GameResult::Terminated <==> board_full(
                    &final(self).snake,
                    final(self).cols as int,
                    final(self).rows as int,
                ))
            },
            r == GameResult::Continue ==> final(self).wf(),
            r == GameResult::Continue ==> final(self).body().len() == old(self).body().len() + if old(
                self,
            ).just_eaten {
                1int
            } else {
                0int
            },
    {
        self.snake.direction = self.next_direction;
        if !self.snake.update(self.just_eaten, self.cols, self.rows) {
            return GameResult::Terminated;
        }
        self.just_eaten = self.food.update(&self.snake);
        if self.just_eaten {
            match Food::respawn(self.cols, self.rows, &self.snake) {
                Some(f) => self.food = f,
                None => return GameResult::Terminated,
            }
        } else {
            proof {
                let b = self.snake.snake_parts@;
                assert forall|i: int| 0 <= i < b.len() implies b[i] != self.food.cell() by {
                    if i > 0 {
                        assert(b[i] == old(self).body()[i - 1]);
                    }
                }
            }
        }
        GameResult::Continue
    }
}

/// A tick without collision keeps the body's length, or adds exactly one cell
/// when food was eaten on the tick before.
pub proof fn lemma_growth_only_after_eating(g: Game)
    requires
        g.wf(),
        !g.collides(),
    ensures
        g.moved_body().len() == g.body().len() + if g.just_eaten {
            1int
        } else {
            0int
        },
{
}

/// A heading request that would reverse the snake leaves the heading as it
/// is; any other request becomes the heading of the next tick.
pub proof fn lemma_reversal_guard(g: Game, d: Direction)
    requires
        g.next_direction == g.snake.direction,
    ensures
        d == opposite(g.snake.direction) ==> g.requested(d) == g.snake.direction,
        d != opposite(g.snake.direction) ==> g.requested(d) == d,
{
}

/// A body that holds one cell twice is never well formed.
pub proof fn lemma_repeated_cell_is_invalid(s: Snake, cols: int, rows: int, i: int, j: int)
    requires
        0 <= i < j < s.snake_parts@.len(),
        s.snake_parts@[i] == s.snake_parts@[j],
    ensures
        !s.wf(cols, rows),
{
}

} // verus!
