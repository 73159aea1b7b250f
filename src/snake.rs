//! The snake: its body, its heading, and one tick of movement.
use std::collections::VecDeque;
use vstd::prelude::*;
use crate::grid::{in_board, step, Direction, SnakePiece};

verus! {

/// The snake's body, head first, and the heading it travels in.
pub struct Snake {
    pub snake_parts: VecDeque<SnakePiece>,
    pub direction: Direction,
}

/// What remains of `body` before the new head is added: all of it when the
/// snake grows, all but the tail otherwise.
pub open spec fn kept_body(body: Seq<SnakePiece>, grows: bool) -> Seq<SnakePiece> {
    if grows {
        body
    } else {
        body.drop_last()
    }
}

impl Snake {
    /// The body holds at least one cell, and every cell is on the board.
    pub open spec fn on_board(&self, cols: int, rows: int) -> bool {
        &&& self.snake_parts@.len() > 0
        &&& forall|i: int|
            0 <= i < self.snake_parts@.len() ==> in_board(#[trigger] self.snake_parts@[i], cols, rows)
    }

    /// On the board, and no two segments share a cell.
    pub open spec fn wf(&self, cols: int, rows: int) -> bool {
        &&& self.on_board(cols, rows)
        &&& self.snake_parts@.no_duplicates()
    }

    /// The cell the head moves to on the next tick.
    pub open spec fn next_head(&self, cols: int, rows: int) -> SnakePiece {
        step(self.snake_parts@[0], self.direction, cols, rows)
    }

    /// A snake of one segment at `start`.
    pub fn new(start: SnakePiece, direction: Direction) -> (r: Snake)
        ensures
            r.snake_parts@ == seq![start],
            r.direction == direction,
    {
        let mut snake_parts = VecDeque::new();
        snake_parts.push_front(start);
        Snake { snake_parts, direction }
    }

    /// The body, head first.
    pub fn body(&self) -> (r: Vec<SnakePiece>)
        ensures
            r@ == self.snake_parts@,
    {
        let mut r: Vec<SnakePiece> = Vec::new();
        let mut i: usize = 0;
        while i < self.snake_parts.len()
            invariant
                i <= self.snake_parts@.len(),
                r@ == self.snake_parts@.subrange(0, i as int),
            decreases self.snake_parts@.len() - i,
        {
            r.push(self.snake_parts[i]);
            i = i + 1;
        }
        r
    }

    /// Whether some segment of the body lies on cell `(x, y)`.
    pub fn is_collide(&self, x: i32, y: i32) -> (r: bool)
        ensures
            r == self.snake_parts@.contains(SnakePiece(x, y)),
    {
        let target = SnakePiece(x, y);
        let mut i: usize = 0;
        while i < self.snake_parts.len()
            invariant
                i <= self.snake_parts@.len(),
                target == SnakePiece(x, y),
                forall|k: int| 0 <= k < i ==> self.snake_parts@[k] != target,
            decreases self.snake_parts@.len() - i,
        {
            let p = self.snake_parts[i];
            if p.0 == x && p.1 == y {
                assert(self.snake_parts@[i as int] == target);
                return true;
            }
            i = i + 1;
        }
        false
    }

    /// Advances the snake by one cell. Without growth the tail leaves first, so
    /// the head may move onto the cell the tail vacates. Returns `false`, and
    /// leaves the snake as it was, when the new head would land on the body.
    pub fn update(&mut self, just_eaten: bool, cols: u32, rows: u32) -> (r: bool)
        requires
            old(self).on_board(cols as int, rows as int),
            cols <= i32::MAX,
            rows <= i32::MAX,
        ensures
            r == !kept_body(old(self).snake_parts@, just_eaten).contains(
                old(self).next_head(cols as int, rows as int),
            ),
            r ==> final(self).snake_parts@ == seq![old(self).next_head(cols as int, rows as int)]
                + kept_body(old(self).snake_parts@, just_eaten),
            r ==> final(self).snake_parts@.len() == old(self).snake_parts@.len() + if just_eaten {
                1int
            } else {
                0int
            },
            r ==> final(self).on_board(cols as int, rows as int),
            r && old(self).wf(cols as int, rows as int) ==> final(self).wf(cols as int, rows as int),
            !r ==> final(self).snake_parts@ == old(self).snake_parts@,
            final(self).direction == old(self).direction,
    {
        let ghost body = self.snake_parts@;
        let new_head = self.snake_parts[0].step(self.direction, cols, rows);
        let mut tail: Option<SnakePiece> = None;
        if !just_eaten {
            tail = self.snake_parts.pop_back();
        }
        proof {
            assert(self.snake_parts@ =~= kept_body(body, just_eaten));
        }
        if self.is_collide(new_head.0, new_head.1) {
            if let Some(t) = tail {
                self.snake_parts.push_back(t);
            }
            proof {
                assert(self.snake_parts@ =~= body);
            }
            return false;
        }
        self.snake_parts.push_front(new_head);
        proof {
            let s = self.snake_parts@;
            let k = kept_body(body, just_eaten);
            assert forall|i: int| 0 <= i < s.len() implies in_board(#[trigger] s[i], cols as int, rows as int) by {
                if i > 0 {
                    assert(s[i] == k[i - 1]);
                    assert(k[i - 1] == body[i - 1]);
                }
            }
            if body.no_duplicates() {
                assert forall|i: int, j: int| 0 <= i < j < s.len() implies s[i] != s[j] by {
                    if i == 0 {
                        assert(s[j] == k[j - 1]);
                    } else {
                        assert(s[i] == body[i - 1] && s[j] == body[j - 1]);
                    }
                }
            }
        }
        true
    }
}

} // verus!
