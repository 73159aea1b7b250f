use snake::grid::is_reversal;
use snake::{Direction, Snake, SnakePiece};
use std::collections::VecDeque;

fn snake_of(cells: &[(i32, i32)], direction: Direction) -> Snake {
    let mut snake_parts = VecDeque::new();
    for &(x, y) in cells {
        snake_parts.push_back(SnakePiece(x, y));
    }
    Snake { snake_parts, direction }
}

fn cells_of(snake: &Snake) -> Vec<(i32, i32)> {
    snake.body().iter().map(|p| (p.0, p.1)).collect()
}

#[test]
fn single_cell_moves_down() {
    let mut s = snake_of(&[(2, 2)], Direction::Down);
    assert!(s.update(false, 5, 5));
    assert_eq!(cells_of(&s), vec![(2, 3)]);
}

#[test]
fn head_wraps_from_left_edge() {
    let mut s = snake_of(&[(0, 2), (1, 2)], Direction::Left);
    assert!(s.update(false, 5, 5));
    assert_eq!(cells_of(&s), vec![(4, 2), (0, 2)]);
    assert_eq!(s.body().len(), 2);
}

#[test]
fn head_wraps_from_right_top_and_bottom_edges() {
    let mut s = snake_of(&[(4, 1)], Direction::Right);
    assert!(s.update(false, 5, 3));
    assert_eq!(cells_of(&s), vec![(0, 1)]);

    let mut s = snake_of(&[(2, 0)], Direction::Up);
    assert!(s.update(false, 5, 3));
    assert_eq!(cells_of(&s), vec![(2, 2)]);

    let mut s = snake_of(&[(2, 2)], Direction::Down);
    assert!(s.update(false, 5, 3));
    assert_eq!(cells_of(&s), vec![(2, 0)]);
}

#[test]
fn step_moves_one_cell_inside_the_board() {
    assert_eq!(SnakePiece(2, 2).step(Direction::Left, 5, 5), SnakePiece(1, 2));
    assert_eq!(SnakePiece(2, 2).step(Direction::Right, 5, 5), SnakePiece(3, 2));
    assert_eq!(SnakePiece(2, 2).step(Direction::Up, 5, 5), SnakePiece(2, 1));
    assert_eq!(SnakePiece(2, 2).step(Direction::Down, 5, 5), SnakePiece(2, 3));
    assert_eq!(SnakePiece(0, 0).step(Direction::Left, 1, 1), SnakePiece(0, 0));
}

#[test]
fn length_kept_without_growth_and_grows_by_one_after_eating() {
    let mut s = snake_of(&[(2, 2), (2, 3)], Direction::Up);
    assert!(s.update(false, 5, 5));
    assert_eq!(cells_of(&s), vec![(2, 1), (2, 2)]);
    assert!(s.update(true, 5, 5));
    assert_eq!(cells_of(&s), vec![(2, 0), (2, 1), (2, 2)]);
    assert_eq!(s.direction, Direction::Up);
}

#[test]
fn biting_the_body_terminates_and_leaves_it_unchanged() {
    let cells = [(2, 2), (2, 3), (1, 3), (1, 2), (1, 1)];
    let mut s = snake_of(&cells, Direction::Left);
    assert!(!s.update(false, 5, 5));
    assert_eq!(cells_of(&s), cells.to_vec());
    assert!(!s.update(true, 5, 5));
    assert_eq!(cells_of(&s), cells.to_vec());
}

#[test]
fn head_may_take_the_cell_the_tail_vacates() {
    let cells = [(2, 2), (2, 3), (1, 3), (1, 2)];
    let mut s = snake_of(&cells, Direction::Left);
    assert!(s.update(false, 5, 5));
    assert_eq!(cells_of(&s), vec![(1, 2), (2, 2), (2, 3), (1, 3)]);
}

#[test]
fn growing_into_the_tail_cell_terminates() {
    let cells = [(2, 2), (2, 3), (1, 3), (1, 2)];
    let mut s = snake_of(&cells, Direction::Left);
    assert!(!s.update(true, 5, 5));
    assert_eq!(cells_of(&s), cells.to_vec());
}

#[test]
fn one_cell_snake_growing_on_one_column_board_bites_itself() {
    let mut s = snake_of(&[(0, 0)], Direction::Left);
    assert!(!s.update(true, 1, 3));
    assert_eq!(cells_of(&s), vec![(0, 0)]);
    assert!(s.update(false, 1, 3));
    assert_eq!(cells_of(&s), vec![(0, 0)]);
}

#[test]
fn is_collide_finds_every_segment_and_nothing_else() {
    let s = snake_of(&[(2, 2), (2, 3), (1, 3)], Direction::Up);
    assert!(s.is_collide(2, 2));
    assert!(s.is_collide(1, 3));
    assert!(!s.is_collide(3, 3));
    assert!(!s.is_collide(-1, 2));
}

#[test]
fn new_snake_has_one_segment() {
    let s = Snake::new(SnakePiece(3, 4), Direction::Right);
    assert_eq!(cells_of(&s), vec![(3, 4)]);
    assert_eq!(s.direction, Direction::Right);
}

#[test]
fn reversal_is_detected_for_each_heading() {
    assert!(is_reversal(Direction::Right, Direction::Left));
    assert!(is_reversal(Direction::Left, Direction::Right));
    assert!(is_reversal(Direction::Up, Direction::Down));
    assert!(is_reversal(Direction::Down, Direction::Up));
    assert!(!is_reversal(Direction::Right, Direction::Up));
    assert!(!is_reversal(Direction::Right, Direction::Right));
    assert!(!is_reversal(Direction::Up, Direction::Left));
}
