use snake_game::game::canvas::{DrawOp, Rect};
use snake_game::game::coord::Coord;
use snake_game::game::direction::Direction;
use snake_game::game::snake::Snake;

fn cells(snake: &mut Snake, candidates: &[Coord]) -> Vec<bool> {
    candidates.iter().map(|c| snake.is_snake(c)).collect()
}

#[test]
fn test_new_snake() {
    let snake = Snake::new(Coord(10, 10), 3);

    assert_eq!(snake.len(), 3);
    assert_eq!(snake.prev_tail(), None);
}

#[test]
fn test_new_snake_coords() {
    let snake = Snake::new(Coord(10, 10), 3);

    let tail = snake.tail();
    assert_eq!(*tail, Coord(12, 10));

    let head = snake.head();
    assert_eq!(*head, Coord(10, 10));
}

#[test]
fn test_tick() {
    let mut snake = Snake::new(Coord(10, 10), 3);

    snake.tick(Direction::Up);

    let head = snake.head();
    assert_eq!(*head, Coord(10, 9));

    let tail = snake.tail();
    assert_eq!(*tail, Coord(11, 10));

    assert_eq!(snake.prev_tail(), Some(Coord(12, 10)));
}

#[test]
fn test_eat_tick() {
    let mut snake = Snake::new(Coord(10, 10), 3);
    let apple = Coord(10, 11);

    snake.tick(Direction::Down);

    assert_eq!(snake.len(), 3);
    assert_eq!(snake.try_eat(apple), true);

    snake.tick(Direction::Down);

    assert_eq!(snake.len(), 4);
    assert_eq!(*snake.head(), Coord(10, 12));
    assert_eq!(*snake.tail(), Coord(11, 10));
}

#[test]
fn test_is_snake_body() {
    let snake = Snake::new(Coord(10, 10), 3);

    assert_eq!(snake.is_snake_body(Coord(10, 10)), false);
    assert_eq!(snake.is_snake_body(Coord(11, 10)), true);
    assert_eq!(snake.is_snake_body(Coord(12, 10)), true);
}

#[test]
fn new_snake_runs_from_tail_to_head_without_repeats() {
    let mut snake = Snake::new(Coord(-2, 7), 5);
    assert_eq!(snake.len(), 5);
    assert_eq!(*snake.head(), Coord(-2, 7));
    assert_eq!(*snake.tail(), Coord(2, 7));
    let row = [Coord(-2, 7), Coord(-1, 7), Coord(0, 7), Coord(1, 7), Coord(2, 7)];
    assert_eq!(cells(&mut snake, &row), vec![true; 5]);
    assert!(!snake.is_snake(&Coord(3, 7)));
    assert!(!snake.is_snake(&Coord(-3, 7)));
    assert!(!snake.is_snake(&Coord(0, 8)));
}

#[test]
fn new_snake_of_one_cell_is_its_head() {
    let snake = Snake::new(Coord(4, 4), 1);
    assert_eq!(snake.len(), 1);
    assert_eq!(*snake.head(), Coord(4, 4));
    assert_eq!(*snake.tail(), Coord(4, 4));
    assert_eq!(snake.is_snake_body(Coord(4, 4)), false);
}

#[test]
fn new_snake_without_length_has_no_cells() {
    let mut snake = Snake::new(Coord(4, 4), 0);
    assert_eq!(snake.len(), 0);
    assert!(!snake.is_snake(&Coord(4, 4)));
    let mut negative = Snake::new(Coord(4, 4), -3);
    assert_eq!(negative.len(), 0);
    assert!(!negative.is_snake(&Coord(4, 4)));
}

#[test]
fn new_snake_may_end_at_the_largest_column() {
    let snake = Snake::new(Coord(isize::MAX - 2, 0), 3);
    assert_eq!(*snake.tail(), Coord(isize::MAX, 0));
    assert_eq!(*snake.head(), Coord(isize::MAX - 2, 0));
}

#[test]
fn tick_moves_one_cell_in_each_direction() {
    let moves = [
        (Direction::Up, Coord(10, 9)),
        (Direction::Down, Coord(10, 11)),
        (Direction::Left, Coord(9, 10)),
        (Direction::Right, Coord(11, 10)),
    ];
    for (dir, head) in moves {
        let mut snake = Snake::new(Coord(10, 10), 3);
        snake.tick(dir);
        assert_eq!(*snake.head(), head);
        assert_eq!(snake.len(), 3);
        assert_eq!(snake.prev_tail(), Some(Coord(12, 10)));
        assert_eq!(*snake.tail(), Coord(11, 10));
    }
}

#[test]
fn tick_shifts_the_cells_between_tail_and_head() {
    let mut snake = Snake::new(Coord(10, 10), 4);
    snake.tick(Direction::Up);
    assert!(snake.is_snake(&Coord(12, 10)));
    assert!(snake.is_snake(&Coord(11, 10)));
    assert!(snake.is_snake(&Coord(10, 10)));
    assert!(snake.is_snake(&Coord(10, 9)));
    assert!(!snake.is_snake(&Coord(13, 10)));
}

#[test]
fn eating_after_a_move_regrows_the_vacated_cell() {
    let mut snake = Snake::new(Coord(10, 10), 3);
    snake.tick(Direction::Down);
    let head = *snake.head();
    assert_eq!(head, Coord(10, 11));
    assert_eq!(snake.try_eat(head), true);
    assert_eq!(snake.len(), 4);
    assert_eq!(*snake.tail(), Coord(12, 10));
    assert_eq!(*snake.head(), Coord(10, 11));
    assert_eq!(snake.prev_tail(), None);
}

#[test]
fn try_eat_needs_the_head_on_the_target() {
    let mut snake = Snake::new(Coord(10, 10), 3);
    snake.tick(Direction::Down);
    assert_eq!(snake.try_eat(Coord(10, 10)), false);
    assert_eq!(snake.try_eat(Coord(0, 0)), false);
    assert_eq!(snake.len(), 3);
    assert_eq!(snake.prev_tail(), Some(Coord(12, 10)));
    assert_eq!(*snake.tail(), Coord(11, 10));
}

#[test]
fn try_eat_needs_a_vacated_cell() {
    let mut snake = Snake::new(Coord(10, 10), 3);
    assert_eq!(snake.try_eat(Coord(10, 10)), false);
    assert_eq!(snake.len(), 3);

    snake.tick(Direction::Left);
    assert_eq!(snake.try_eat(Coord(9, 10)), true);
    assert_eq!(snake.try_eat(Coord(9, 10)), false);
    assert_eq!(snake.len(), 4);
}

#[test]
fn is_snake_counts_the_head_and_is_snake_body_does_not() {
    let mut snake = Snake::new(Coord(10, 10), 3);
    assert_eq!(snake.is_snake(&Coord(10, 10)), true);
    assert_eq!(snake.is_snake(&Coord(11, 10)), true);
    assert_eq!(snake.is_snake(&Coord(12, 10)), true);
    assert_eq!(snake.is_snake(&Coord(13, 10)), false);
    assert_eq!(snake.is_snake(&Coord(9, 10)), false);
    assert_eq!(snake.is_snake_body(Coord(10, 10)), false);
    assert_eq!(snake.is_snake_body(Coord(13, 10)), false);
    assert_eq!(snake.len(), 3);
}

#[test]
fn is_snake_body_sees_the_head_run_into_the_body() {
    let mut snake = Snake::new(Coord(10, 10), 5);
    snake.tick(Direction::Up);
    snake.tick(Direction::Right);
    assert_eq!(snake.is_snake_body(*snake.head()), false);
    snake.tick(Direction::Down);
    assert_eq!(*snake.head(), Coord(11, 10));
    assert_eq!(snake.is_snake_body(*snake.head()), true);
}

#[test]
fn snake_draw_erases_the_vacated_cell_and_then_paints_every_cell() {
    let mut snake = Snake::new(Coord(10, 10), 3);
    let square = |x: i128, y: i128| Rect { x, y, width: 19, height: 19 };
    let green = |x: i128, y: i128| DrawOp::Fill { area: square(x, y), color: "green" };
    assert_eq!(snake.draw(20), vec![green(240, 200), green(220, 200), green(200, 200)]);

    snake.tick(Direction::Up);
    assert_eq!(
        snake.draw(20),
        vec![
            DrawOp::Clear { area: square(240, 200) },
            green(220, 200),
            green(200, 200),
            green(200, 180),
        ]
    );

    assert!(snake.try_eat(Coord(10, 9)));
    assert_eq!(
        snake.draw(20),
        vec![green(240, 200), green(220, 200), green(200, 200), green(200, 180)]
    );
}

#[test]
fn snake_draw_leaves_the_head_painted_on_the_cell_the_tail_left() {
    let mut snake = Snake::new(Coord(10, 10), 4);
    snake.tick(Direction::Up);
    snake.tick(Direction::Right);
    snake.tick(Direction::Down);
    assert_eq!(*snake.head(), Coord(11, 10));
    assert_eq!(snake.prev_tail(), Some(Coord(11, 10)));
    assert_eq!(snake.is_snake_body(Coord(11, 10)), false);

    let square = |x: i128, y: i128| Rect { x, y, width: 19, height: 19 };
    let green = |x: i128, y: i128| DrawOp::Fill { area: square(x, y), color: "green" };
    let ops = snake.draw(20);
    assert_eq!(
        ops,
        vec![
            DrawOp::Clear { area: square(220, 200) },
            green(200, 200),
            green(200, 180),
            green(220, 180),
            green(220, 200),
        ]
    );
    let head_square = square(220, 200);
    let last_touch = ops
        .iter()
        .rev()
        .find(|op| match op {
            DrawOp::Fill { area, .. } => *area == head_square,
            DrawOp::Clear { area } => *area == head_square,
        })
        .unwrap();
    assert_eq!(*last_touch, green(220, 200));
}

#[test]
fn coord_draw_fills_a_square_one_pixel_short_of_the_cell() {
    let op = Coord(3, 4).draw(20, "red");
    assert_eq!(
        op,
        DrawOp::Fill { area: Rect { x: 60, y: 80, width: 19, height: 19 }, color: "red" }
    );
    let op = Coord(-1, 0).draw(7, "blue");
    assert_eq!(
        op,
        DrawOp::Fill { area: Rect { x: -7, y: 0, width: 6, height: 6 }, color: "blue" }
    );
}

#[test]
fn coord_clear_erases_the_square_that_draw_fills() {
    let op = Coord(3, 4).clear(20);
    assert_eq!(op, DrawOp::Clear { area: Rect { x: 60, y: 80, width: 19, height: 19 } });
}

#[test]
fn coord_draw_holds_products_beyond_the_machine_word() {
    let op = Coord(isize::MAX, isize::MIN).clear(isize::MAX);
    let big = isize::MAX as i128;
    let small = isize::MIN as i128;
    assert_eq!(
        op,
        DrawOp::Clear {
            area: Rect { x: big * big, y: small * big, width: big - 1, height: big - 1 }
        }
    );
}

#[test]
fn board_rect_spans_all_cells() {
    assert_eq!(Rect::of_board(20, 25), Rect { x: 0, y: 0, width: 500, height: 500 });
    assert_eq!(Rect::of_cell(2, 3, 10), Rect { x: 20, y: 30, width: 9, height: 9 });
}

#[test]
fn new_random_stays_on_the_grid() {
    for _ in 0..2000 {
        let Coord(x, y) = Coord::new_random(20);
        assert!((0..20).contains(&x));
        assert!((0..20).contains(&y));
    }
    for _ in 0..50 {
        assert_eq!(Coord::new_random(1), Coord(0, 0));
    }
}

#[test]
fn new_random_reaches_more_than_one_cell() {
    let first = Coord::new_random(1000);
    let mut differs = false;
    for _ in 0..200 {
        if Coord::new_random(1000) != first {
            differs = true;
        }
    }
    assert!(differs);
}

#[test]
fn direction_is_opposite_pairs() {
    let all = [Direction::Up, Direction::Down, Direction::Left, Direction::Right];
    let opposite = [Direction::Down, Direction::Up, Direction::Right, Direction::Left];
    for (i, a) in all.iter().enumerate() {
        assert_eq!(a.is_opposite(*a), false);
        for b in all.iter() {
            assert_eq!(a.is_opposite(*b), *b == opposite[i]);
            assert_eq!(a.is_opposite(*b), b.is_opposite(*a));
        }
    }
}

#[test]
fn direction_names() {
    assert_eq!(Direction::Up.to_string(), "up");
    assert_eq!(Direction::Down.to_string(), "down");
    assert_eq!(Direction::Right.to_string(), "right");
    assert_eq!(Direction::Left.to_string(), "left");
}
