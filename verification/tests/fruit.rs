use snake::{Point, SnakeDirection, SnakeGame, FRUIT_SAMPLES};

fn p(x: u16, y: u16) -> Point {
    Point { x, y }
}

fn coiled() -> Vec<Point> {
    vec![p(5, 5), p(5, 6), p(5, 7), p(4, 7), p(4, 6), p(4, 5), p(3, 5), p(2, 5), p(1, 5)]
}

fn filled_5_by_5() -> SnakeGame {
    let snake = vec![
        p(1, 1),
        p(1, 2),
        p(1, 3),
        p(2, 3),
        p(3, 3),
        p(3, 2),
        p(3, 1),
        p(2, 1),
        p(2, 2),
    ];
    SnakeGame::from_parts(snake, p(0, 0), 5, 5, SnakeDirection::Up, 6)
}

#[test]
fn ten_thousand_fruits_lie_off_the_border_and_off_the_snake() {
    let occupied = coiled();
    let mut game = SnakeGame::from_parts(occupied.clone(), p(0, 0), 12, 9, SnakeDirection::Up, 6);
    for _ in 0..10_000 {
        assert!(game.position_fruit());
        let fruit = game.fruit();
        assert!(0 < fruit.x && fruit.x < 12 - 1);
        assert!(0 < fruit.y && fruit.y < 9 - 1);
        assert!(!occupied.contains(&fruit));
        assert_eq!(game.snake(), occupied);
    }
}

#[test]
fn fruit_is_scattered_over_the_board() {
    let mut game = SnakeGame::from_parts(coiled(), p(0, 0), 20, 20, SnakeDirection::Up, 6);
    let mut columns = [false; 20];
    let mut rows = [false; 20];
    for _ in 0..10_000 {
        assert!(game.position_fruit());
        columns[game.fruit().x as usize] = true;
        rows[game.fruit().y as usize] = true;
    }
    for i in 1..19 {
        assert!(columns[i], "column {}", i);
        assert!(rows[i], "row {}", i);
    }
    assert!(!columns[0] && !columns[19] && !rows[0] && !rows[19]);
}

#[test]
fn the_only_free_cell_is_found() {
    let mut snake = Vec::new();
    for y in 1..4 {
        for x in 1..4 {
            if (x, y) != (2, 3) {
                snake.push(p(x, y));
            }
        }
    }
    let mut game = SnakeGame::from_parts(snake, p(0, 0), 5, 5, SnakeDirection::Up, 5);
    for _ in 0..100 {
        assert!(game.position_fruit());
        assert_eq!(game.fruit(), p(2, 3));
    }
}

#[test]
fn a_full_board_takes_no_fruit() {
    let mut game = filled_5_by_5();
    assert!(!game.position_fruit());
    assert_eq!(game.fruit(), p(0, 0));
    assert_eq!(game.snake().len(), 9);
}

#[test]
fn a_board_without_inner_cells_takes_no_fruit() {
    for (width, height) in [(0, 0), (1, 1), (2, 2), (2, 50), (50, 2), (0, 50)] {
        let mut game =
            SnakeGame::from_parts(vec![p(9, 9)], p(7, 7), width, height, SnakeDirection::Up, 0);
        assert!(!game.position_fruit());
        assert_eq!(game.fruit(), p(7, 7));
        assert_eq!(game.first_free_cell(), None);
    }
}

#[test]
fn the_smallest_board_with_an_inner_cell_takes_its_fruit_there() {
    let mut game = SnakeGame::from_parts(vec![p(9, 9)], p(7, 7), 3, 3, SnakeDirection::Up, 0);
    assert!(game.position_fruit());
    assert_eq!(game.fruit(), p(1, 1));
}

#[test]
fn a_free_inner_cell_takes_the_fruit() {
    let mut game = SnakeGame::from_parts(coiled(), p(0, 0), 12, 9, SnakeDirection::Up, 6);
    assert!(game.place_fruit(p(1, 1)));
    assert_eq!(game.fruit(), p(1, 1));
    assert!(game.place_fruit(p(10, 7)));
    assert_eq!(game.fruit(), p(10, 7));
    assert_eq!(game.snake(), coiled());
}

#[test]
fn a_cell_of_the_snake_takes_no_fruit() {
    let mut game = SnakeGame::from_parts(coiled(), p(8, 2), 12, 9, SnakeDirection::Up, 6);
    for cell in coiled() {
        assert!(!game.place_fruit(cell));
        assert_eq!(game.fruit(), p(8, 2));
    }
}

#[test]
fn the_border_and_what_lies_beyond_take_no_fruit() {
    let mut game = SnakeGame::from_parts(coiled(), p(8, 2), 12, 9, SnakeDirection::Up, 6);
    for cell in [p(0, 3), p(11, 3), p(3, 0), p(3, 8), p(0, 0), p(11, 8), p(12, 3), p(3, 9), p(500, 500)]
    {
        assert!(!game.place_fruit(cell), "{:?}", cell);
        assert_eq!(game.fruit(), p(8, 2));
    }
}

#[test]
fn the_first_free_cell_is_read_row_by_row() {
    let game = SnakeGame::from_parts(coiled(), p(0, 0), 12, 9, SnakeDirection::Up, 6);
    assert_eq!(game.first_free_cell(), Some(p(1, 1)));
    let snake = vec![p(1, 1), p(2, 1), p(3, 1), p(1, 2), p(3, 2)];
    let game = SnakeGame::from_parts(snake, p(0, 0), 5, 5, SnakeDirection::Up, 2);
    assert_eq!(game.first_free_cell(), Some(p(2, 2)));
    let snake = vec![p(1, 1), p(2, 1), p(3, 1)];
    let game = SnakeGame::from_parts(snake, p(0, 0), 5, 5, SnakeDirection::Up, 0);
    assert_eq!(game.first_free_cell(), Some(p(1, 2)));
}

#[test]
fn a_full_board_has_no_free_cell() {
    assert_eq!(filled_5_by_5().first_free_cell(), None);
}

#[test]
fn the_board_is_searched_only_after_many_samples() {
    assert_eq!(FRUIT_SAMPLES, 1 << 20);
}
