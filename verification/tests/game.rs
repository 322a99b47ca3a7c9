use snake_core::{ConfigGame, Direction, Food, Game, Snake};

#[test]
fn snake_should_walk() {
    let mut game = Game {
        snake: Snake {
            head_pos: (3, 5),
            body: vec![(1, 5), (2, 5), (3, 5)],
            direction: Direction::Right,
            next_direction: Direction::Right,
            alive: true,
            grow: false,
        },
        food: vec![],
        initial_pos: (3, 5),
        height: 11,
        width: 11,
        config: ConfigGame { food_amount: 0 },
    };

    game.next();
    assert_eq!(game.snake.head_pos, (4, 5));
    assert_eq!(game.snake.body, vec![(2, 5), (3, 5), (4, 5)]);
    assert_eq!(game.snake.grow, false);
    assert_eq!(game.snake.alive, true);

    game.next();
    assert_eq!(game.snake.head_pos, (5, 5));
    assert_eq!(game.snake.body, vec![(3, 5), (4, 5), (5, 5)]);
    assert_eq!(game.snake.grow, false);
    assert_eq!(game.snake.alive, true);

    game.next();
    assert_eq!(game.snake.head_pos, (6, 5));
    assert_eq!(game.snake.body, vec![(4, 5), (5, 5), (6, 5)]);
    assert_eq!(game.snake.grow, false);
    assert_eq!(game.snake.alive, true);

    game.next();
    assert_eq!(game.snake.head_pos, (7, 5));
    assert_eq!(game.snake.body, vec![(5, 5), (6, 5), (7, 5)]);
    assert_eq!(game.snake.grow, false);
    assert_eq!(game.snake.alive, true);
}

#[test]
fn snake_should_eat() {
    let mut game = Game {
        snake: Snake {
            head_pos: (3, 5),
            body: vec![(3, 5)],
            direction: Direction::Right,
            next_direction: Direction::Right,
            alive: true,
            grow: false,
        },
        food: vec![Food::new(5, 5)],
        initial_pos: (3, 5),
        height: 11,
        width: 11,
        config: ConfigGame { food_amount: 0 },
    };

    game.next();
    assert_eq!(game.snake.head_pos, (4, 5));
    assert_eq!(game.snake.body, vec![(4, 5)]);
    assert_eq!(game.snake.alive, true);

    game.next();

    assert_eq!(game.snake.head_pos, (5, 5));
    assert_eq!(game.snake.body, vec![(4, 5), (5, 5)]);
    assert_eq!(game.snake.alive, true);

    game.next();
    assert_eq!(game.snake.head_pos, (6, 5));
    assert_eq!(game.snake.body, vec![(5, 5), (6, 5)]);
    assert_eq!(game.snake.alive, true);

    game.next();
    assert_eq!(game.snake.head_pos, (7, 5));
    assert_eq!(game.snake.body, vec![(6, 5), (7, 5)]);
    assert_eq!(game.snake.alive, true);

    game.next();
    assert_eq!(game.snake.head_pos, (8, 5));
    assert_eq!(game.snake.body, vec![(7, 5), (8, 5)]);
    assert_eq!(game.snake.alive, true);

    game.food.push(Food::new(9, 5));

    game.next();
    assert_eq!(game.snake.head_pos, (9, 5));
    assert_eq!(game.snake.body, vec![(7, 5), (8, 5), (9, 5)]);
    assert_eq!(game.snake.alive, true);
}

#[test]
fn snake_should_die() {
    let mut game = Game {
        snake: Snake {
            head_pos: (4, 3),
            body: vec![(4, 3)],
            direction: Direction::Right,
            next_direction: Direction::Right,
            alive: true,
            grow: false,
        },
        food: vec![],
        initial_pos: (4, 3),
        height: 6,
        width: 6,
        config: ConfigGame { food_amount: 0 },
    };

    game.next();
    assert!(game.snake.alive);

    game.next();
    assert!(!game.snake.alive);
}

#[test]
fn snake_should_change_direction() {
    let mut game = Game {
        snake: Snake {
            head_pos: (5, 5),
            body: vec![(5, 5)],
            direction: Direction::Right,
            next_direction: Direction::Right,
            alive: true,
            grow: false,
        },
        food: vec![],
        initial_pos: (5, 5),
        height: 11,
        width: 11,
        config: ConfigGame::default(),
    };

    // an illegal candidate (a reversal) is dropped: nothing changes
    game.input(Direction::Left);
    assert_eq!(game.snake.direction, Direction::Right);
    assert_eq!(game.snake.next_direction, Direction::Right);

    // a legal candidate is only buffered; it is committed at the next tick
    game.input(Direction::Up);
    assert_eq!(game.snake.direction, Direction::Right);
    assert_eq!(game.snake.next_direction, Direction::Up);
    game.next();
    assert_eq!(game.snake.direction, Direction::Up);
    assert_eq!(game.snake.head_pos, (5, 4));
    assert!(game.snake.alive);

    game.input(Direction::Left);
    assert_eq!(game.snake.direction, Direction::Up);
    assert_eq!(game.snake.next_direction, Direction::Left);
    game.next();
    assert_eq!(game.snake.direction, Direction::Left);
    assert_eq!(game.snake.head_pos, (4, 4));
    assert!(game.snake.alive);

    game.input(Direction::Down);
    assert_eq!(game.snake.direction, Direction::Left);
    assert_eq!(game.snake.next_direction, Direction::Down);
    game.next();
    assert_eq!(game.snake.direction, Direction::Down);
    assert_eq!(game.snake.head_pos, (4, 5));
    assert!(game.snake.alive);

    game.input(Direction::Right);
    assert_eq!(game.snake.direction, Direction::Down);
    assert_eq!(game.snake.next_direction, Direction::Right);
    game.next();
    assert_eq!(game.snake.direction, Direction::Right);
    assert_eq!(game.snake.head_pos, (5, 5));
    assert!(game.snake.alive);
}

#[test]
fn snake_should_self_collision() {
    let mut game = Game {
        snake: Snake {
            head_pos: (5, 5),
            body: vec![(6, 5), (5, 4), (4, 4), (4, 5), (5, 5)],
            direction: Direction::Right,
            next_direction: Direction::Right,
            alive: true,
            grow: false,
        },
        food: vec![],
        initial_pos: (5, 5),
        height: 11,
        width: 11,
        config: ConfigGame::default(),
    };

    assert!(!game.snake.self_collision());
    game.input(Direction::Up);
    // the heading change is only buffered, so the collision does not show
    // until the tick commits it: that tick then dies on (5, 4)
    assert!(!game.snake.self_collision());
    assert_eq!(game.snake.next_direction, Direction::Up);

    assert!(!game.next());
    assert_eq!(game.snake.direction, Direction::Up);
    assert!(!game.snake.alive);
}

#[test]
fn should_generate_new_food() {
    let mut game = Game {
        snake: Snake {
            head_pos: (5, 5),
            body: vec![(5, 5)],
            direction: Direction::Right,
            next_direction: Direction::Right,
            alive: true,
            grow: false,
        },
        food: vec![Food::new(6, 5)],
        initial_pos: (5, 5),
        height: 11,
        width: 11,
        config: ConfigGame { food_amount: 3 },
    };

    assert_eq!(game.food.len(), 1);
    game.next();
    assert_eq!(game.snake.head_pos, (6, 5));
    assert_eq!(game.snake.body, vec![(5, 5), (6, 5)]);
    assert_eq!(game.snake.alive, true);
    assert_eq!(game.food.len(), 3);
}
