use jeteeah::contract::{JeteeahContract, OperationError};
use jeteeah::state::{Direction, GameState, Position};
use jeteeah::Operation;

fn create_and_instantiate_app(initial_value: u64) -> JeteeahContract {
    let mut contract = JeteeahContract::load();
    contract.instantiate(initial_value);
    assert_eq!(contract.state.value, initial_value);
    contract
}

#[test]
fn operation() {
    let initial_value = 10u64;
    let mut app = create_and_instantiate_app(initial_value);

    let increment = 10u64;

    app.execute_operation(Operation::Increment { value: increment }, None)
        .expect("Execution of application operation should not fail");

    assert_eq!(app.state.value, initial_value + increment);
}

#[test]
fn test_start_game() {
    let initial_value = 0u64;
    let mut app = create_and_instantiate_app(initial_value);

    let player = 1u64;

    app.execute_operation(Operation::StartGame, Some(player))
        .expect("Start game operation should not fail");

    let game_state = app.get_game_state(player).expect("Game state should exist");

    assert_eq!(
        game_state.snake_body.len(),
        3,
        "Snake should start with 3 segments"
    );
    assert!(game_state.is_active, "Game should be active");
    assert!(!game_state.is_paused, "Game should not be paused");
    assert_eq!(game_state.score, 0, "Initial score should be 0");

    assert_eq!(game_state.width, 20);
    assert_eq!(game_state.height, 20);

    let head = &game_state.snake_body[0];
    assert_eq!(head.x, 10);
    assert_eq!(head.y, 10);
}

#[test]
fn test_move_snake() {
    let initial_value = 0u64;
    let mut app = create_and_instantiate_app(initial_value);

    let player = 1u64;

    app.execute_operation(Operation::StartGame, Some(player))
        .expect("Start game should not fail");

    app.execute_operation(
        Operation::MoveSnake {
            direction: Direction::Right,
        },
        Some(player),
    )
    .expect("Move snake should not fail");

    let game_state = app.get_game_state(player).expect("Game should exist");

    assert_eq!(game_state.snake_body[0].x, 11);
    assert!(game_state.is_active);
}

#[test]
fn test_pause_and_resume() {
    let initial_value = 0u64;
    let mut app = create_and_instantiate_app(initial_value);

    let player = 1u64;

    app.execute_operation(Operation::StartGame, Some(player))
        .expect("Start game should not fail");

    app.execute_operation(Operation::PauseGame, Some(player))
        .expect("Pause game should not fail");

    let game_state = app.get_game_state(player).expect("Game should exist");

    assert!(game_state.is_paused, "Game should be paused");
    assert!(game_state.is_active, "Game should still be active");

    app.execute_operation(Operation::ResumeGame, Some(player))
        .expect("Resume game should not fail");

    let game_state = app.get_game_state(player).expect("Game should exist");

    assert!(!game_state.is_paused, "Game should not be paused");
    assert!(game_state.is_active, "Game should be active");
}

#[test]
fn test_end_game_awards_points() {
    let initial_value = 0u64;
    let mut app = create_and_instantiate_app(initial_value);

    let player = 1u64;

    app.execute_operation(Operation::StartGame, Some(player))
        .expect("Start game should not fail");

    app.execute_operation(Operation::EndGame, Some(player))
        .expect("End game should not fail");

    let game_state = app.get_game_state(player).expect("Game should exist");

    assert!(!game_state.is_active, "Game should be inactive");

    let score = game_state.score;
    let points = app.get_points(player);
    assert_eq!(points, score, "Points should equal score");
}

#[test]
fn test_reset_game() {
    let initial_value = 0u64;
    let mut app = create_and_instantiate_app(initial_value);

    let player = 1u64;

    app.execute_operation(Operation::StartGame, Some(player))
        .expect("Start game should not fail");

    app.execute_operation(Operation::ResetGame, Some(player))
        .expect("Reset game should not fail");

    let game_state = app.get_game_state(player).expect("Game should exist");

    assert_eq!(game_state.score, 0);
    assert_eq!(game_state.snake_body.len(), 3);
    assert!(game_state.is_active);
    assert!(!game_state.is_paused);
}

#[test]
fn test_add_and_redeem_points() {
    let initial_value = 0u64;
    let mut app = create_and_instantiate_app(initial_value);

    let player = 1u64;

    app.execute_operation(Operation::AddPoints { amount: 100 }, Some(player))
        .expect("Add points should not fail");

    assert_eq!(app.get_points(player), 100);

    app.execute_operation(Operation::RedeemPoints { amount: 50 }, Some(player))
        .expect("Redeem points should not fail");

    assert_eq!(app.get_points(player), 50);

    app.execute_operation(Operation::RedeemPoints { amount: 100 }, Some(player))
        .expect("Redeem points should not fail");

    assert_eq!(
        app.get_points(player),
        50,
        "Points should not change if insufficient"
    );
}

#[test]
fn test_set_game_parameters() {
    let initial_value = 0u64;
    let mut app = create_and_instantiate_app(initial_value);

    app.execute_operation(
        Operation::SetGameParameters {
            width: 30,
            height: 25,
        },
        None,
    )
    .expect("Set game parameters should not fail");

    assert_eq!(app.state.game_width, 30);
    assert_eq!(app.state.game_height, 25);
}

#[test]
fn test_update_food_spawn_rate() {
    let initial_value = 0u64;
    let mut app = create_and_instantiate_app(initial_value);

    app.execute_operation(Operation::UpdateFoodSpawnRate { rate: 5 }, None)
        .expect("Update food spawn rate should not fail");

    assert_eq!(app.state.food_spawn_rate, 5);
}

#[test]
fn test_collision_detection_wall() {
    let initial_value = 0u64;
    let mut app = create_and_instantiate_app(initial_value);

    let player = 1u64;

    app.execute_operation(Operation::StartGame, Some(player))
        .expect("Start game should not fail");

    for _ in 0..11 {
        app.execute_operation(
            Operation::MoveSnake {
                direction: Direction::Up,
            },
            Some(player),
        )
        .expect("Move snake should not fail");
    }

    let game_state = app.get_game_state(player).expect("Game should exist");

    assert!(
        !game_state.is_active,
        "Game should be inactive after wall collision. Final y position: {}",
        game_state.snake_body[0].y
    );
}

#[test]
fn scenario_eating_food_grows_scores_and_redraws() {
    let mut app = create_and_instantiate_app(0);
    let player = 1u64;

    app.execute_operation(Operation::StartGame, Some(player))
        .expect("Start game should not fail");

    // Fresh 20x20 game: head (10,10), food ((10+5)%20, (10+5)%20) = (15,15).
    let game = app.get_game_state(player).expect("Game should exist");
    assert_eq!(game.food_position, Position { x: 15, y: 15 });

    // Walk down five cells, then right five cells onto the food.
    for _ in 0..5 {
        app.execute_operation(
            Operation::MoveSnake {
                direction: Direction::Down,
            },
            Some(player),
        )
        .expect("Move snake should not fail");
    }
    for _ in 0..5 {
        app.execute_operation(
            Operation::MoveSnake {
                direction: Direction::Right,
            },
            Some(player),
        )
        .expect("Move snake should not fail");
    }

    let game = app.get_game_state(player).expect("Game should exist");
    assert!(game.is_active);
    assert_eq!(game.snake_body[0], Position { x: 15, y: 15 });
    assert_eq!(game.score, 10, "Eating awards ten points");
    assert_eq!(game.snake_body.len(), 4, "Eating grows the snake by one");
    assert_eq!(app.get_high_score(player), 10);

    // Redrawn food: seed = 10 + 4; x = (14*7+13) % 20; y = (14*11+17) % 20.
    assert_eq!(game.food_position, Position { x: 11, y: 11 });
}

#[test]
fn scenario_eat_food_out_of_band() {
    let mut app = create_and_instantiate_app(0);
    let player = 1u64;

    // A game whose head already sits on the food cell.
    let game = GameState {
        snake_body: vec![
            Position { x: 5, y: 5 },
            Position { x: 4, y: 5 },
            Position { x: 3, y: 5 },
        ],
        direction: Direction::Right,
        food_position: Position { x: 5, y: 5 },
        score: 30,
        is_active: true,
        is_paused: false,
        width: 20,
        height: 20,
    };
    app.state.games.insert(player, game);

    app.execute_operation(Operation::EatFood, Some(player))
        .expect("Eat food should not fail");

    let game = app.get_game_state(player).expect("Game should exist");
    assert_eq!(game.score, 40);
    assert_eq!(game.snake_body.len(), 3, "EatFood does not grow the snake");
    // Redrawn food: seed = 40 + 3; x = (43*7+13) % 20; y = (43*11+17) % 20.
    assert_eq!(game.food_position, Position { x: 14, y: 10 });

    // Head no longer on the food: a second call is a silent no-op.
    app.execute_operation(Operation::EatFood, Some(player))
        .expect("Eat food should not fail");
    let game = app.get_game_state(player).expect("Game should exist");
    assert_eq!(game.score, 40);
}

#[test]
fn scenario_reversal_is_ignored() {
    let mut app = create_and_instantiate_app(0);
    let player = 1u64;

    app.execute_operation(Operation::StartGame, Some(player))
        .expect("Start game should not fail");

    // Initial direction is Right; Left is the exact opposite.
    app.execute_operation(
        Operation::MoveSnake {
            direction: Direction::Left,
        },
        Some(player),
    )
    .expect("Move snake should not fail");

    let game = app.get_game_state(player).expect("Game should exist");
    assert_eq!(game.direction, Direction::Right, "Direction unchanged");
    assert_eq!(game.snake_body[0], Position { x: 10, y: 10 });
    assert_eq!(game.snake_body.len(), 3);
    assert!(game.is_active);
}

#[test]
fn scenario_pause_blocks_moves_resume_restores() {
    let mut app = create_and_instantiate_app(0);
    let player = 1u64;

    app.execute_operation(Operation::StartGame, Some(player))
        .expect("Start game should not fail");
    app.execute_operation(Operation::PauseGame, Some(player))
        .expect("Pause game should not fail");

    let game = app.get_game_state(player).expect("Game should exist");
    assert!(game.is_paused);
    assert!(game.is_active, "Pausing leaves the game active");

    // A move while paused is a silent no-op.
    app.execute_operation(
        Operation::MoveSnake {
            direction: Direction::Up,
        },
        Some(player),
    )
    .expect("Move snake should not fail");
    let game = app.get_game_state(player).expect("Game should exist");
    assert_eq!(game.snake_body[0], Position { x: 10, y: 10 });

    app.execute_operation(Operation::ResumeGame, Some(player))
        .expect("Resume game should not fail");

    // The next move works normally again.
    app.execute_operation(
        Operation::MoveSnake {
            direction: Direction::Up,
        },
        Some(player),
    )
    .expect("Move snake should not fail");
    let game = app.get_game_state(player).expect("Game should exist");
    assert_eq!(game.snake_body[0], Position { x: 10, y: 9 });
}

#[test]
fn scenario_end_game_credits_score() {
    let mut app = create_and_instantiate_app(0);
    let player = 1u64;

    let game = GameState {
        snake_body: vec![
            Position { x: 5, y: 5 },
            Position { x: 4, y: 5 },
            Position { x: 3, y: 5 },
        ],
        direction: Direction::Right,
        food_position: Position { x: 9, y: 9 },
        score: 30,
        is_active: true,
        is_paused: false,
        width: 20,
        height: 20,
    };
    app.state.games.insert(player, game);

    app.execute_operation(Operation::EndGame, Some(player))
        .expect("End game should not fail");

    assert_eq!(app.get_points(player), 30);
    let game = app.get_game_state(player).expect("Game should exist");
    assert!(!game.is_active);
}

#[test]
fn scenario_wall_collision_preserves_score() {
    let mut app = create_and_instantiate_app(0);
    let player = 1u64;

    // A game one cell from the top wall, with points already scored.
    let game = GameState {
        snake_body: vec![
            Position { x: 5, y: 0 },
            Position { x: 4, y: 0 },
            Position { x: 3, y: 0 },
        ],
        direction: Direction::Right,
        food_position: Position { x: 9, y: 9 },
        score: 30,
        is_active: true,
        is_paused: false,
        width: 20,
        height: 20,
    };
    app.state.games.insert(player, game);

    app.execute_operation(
        Operation::MoveSnake {
            direction: Direction::Up,
        },
        Some(player),
    )
    .expect("Move snake should not fail");

    let game = app.get_game_state(player).expect("Game should exist");
    assert!(!game.is_active, "Leaving the board deactivates the game");
    assert_eq!(game.score, 30, "A collision awards no points");
    assert_eq!(game.snake_body.len(), 3, "The body is left as it was");
    assert_eq!(game.snake_body[0], Position { x: 5, y: 0 });
}

#[test]
fn unauthenticated_caller_aborts() {
    let mut app = create_and_instantiate_app(0);

    let r = app.execute_operation(Operation::StartGame, None);
    assert_eq!(r, Err(OperationError::NotAuthenticated));

    let r = app.execute_operation(Operation::AddPoints { amount: 5 }, None);
    assert_eq!(r, Err(OperationError::NotAuthenticated));

    // Nothing was committed.
    assert_eq!(app.get_points(7), 0);
    assert!(app.get_game_state(7).is_none());
}

#[test]
fn missing_game_aborts() {
    let mut app = create_and_instantiate_app(0);
    let player = 2u64;

    let r = app.execute_operation(
        Operation::MoveSnake {
            direction: Direction::Up,
        },
        Some(player),
    );
    assert_eq!(r, Err(OperationError::GameNotFound));

    assert_eq!(
        app.execute_operation(Operation::EatFood, Some(player)),
        Err(OperationError::GameNotFound)
    );
    assert_eq!(
        app.execute_operation(Operation::EndGame, Some(player)),
        Err(OperationError::GameNotFound)
    );
    assert_eq!(
        app.execute_operation(Operation::PauseGame, Some(player)),
        Err(OperationError::GameNotFound)
    );
    assert_eq!(
        app.execute_operation(Operation::ResumeGame, Some(player)),
        Err(OperationError::GameNotFound)
    );
}

#[test]
fn redeem_exact_balance_empties_it() {
    let mut app = create_and_instantiate_app(0);
    let player = 1u64;

    app.execute_operation(Operation::AddPoints { amount: 50 }, Some(player))
        .expect("Add points should not fail");
    app.execute_operation(Operation::RedeemPoints { amount: 50 }, Some(player))
        .expect("Redeem points should not fail");

    assert_eq!(app.get_points(player), 0);
}

#[test]
fn points_balance_saturates() {
    let mut app = create_and_instantiate_app(0);
    let player = 1u64;

    app.execute_operation(Operation::AddPoints { amount: u64::MAX }, Some(player))
        .expect("Add points should not fail");
    app.execute_operation(Operation::AddPoints { amount: 1 }, Some(player))
        .expect("Add points should not fail");

    assert_eq!(app.get_points(player), u64::MAX);
}

#[test]
fn nonpositive_board_dimensions_are_rejected() {
    let mut app = create_and_instantiate_app(0);

    app.execute_operation(
        Operation::SetGameParameters {
            width: 0,
            height: 25,
        },
        None,
    )
    .expect("Set game parameters should not fail");

    assert_eq!(app.state.game_width, 20);
    assert_eq!(app.state.game_height, 20);

    app.execute_operation(
        Operation::SetGameParameters {
            width: 30,
            height: -1,
        },
        None,
    )
    .expect("Set game parameters should not fail");

    assert_eq!(app.state.game_width, 20);
    assert_eq!(app.state.game_height, 20);
}

#[test]
fn reset_leaderboard_clears_high_scores() {
    let mut app = create_and_instantiate_app(0);
    let player = 1u64;

    app.state.high_scores.insert(player, 40);
    assert_eq!(app.get_high_score(player), 40);

    app.execute_operation(Operation::ResetLeaderboard, None)
        .expect("Reset leaderboard should not fail");

    assert_eq!(app.get_high_score(player), 0);
}

#[test]
fn points_reads_are_idempotent() {
    let mut app = create_and_instantiate_app(0);
    let player = 1u64;

    app.execute_operation(Operation::AddPoints { amount: 17 }, Some(player))
        .expect("Add points should not fail");

    let first = app.get_points(player);
    let second = app.get_points(player);
    assert_eq!(first, second);
    assert_eq!(first, 17);
}

#[test]
fn board_snapshot_is_not_retroactive() {
    let mut app = create_and_instantiate_app(0);
    let player = 1u64;

    app.execute_operation(Operation::StartGame, Some(player))
        .expect("Start game should not fail");
    app.execute_operation(
        Operation::SetGameParameters {
            width: 30,
            height: 25,
        },
        None,
    )
    .expect("Set game parameters should not fail");

    // The running game keeps its creation-time snapshot.
    let game = app.get_game_state(player).expect("Game should exist");
    assert_eq!(game.width, 20);
    assert_eq!(game.height, 20);

    // A restart picks up the new configuration.
    app.execute_operation(Operation::ResetGame, Some(player))
        .expect("Reset game should not fail");
    let game = app.get_game_state(player).expect("Game should exist");
    assert_eq!(game.width, 30);
    assert_eq!(game.height, 25);
    assert_eq!(game.snake_body[0], Position { x: 15, y: 12 });
}
