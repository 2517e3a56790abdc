use std::collections::VecDeque;

use snake_game::{
    Direction, FoodGenerator, Frame, Game, GameController, Point, PointDto, PointDtoType, Snake,
};

fn game_with_food_far_away() -> Game {
    Game::with_food(30, 30, Point { x: 1, y: 1 }, 0)
}

#[test]
fn one_step_after_the_threshold() {
    let g = game_with_food_far_away();
    let head = g.snake.head();
    assert_eq!(head, Point { x: 17, y: 17 });
    let g = g.update(31_000);
    assert_eq!(g.snake.head(), Point { x: head.x + 1, y: head.y });
    assert_eq!(g.snake.points.len(), 3);
    assert_eq!(g.score, 0);
    assert_eq!(g.total_time, 1_000);
}

#[test]
fn small_deltas_move_once_when_their_sum_exceeds_the_step() {
    let mut g = game_with_food_far_away();
    let start = g.snake.head();
    for _ in 0..3 {
        g = g.update(10_000);
        assert_eq!(g.snake.head(), start);
    }
    assert_eq!(g.total_time, 30_000);
    g = g.update(10_000);
    assert_eq!(g.snake.head(), Point { x: start.x + 1, y: start.y });
    assert_eq!(g.total_time, 10_000);
    g = g.update(10_000);
    assert_eq!(g.snake.head(), Point { x: start.x + 1, y: start.y });
}

#[test]
fn at_most_one_step_per_update() {
    let g = game_with_food_far_away().update(95_000);
    assert_eq!(g.snake.head(), Point { x: 18, y: 17 });
    assert_eq!(g.total_time, 65_000);
    let g = g.update(0);
    assert_eq!(g.snake.head(), Point { x: 19, y: 17 });
    assert_eq!(g.total_time, 35_000);
}

#[test]
fn new_game_starts_in_the_middle_with_food_inside() {
    let g = Game::new(30, 20, 7);
    assert_eq!(g.frame, Frame { min_x: 0, min_y: 0, max_x: 20, max_y: 30 });
    assert_eq!(g.food_generator.frame, g.frame);
    assert_eq!(Snake::new(10, 15), g.snake);
    assert!(0 < g.food.x && g.food.x < 20 && 0 < g.food.y && g.food.y < 30);
    assert_eq!(g.score, 0);
    assert_eq!(g.max_score, 7);
    assert_eq!(g.total_time, 0);
}

#[test]
fn eating_grows_scores_and_moves_the_food() {
    let g = Game::with_food(30, 30, Point { x: 18, y: 17 }, 0).update(31_000);
    assert_eq!(g.snake.points.len(), 4);
    assert_eq!(g.score, 1);
    assert_eq!(g.max_score, 1);
    assert!(0 < g.food.x && g.food.x < 30 && 0 < g.food.y && g.food.y < 30);
}

#[test]
fn eating_below_the_best_keeps_the_best() {
    let g = Game::with_food(30, 30, Point { x: 18, y: 17 }, 10).update(31_000);
    assert_eq!(g.score, 1);
    assert_eq!(g.max_score, 10);
}

#[test]
fn a_newborn_score_is_cleared_on_the_step() {
    let mut g = game_with_food_far_away();
    g.score = 5;
    let g = g.update(31_000);
    assert_eq!(g.score, 0);
}

#[test]
fn a_grown_snake_keeps_its_score_on_a_plain_step() {
    let mut g = game_with_food_far_away();
    g.snake = g.snake.grow();
    g.score = 1;
    let g = g.update(31_000);
    assert_eq!(g.score, 1);
    assert_eq!(g.snake.points.len(), 4);
}

#[test]
fn hitting_the_frame_resets_the_snake() {
    let g = Game::with_food(10, 6, Point { x: 1, y: 1 }, 0);
    assert_eq!(g.snake.head(), Point { x: 5, y: 7 });
    let g = g.update(31_000);
    assert_eq!(g.snake, Snake::new(3, 5));
}

#[test]
fn handle_input_turns_the_snake() {
    let g = game_with_food_far_away().handle_input(Direction::Bottom).update(31_000);
    assert_eq!(g.snake.direction, Direction::Bottom);
    assert_eq!(g.snake.head(), Point { x: 17, y: 18 });
}

#[test]
fn is_time_to_move_takes_one_step_off() {
    let (g, due) = game_with_food_far_away().is_time_to_move(30_000);
    assert!(!due);
    assert_eq!(g.total_time, 30_000);
    let (g, due) = g.is_time_to_move(1);
    assert!(due);
    assert_eq!(g.total_time, 1);
}

#[test]
fn try_eat_without_moving() {
    let g = Game::with_food(30, 30, Point { x: 17, y: 17 }, 0).try_eat();
    assert_eq!(g.score, 1);
    assert_eq!(g.snake.points.len(), 4);
    let g = Game::with_food(30, 30, Point { x: 1, y: 17 }, 0).try_eat();
    assert_eq!(g.score, 0);
    assert_eq!(g.food, Point { x: 1, y: 17 });
}

#[test]
fn food_is_drawn_strictly_inside() {
    let narrow = FoodGenerator { frame: Frame { min_x: 5, min_y: 8, max_x: 7, max_y: 10 } };
    for _ in 0..50 {
        assert_eq!(narrow.generate(), Point { x: 6, y: 9 });
    }
    let wide = FoodGenerator { frame: Frame { min_x: 0, min_y: 0, max_x: 10, max_y: 4 } };
    for _ in 0..200 {
        let p = wide.generate();
        assert!(0 < p.x && p.x < 10 && 0 < p.y && p.y < 4);
    }
}

fn frame_cell(x: u8, y: u8) -> PointDto {
    PointDto { x, y, state_type: PointDtoType::Frame }
}

#[test]
fn state_lists_food_head_tail_then_frame() {
    let c = GameController { game: Game::with_food(2, 2, Point { x: 1, y: 1 }, 0) };
    let expected = vec![
        PointDto { x: 1, y: 1, state_type: PointDtoType::Food },
        PointDto { x: 3, y: 3, state_type: PointDtoType::Head },
        PointDto { x: 2, y: 2, state_type: PointDtoType::Tail },
        PointDto { x: 1, y: 1, state_type: PointDtoType::Tail },
        frame_cell(0, 2),
        frame_cell(0, 0),
        frame_cell(1, 2),
        frame_cell(1, 0),
        frame_cell(2, 2),
        frame_cell(2, 0),
        frame_cell(2, 0),
        frame_cell(0, 0),
        frame_cell(2, 1),
        frame_cell(0, 1),
        frame_cell(2, 2),
        frame_cell(0, 2),
    ];
    assert_eq!(c.get_state(), expected);
}

#[test]
fn state_lists_every_body_cell_after_the_head() {
    let mut game = Game::with_food(2, 2, Point { x: 1, y: 1 }, 0);
    game.snake.points =
        VecDeque::from(vec![Point { x: 1, y: 1 }, Point { x: 2, y: 2 }, Point { x: 1, y: 1 }]);
    let state = GameController { game }.get_state();
    assert_eq!(state[1], PointDto { x: 1, y: 1, state_type: PointDtoType::Head });
    let tails: Vec<&PointDto> = state.iter().filter(|p| p.state_type == PointDtoType::Tail).collect();
    assert_eq!(
        tails,
        vec![
            &PointDto { x: 2, y: 2, state_type: PointDtoType::Tail },
            &PointDto { x: 1, y: 1, state_type: PointDtoType::Tail },
        ]
    );
    assert_eq!(state.len(), 2 + 2 + 12);
}

#[test]
fn frame_cells_cover_the_whole_border() {
    let c = GameController::new(0);
    let state = c.get_state();
    let frame_cells = state.iter().filter(|p| p.state_type == PointDtoType::Frame).count();
    assert_eq!(frame_cells, 4 * 31);
    assert_eq!(state[0].state_type, PointDtoType::Food);
    assert_eq!(state[1], PointDto { x: 17, y: 17, state_type: PointDtoType::Head });
}

#[test]
fn controller_steers_then_updates() {
    let c = GameController { game: game_with_food_far_away() };
    let c = c.update(31_000, Some(Direction::Top));
    assert_eq!(c.game.snake.head(), Point { x: 17, y: 16 });
    let c = c.update(31_000, None);
    assert_eq!(c.game.snake.head(), Point { x: 17, y: 15 });
    assert_eq!(c.get_score(), 0);
    assert_eq!(c.get_max_score(), 0);
}

#[test]
fn controller_reports_scores() {
    let c = GameController { game: Game::with_food(30, 30, Point { x: 18, y: 17 }, 3) };
    let c = c.update(31_000, None);
    assert_eq!(c.get_score(), 1);
    assert_eq!(c.get_max_score(), 3);
    assert_eq!(GameController::new(12).get_max_score(), 12);
}

#[test]
fn point_kind_defaults_to_frame() {
    assert_eq!(PointDtoType::default(), PointDtoType::Frame);
}
