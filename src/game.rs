//! One game: the snake, its frame, the food and the scores, advanced by a
//! fixed-step clock.
use vstd::prelude::*;

use crate::food::FoodGenerator;
use crate::geometry::{Frame, Point};
use crate::snake::{Direction, Snake, SnakeState, INITIAL_LENGTH};

verus! {

/// Microseconds of accumulated time that one step of the snake consumes.
pub const STEP_MICROS: u64 = 30_000;

/// The mathematical value of a game.
pub struct GameState {
    pub snake: SnakeState,
    pub frame: Frame,
    pub food: Point,
    pub food_generator: FoodGenerator,
    pub score: usize,
    pub max_score: usize,
    pub total_time: u64,
}

impl GameState {
    /// A game that starts on a `width` by `height` field with `food` placed.
    pub open spec fn started(height: u8, width: u8, food: Point, max_score: usize) -> GameState {
        let frame = Frame { min_x: 0, min_y: 0, max_x: width, max_y: height };
        GameState {
            snake: SnakeState::fresh(width / 2, height / 2),
            frame,
            food,
            food_generator: FoodGenerator { frame },
            score: 0,
            max_score,
            total_time: 0,
        }
    }

    /// The snake is well formed and never shorter than at birth, the score
    /// counts at most the cells grown since birth (a newborn's score is
    /// cleared before it is used), food lies strictly inside the frame and
    /// new food is drawn from that frame.
    pub open spec fn wf(self) -> bool {
        &&& self.snake.wf()
        &&& self.snake.points.len() >= INITIAL_LENGTH
        &&& (self.snake.points.len() == INITIAL_LENGTH || self.score + INITIAL_LENGTH
            <= self.snake.points.len())
        &&& self.frame.has_interior()
        &&& self.food_generator.frame == self.frame
        &&& self.frame.strictly_inside(self.food)
    }

    /// The eating rule: a newborn's score is cleared first; on a bite the
    /// snake grows, `fresh` becomes the food, the score goes up by one and the
    /// best score follows it.
    pub open spec fn after_eating(self, fresh: Point) -> GameState {
        let score = if self.snake.points.len() == INITIAL_LENGTH {
            0
        } else {
            self.score
        };
        if self.snake.bites(self.food) {
            let score = (score + 1) as usize;
            GameState {
                snake: self.snake.grown(),
                food: fresh,
                score,
                max_score: if self.max_score < score {
                    score
                } else {
                    self.max_score
                },
                ..self
            }
        } else {
            GameState { score, ..self }
        }
    }

    /// One step: move, then the collision with the body, then the one with
    /// the frame, then eating.
    pub open spec fn ticked(self, fresh: Point) -> GameState {
        GameState {
            snake: self.snake.moved().after_tail_check().after_frame_check(self.frame),
            ..self
        }.after_eating(fresh)
    }

    /// The clock after `delta` more microseconds, and whether a step is due:
    /// one step's worth is taken off when the total exceeds it.
    pub open spec fn clocked(self, delta: u64) -> (GameState, bool) {
        let total = self.total_time + delta;
        if total > STEP_MICROS {
            (GameState { total_time: (total - STEP_MICROS) as u64, ..self }, true)
        } else {
            (GameState { total_time: total as u64, ..self }, false)
        }
    }

    /// The game after `delta` microseconds, `fresh` being the food drawn if
    /// the snake eats.
    pub open spec fn updated(self, delta: u64, fresh: Point) -> GameState {
        let (g, due) = self.clocked(delta);
        if due {
            g.ticked(fresh)
        } else {
            g
        }
    }

    pub open spec fn turned(self, direction: Direction) -> GameState {
        GameState { snake: self.snake.turned(direction), ..self }
    }
}

/// A running game. `total_time` is the microseconds accumulated toward the
/// next step.
#[derive(Clone, Debug)]
pub struct Game {
    pub snake: Snake,
    pub frame: Frame,
    pub food: Point,
    pub food_generator: FoodGenerator,
    pub score: usize,
    pub max_score: usize,
    pub total_time: u64,
}

impl View for Game {
    type V = GameState;

    open spec fn view(&self) -> GameState {
        GameState {
            snake: self.snake@,
            frame: self.frame,
            food: self.food,
            food_generator: self.food_generator,
            score: self.score,
            max_score: self.max_score,
            total_time: self.total_time,
        }
    }
}

impl Game {
    /// A game on a `width` by `height` field with the given food; the snake
    /// is born in the middle and the best score so far is `max_score`.
    pub fn with_food(height: u8, width: u8, food: Point, max_score: usize) -> (r: Game)
        requires
            width >= 2 && height >= 2,
            0 < food.x < width && 0 < food.y < height,
        ensures
            r@ == GameState::started(height, width, food, max_score),
            r@.wf(),
    {
        let frame = Frame { min_x: 0, min_y: 0, max_x: width, max_y: height };
        let food_generator = FoodGenerator { frame };
        let snake = Snake::new(width / 2, height / 2);
        Game { snake, frame, food, food_generator, score: 0, max_score, total_time: 0 }
    }

    /// A game on a `width` by `height` field with food placed at random.
    pub fn new(height: u8, width: u8, max_score: usize) -> (r: Game)
        requires
            width >= 2 && height >= 2,
        ensures
            r@ == GameState::started(height, width, r.food, max_score),
            r@.wf(),
    {
        let frame = Frame { min_x: 0, min_y: 0, max_x: width, max_y: height };
        let generator = FoodGenerator { frame };
        let food = generator.generate();
        Game::with_food(height, width, food, max_score)
    }

    /// Advances the clock by `time_delta` microseconds and, when a step is
    /// due, takes exactly one.
    pub fn update(self, time_delta: u64) -> (r: Game)
        requires
            self@.wf(),
            self.total_time + time_delta <= u64::MAX,
        ensures
            r@ == self@.updated(time_delta, r.food),
            r@.wf(),
            r.max_score >= self.max_score,
    {
        let (game, is_moving) = self.is_time_to_move(time_delta);
        if is_moving {
            let Game { snake, frame, food, food_generator, score, max_score, total_time } = game;
            let snake = snake.move_snake().try_intersect_tail().try_intersect_frame(&frame);
            let moved = Game { snake, frame, food, food_generator, score, max_score, total_time };
            moved.try_eat()
        } else {
            game
        }
    }

    /// Adds `time_delta` microseconds to the clock and says whether a step
    /// is due.
    pub fn is_time_to_move(self, time_delta: u64) -> (r: (Game, bool))
        requires
            self.total_time + time_delta <= u64::MAX,
        ensures
            r.0@ == self@.clocked(time_delta).0,
            r.1 == self@.clocked(time_delta).1,
    {
        let mut game = self;
        game.total_time = game.total_time + time_delta;
        if game.total_time > STEP_MICROS {
            game.total_time = game.total_time - STEP_MICROS;
            (game, true)
        } else {
            (game, false)
        }
    }

    /// Applies the eating rule, drawing new food when the snake eats.
    pub fn try_eat(self) -> (r: Game)
        requires
            self@.wf(),
        ensures
            r@ == self@.after_eating(r.food),
            r@.wf(),
            r.max_score >= self.max_score,
    {
        let Game { snake, frame, food, food_generator, score, max_score, total_time } = self;
        let len = snake.points.len();
        let score = if len == INITIAL_LENGTH {
            0
        } else {
            score
        };
        let (snake, eaten) = snake.try_eat(&food);
        if eaten {
            let food = food_generator.generate();
            let score = score + 1;
            let max_score = if max_score < score {
                score
            } else {
                max_score
            };
            Game { snake, frame, food, food_generator, score, max_score, total_time }
        } else {
            Game { snake, frame, food, food_generator, score, max_score, total_time }
        }
    }

    /// Turns the snake toward `input`.
    pub fn handle_input(self, input: Direction) -> (r: Game)
        ensures
            r@ == self@.turned(input),
            self@.wf() ==> r@.wf(),
    {
        let Game { snake, frame, food, food_generator, score, max_score, total_time } = self;
        let snake = snake.turn(input);
        Game { snake, frame, food, food_generator, score, max_score, total_time }
    }
}

} // verus!
