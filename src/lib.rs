//! A grid snake simulation: geometry, the snake's movement rules, food
//! placement, the fixed-step game tick and the high-score record format.
use vstd::prelude::*;

pub mod controller;
pub mod food;
pub mod game;
pub mod geometry;
pub mod score;
pub mod snake;

pub use controller::{GameController, PointDto, PointDtoType};
pub use food::FoodGenerator;
pub use game::{Game, GameState};
pub use geometry::{Frame, Point};
pub use score::{ScoreError, ScoreRepository};
pub use snake::{Direction, Snake, SnakeState};
