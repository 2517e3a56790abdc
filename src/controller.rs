//! The boundary between a game and whatever shows it: input and elapsed
//! time go in, a list of typed points to draw comes out.
use vstd::prelude::*;

use crate::game::{Game, GameState};
use crate::geometry::{Frame, Point};
use crate::snake::Direction;

verus! {

/// Side length of the field a controller plays on.
pub const FIELD_SIZE: u8 = 30;

/// What a drawn point stands for.
#[derive(Clone, Copy, Debug, PartialEq, Eq, Structural)]
pub enum PointDtoType {
    Head,
    Tail,
    Food,
    Frame,
}

impl Default for PointDtoType {
    fn default() -> (r: PointDtoType)
        ensures
            r == PointDtoType::Frame,
    {
        PointDtoType::Frame
    }
}

/// A point to draw, with what it stands for.
#[derive(Clone, Copy, Debug, PartialEq, Eq, Structural)]
pub struct PointDto {
    pub x: u8,
    pub y: u8,
    pub state_type: PointDtoType,
}

pub open spec fn dto(p: Point, state_type: PointDtoType) -> PointDto {
    PointDto { x: p.x, y: p.y, state_type }
}

/// Each cell of `body`, in order, as a tail cell.
pub open spec fn tail_dtos(body: Seq<Point>) -> Seq<PointDto> {
    body.map_values(|p: Point| dto(p, PointDtoType::Tail))
}

/// Number of values from `lo` to `hi`, both included.
pub open spec fn span(lo: u8, hi: u8) -> nat {
    if lo <= hi {
        (hi - lo + 1) as nat
    } else {
        0
    }
}

/// The first `n` columns of the top and bottom lines, left to right; each
/// column gives its cell on `max_y`, then its cell on `min_y`.
pub open spec fn row_dtos(f: Frame, n: nat) -> Seq<PointDto>
    decreases n,
{
    if n == 0 {
        seq![]
    } else {
        let x = (f.min_x + n - 1) as u8;
        row_dtos(f, (n - 1) as nat) + seq![
            dto(Point { x, y: f.max_y }, PointDtoType::Frame),
            dto(Point { x, y: f.min_y }, PointDtoType::Frame),
        ]
    }
}

/// The first `n` rows of the right and left lines, top to bottom; each row
/// gives its cell on `max_x`, then its cell on `min_x`.
pub open spec fn column_dtos(f: Frame, n: nat) -> Seq<PointDto>
    decreases n,
{
    if n == 0 {
        seq![]
    } else {
        let y = (f.min_y + n - 1) as u8;
        column_dtos(f, (n - 1) as nat) + seq![
            dto(Point { x: f.max_x, y }, PointDtoType::Frame),
            dto(Point { x: f.min_x, y }, PointDtoType::Frame),
        ]
    }
}

/// Everything to draw for a game: the food, the head, every body cell after
/// the head, then the frame's horizontal lines and its vertical lines.
pub open spec fn drawn(g: GameState) -> Seq<PointDto> {
    seq![dto(g.food, PointDtoType::Food), dto(g.snake.head(), PointDtoType::Head)] + tail_dtos(
        g.snake.points.drop_first(),
    ) + row_dtos(g.frame, span(g.frame.min_x, g.frame.max_x)) + column_dtos(
        g.frame,
        span(g.frame.min_y, g.frame.max_y),
    )
}

/// The game as the controller hands it on: turned toward `direction`, if
/// any, then advanced by `delta` microseconds.
pub open spec fn steered(g: GameState, delta: u64, direction: Option<Direction>, fresh: Point) -> GameState {
    match direction {
        None => g,
        Some(d) => g.turned(d),
    }.updated(delta, fresh)
}

/// Mediates between a game and its presentation.
#[derive(Clone, Debug)]
pub struct GameController {
    pub game: Game,
}

impl GameController {
    pub open spec fn wf(&self) -> bool {
        self.game@.wf()
    }

    /// A controller over a fresh square field, `max_score` being the best
    /// score stored so far.
    pub fn new(max_score: usize) -> (r: GameController)
        ensures
            r.game@ == GameState::started(FIELD_SIZE, FIELD_SIZE, r.game.food, max_score),
            r.wf(),
    {
        GameController { game: Game::new(FIELD_SIZE, FIELD_SIZE, max_score) }
    }

    /// The points to draw now.
    pub fn get_state(&self) -> (r: Vec<PointDto>)
        requires
            self.game@.snake.points.len() > 0,
        ensures
            r@ == drawn(self.game@),
    {
        let game = &self.game;
        let mut v: Vec<PointDto> = Vec::new();
        v.push(PointDto { x: game.food.x, y: game.food.y, state_type: PointDtoType::Food });
        let head = game.snake.head();
        v.push(PointDto { x: head.x, y: head.y, state_type: PointDtoType::Head });
        let ghost lead = v@;
        let points = &game.snake.points;
        let mut i: usize = 1;
        while i < points.len()
            invariant
                1 <= i <= points@.len(),
                v@ == lead + tail_dtos(points@.subrange(1, i as int)),
            decreases points@.len() - i,
        {
            let p = points[i];
            v.push(PointDto { x: p.x, y: p.y, state_type: PointDtoType::Tail });
            assert(tail_dtos(points@.subrange(1, i + 1)) =~= tail_dtos(
                points@.subrange(1, i as int),
            ).push(dto(p, PointDtoType::Tail)));
            i = i + 1;
        }
        assert(points@.subrange(1, i as int) =~= points@.drop_first());
        let frame = game.frame;
        let ghost body = v@;
        let width: u16 = if frame.min_x <= frame.max_x {
            frame.max_x as u16 - frame.min_x as u16 + 1
        } else {
            0
        };
        let mut k: u16 = 0;
        while k < width
            invariant
                width == span(frame.min_x, frame.max_x),
                k <= width,
                v@ == body + row_dtos(frame, k as nat),
            decreases width - k,
        {
            let x = (frame.min_x as u16 + k) as u8;
            v.push(PointDto { x, y: frame.max_y, state_type: PointDtoType::Frame });
            v.push(PointDto { x, y: frame.min_y, state_type: PointDtoType::Frame });
            k = k + 1;
        }
        let ghost rows = v@;
        let height: u16 = if frame.min_y <= frame.max_y {
            frame.max_y as u16 - frame.min_y as u16 + 1
        } else {
            0
        };
        let mut k: u16 = 0;
        while k < height
            invariant
                height == span(frame.min_y, frame.max_y),
                k <= height,
                v@ == rows + column_dtos(frame, k as nat),
            decreases height - k,
        {
            let y = (frame.min_y as u16 + k) as u8;
            v.push(PointDto { x: frame.max_x, y, state_type: PointDtoType::Frame });
            v.push(PointDto { x: frame.min_x, y, state_type: PointDtoType::Frame });
            k = k + 1;
        }
        v
    }

    /// Turns the snake toward `direction`, if one is given, then advances
    /// the game by `time_delta` microseconds.
    pub fn update(self, time_delta: u64, direction: Option<Direction>) -> (r: GameController)
        requires
            self.wf(),
            self.game.total_time + time_delta <= u64::MAX,
        ensures
            r.game@ == steered(self.game@, time_delta, direction, r.game.food),
            r.wf(),
    {
        let game = self.game;
        let game = match direction {
            None => game,
            Some(d) => game.handle_input(d),
        };
        GameController { game: game.update(time_delta) }
    }

    pub fn get_max_score(&self) -> (r: usize)
        ensures
            r == self.game.max_score,
    {
        self.game.max_score
    }

    pub fn get_score(&self) -> (r: usize)
        ensures
            r == self.game.score,
    {
        self.game.score
    }
}

} // verus!
