//! The snake: a head-first body of points and a facing direction.
use vstd::prelude::*;

use std::collections::VecDeque;

use crate::geometry::{Frame, Point};

verus! {

/// Number of cells in a freshly seeded body.
pub const INITIAL_LENGTH: usize = 3;

/// Where the head is facing.
#[derive(Clone, Copy, Debug, PartialEq, Eq, Structural)]
pub enum Direction {
    Left,
    Right,
    Top,
    Bottom,
}

impl Default for Direction {
    fn default() -> (r: Direction)
        ensures
            r == Direction::Right,
    {
        Direction::Right
    }
}

/// The cell one step from `p` toward `d`, held at the grid's edge
/// (0 and 255) rather than wrapping around.
pub open spec fn stepped(p: Point, d: Direction) -> Point {
    match d {
        Direction::Right => Point { x: if p.x == 255 { 255 } else { (p.x + 1) as u8 }, y: p.y },
        Direction::Left => Point { x: if p.x == 0 { 0 } else { (p.x - 1) as u8 }, y: p.y },
        Direction::Top => Point { x: p.x, y: if p.y == 0 { 0 } else { (p.y - 1) as u8 } },
        Direction::Bottom => Point { x: p.x, y: if p.y == 255 { 255 } else { (p.y + 1) as u8 } },
    }
}

/// How many cells of `s` coincide with `p`.
pub open spec fn count_of(s: Seq<Point>, p: Point) -> nat
    decreases s.len(),
{
    if s.len() == 0 {
        0
    } else {
        count_of(s.drop_last(), p) + if s.last() == p {
            1nat
        } else {
            0nat
        }
    }
}

/// The mathematical value of a snake.
pub struct SnakeState {
    pub direction: Direction,
    pub points: Seq<Point>,
    pub start_x: u8,
    pub start_y: u8,
}

impl SnakeState {
    /// The snake born at `(x, y)`: three cells on the diagonal from
    /// `(x, y)` to `(x + 2, y + 2)`, the last of them the head, facing right.
    pub open spec fn fresh(x: u8, y: u8) -> SnakeState {
        SnakeState {
            direction: Direction::Right,
            points: seq![
                Point { x: (x + 2) as u8, y: (y + 2) as u8 },
                Point { x: (x + 1) as u8, y: (y + 1) as u8 },
                Point { x, y },
            ],
            start_x: x,
            start_y: y,
        }
    }

    /// A body can be seeded from these birth coordinates.
    pub open spec fn can_seed(x: u8, y: u8) -> bool {
        x <= 253 && y <= 253
    }

    /// The body is not empty and the snake can be reborn.
    pub open spec fn wf(self) -> bool {
        self.points.len() > 0 && Self::can_seed(self.start_x, self.start_y)
    }

    pub open spec fn head(self) -> Point {
        self.points[0]
    }

    /// The birth configuration of this snake.
    pub open spec fn reborn(self) -> SnakeState {
        Self::fresh(self.start_x, self.start_y)
    }

    /// The tail cell doubled, so that the body is one cell longer.
    pub open spec fn grown(self) -> SnakeState {
        if self.points.len() > 0 {
            SnakeState { points: self.points.push(self.points.last()), ..self }
        } else {
            self
        }
    }

    pub open spec fn turned(self, direction: Direction) -> SnakeState {
        SnakeState { direction, ..self }
    }

    /// One step forward: a new head in front, the last cell dropped.
    pub open spec fn moved(self) -> SnakeState {
        if self.points.len() > 0 {
            SnakeState {
                points: seq![stepped(self.head(), self.direction)] + self.points.drop_last(),
                ..self
            }
        } else {
            self
        }
    }

    /// The head is on `food`.
    pub open spec fn bites(self, food: Point) -> bool {
        self.head().meets(food)
    }

    /// Grown when the head is on `food`, unchanged otherwise.
    pub open spec fn after_eating(self, food: Point) -> SnakeState {
        if self.bites(food) {
            self.grown()
        } else {
            self
        }
    }

    /// Some cell other than the head lies on the head.
    pub open spec fn hits_itself(self) -> bool {
        count_of(self.points, self.head()) > 1
    }

    pub open spec fn after_tail_check(self) -> SnakeState {
        if self.hits_itself() {
            self.reborn()
        } else {
            self
        }
    }

    pub open spec fn after_frame_check(self, frame: Frame) -> SnakeState {
        if frame.touches(self.head()) {
            self.reborn()
        } else {
            self
        }
    }
}

/// A snake whose body is held head first.
#[derive(Clone, Debug)]
pub struct Snake {
    pub direction: Direction,
    pub points: VecDeque<Point>,
    pub start_x: u8,
    pub start_y: u8,
}

impl View for Snake {
    type V = SnakeState;

    open spec fn view(&self) -> SnakeState {
        SnakeState {
            direction: self.direction,
            points: self.points@,
            start_x: self.start_x,
            start_y: self.start_y,
        }
    }
}

impl PartialEq for Snake {
    fn eq(&self, other: &Snake) -> (r: bool)
        ensures
            r == (self@ == other@),
    {
        if self.direction != other.direction || self.start_x != other.start_x || self.start_y
            != other.start_y || self.points.len() != other.points.len() {
            return false;
        }
        let mut i: usize = 0;
        while i < self.points.len()
            invariant
                self.points@.len() == other.points@.len(),
                i <= self.points@.len(),
                forall|j: int| 0 <= j < i ==> self.points@[j] == other.points@[j],
            decreases self.points@.len() - i,
        {
            if self.points[i] != other.points[i] {
                return false;
            }
            i = i + 1;
        }
        assert(self.points@ =~= other.points@);
        true
    }
}

impl vstd::std_specs::cmp::PartialEqSpecImpl for Snake {
    open spec fn obeys_eq_spec() -> bool {
        true
    }

    open spec fn eq_spec(&self, other: &Snake) -> bool {
        self@ == other@
    }
}

impl Eq for Snake {

}

impl Snake {
    /// Seeds a body on the diagonal from `(x, y)`; each cell is pushed to
    /// the front, so `(x + 2, y + 2)` ends up as the head.
    pub fn new(x: u8, y: u8) -> (r: Snake)
        requires
            SnakeState::can_seed(x, y),
        ensures
            r@ == SnakeState::fresh(x, y),
            r@.wf(),
    {
        let mut points: VecDeque<Point> = VecDeque::new();
        let mut i: u8 = 0;
        while i < 3
            invariant
                i <= 3,
                x <= 253 && y <= 253,
                points@.len() == i,
                forall|k: int|
                    0 <= k < i ==> (#[trigger] points@[k]).x == x + i - 1 - k && points@[k].y == y
                        + i - 1 - k,
            decreases 3 - i,
        {
            points.push_front(Point { x: x + i, y: i + y });
            i = i + 1;
        }
        assert(points@ =~= SnakeState::fresh(x, y).points);
        Snake { direction: Direction::default(), points, start_x: x, start_y: y }
    }

    /// Doubles the tail cell, making the body one cell longer.
    pub fn grow(self) -> (r: Snake)
        ensures
            r@ == self@.grown(),
    {
        let mut points = self.points;
        match points.pop_back() {
            Some(tail) => {
                points.push_back(Point { x: tail.x, y: tail.y });
                points.push_back(tail);
            },
            None => {},
        }
        proof {
            if self.points@.len() > 0 {
                assert(points@ =~= self.points@.push(self.points@.last()));
            }
        }
        Snake { direction: self.direction, points, start_x: self.start_x, start_y: self.start_y }
    }

    /// The snake as it was born, all growth discarded.
    pub fn reset(self) -> (r: Snake)
        requires
            self@.wf(),
        ensures
            r@ == self@.reborn(),
            r@.wf(),
    {
        Snake::new(self.start_x, self.start_y)
    }

    /// Faces `direction`; any direction is accepted, a reversal included.
    pub fn turn(self, direction: Direction) -> (r: Snake)
        ensures
            r@ == self@.turned(direction),
    {
        Snake { direction, ..self }
    }

    /// Grows when the head is on `point`, and says whether it did.
    pub fn try_eat(self, point: &Point) -> (r: (Snake, bool))
        requires
            self@.points.len() > 0,
        ensures
            r.1 == self@.bites(*point),
            r.0@ == self@.after_eating(*point),
    {
        let head = self.head();
        if head.intersects(point) {
            return (self.grow(), true);
        }
        (self, false)
    }

    /// Reborn when the head touches the frame, unchanged otherwise.
    pub fn try_intersect_frame(self, frame: &Frame) -> (r: Snake)
        requires
            self@.wf(),
        ensures
            r@ == self@.after_frame_check(*frame),
            r@.wf(),
    {
        let head = self.head();
        if frame.intersects(&head) {
            return self.reset();
        }
        self
    }

    /// Reborn when another cell of the body lies on the head, unchanged
    /// otherwise.
    pub fn try_intersect_tail(self) -> (r: Snake)
        requires
            self@.wf(),
        ensures
            r@ == self@.after_tail_check(),
            r@.wf(),
    {
        let head = self.head();
        let mut count: usize = 0;
        let mut i: usize = 0;
        while i < self.points.len()
            invariant
                i <= self.points@.len(),
                head == self@.head(),
                count <= i,
                count == count_of(self.points@.take(i as int), head),
            decreases self.points@.len() - i,
        {
            assert(self.points@.take(i + 1).drop_last() =~= self.points@.take(i as int));
            if head.intersects(&self.points[i]) {
                count = count + 1;
            }
            i = i + 1;
        }
        assert(self.points@.take(i as int) =~= self.points@);
        if count > 1 {
            return self.reset();
        }
        self
    }

    /// The first cell of the body.
    pub fn head(&self) -> (r: Point)
        requires
            self@.points.len() > 0,
        ensures
            r == self@.head(),
    {
        self.points[0]
    }

    /// Moves one cell toward the facing direction: a new head in front,
    /// the last cell dropped, so the length stays the same.
    pub fn move_snake(self) -> (r: Snake)
        ensures
            r@ == self@.moved(),
    {
        if self.points.len() == 0 {
            return self;
        }
        let head = self.head();
        let next = match self.direction {
            Direction::Right => Point { x: if head.x == 255 { 255 } else { head.x + 1 }, y: head.y },
            Direction::Left => Point { x: if head.x == 0 { 0 } else { head.x - 1 }, y: head.y },
            Direction::Top => Point { x: head.x, y: if head.y == 0 { 0 } else { head.y - 1 } },
            Direction::Bottom => Point { x: head.x, y: if head.y == 255 { 255 } else { head.y + 1 } },
        };
        let mut points = self.points;
        points.pop_back();
        points.push_front(next);
        assert(points@ =~= seq![next] + self.points@.drop_last());
        Snake { direction: self.direction, points, start_x: self.start_x, start_y: self.start_y }
    }
}

/// A non-empty body counts its own head at least once.
proof fn lemma_count_head(s: Seq<Point>)
    requires
        s.len() > 0,
    ensures
        count_of(s, s[0]) >= 1,
    decreases s.len(),
{
    if s.len() > 1 {
        lemma_count_head(s.drop_last());
    }
}

/// A newborn faces right and has three cells.
pub proof fn lemma_newborn_shape(x: u8, y: u8)
    ensures
        SnakeState::fresh(x, y).direction == Direction::Right,
        SnakeState::fresh(x, y).points.len() == INITIAL_LENGTH,
{
}

/// Turning sets the direction whatever it was before, and leaves the body
/// alone.
pub proof fn lemma_turn_sets_direction(s: SnakeState, d: Direction)
    ensures
        s.turned(d).direction == d,
        s.turned(d).points == s.points,
{
}

/// Eating away from the head keeps the length; eating at the head adds one
/// cell.
pub proof fn lemma_eat_length(s: SnakeState, food: Point)
    requires
        s.points.len() > 0,
    ensures
        !s.head().meets(food) ==> s.after_eating(food).points.len() == s.points.len(),
        s.head().meets(food) ==> s.after_eating(food).points.len() == s.points.len() + 1,
{
}

/// Growing a newborn snake adds exactly one cell and keeps the head.
pub proof fn lemma_grow_newborn(x: u8, y: u8)
    requires
        SnakeState::can_seed(x, y),
    ensures
        SnakeState::fresh(x, y).grown().points.len() == SnakeState::fresh(x, y).points.len() + 1,
        SnakeState::fresh(x, y).grown().head() == SnakeState::fresh(x, y).head(),
{
}

/// Resetting a grown newborn gives back the newborn: growth is discarded.
pub proof fn lemma_reset_discards_growth(x: u8, y: u8)
    requires
        SnakeState::can_seed(x, y),
    ensures
        SnakeState::fresh(x, y).grown().reborn() == SnakeState::fresh(x, y),
{
}

/// A grown newborn whose head lies on the frame's border is reborn.
pub proof fn lemma_frame_hit_resets(x: u8, y: u8, frame: Frame)
    requires
        SnakeState::can_seed(x, y),
        frame.touches(SnakeState::fresh(x, y).grown().head()),
    ensures
        SnakeState::fresh(x, y).grown().after_frame_check(frame) == SnakeState::fresh(x, y),
{
}

/// A grown newborn whose head is strictly inside the frame is left as it
/// is, one cell longer than a newborn.
pub proof fn lemma_frame_miss_keeps(x: u8, y: u8, frame: Frame)
    requires
        SnakeState::can_seed(x, y),
        frame.strictly_inside(SnakeState::fresh(x, y).grown().head()),
    ensures
        SnakeState::fresh(x, y).grown().after_frame_check(frame) == SnakeState::fresh(x, y).grown(),
        SnakeState::fresh(x, y).grown().after_frame_check(frame).points.len()
            == SnakeState::fresh(x, y).points.len() + 1,
{
}

/// A grown newborn with its head cell appended to the tail collides with
/// itself and is reborn.
pub proof fn lemma_tail_hit_resets(x: u8, y: u8)
    requires
        SnakeState::can_seed(x, y),
    ensures
        ({
            let g = SnakeState::fresh(x, y).grown();
            let s = SnakeState { points: g.points.push(g.head()), ..g };
            s.after_tail_check() == SnakeState::fresh(x, y)
        }),
{
    let g = SnakeState::fresh(x, y).grown();
    let s = SnakeState { points: g.points.push(g.head()), ..g };
    assert(s.points.drop_last() =~= g.points);
    lemma_count_head(g.points);
    assert(s.head() == g.head());
}

/// Facing right, a step moves the head one cell along x and keeps the
/// length, away from the grid's last column.
pub proof fn lemma_move_right(s: SnakeState)
    requires
        s.points.len() > 0,
        s.direction == Direction::Right,
        s.head().x < 255,
    ensures
        s.moved().head() == (Point { x: (s.head().x + 1) as u8, y: s.head().y }),
        s.moved().points.len() == s.points.len(),
{
}

} // verus!
