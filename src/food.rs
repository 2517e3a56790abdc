//! Random placement of food inside the frame.
use vstd::prelude::*;

use rand::Rng;

use crate::geometry::{Frame, Point};

verus! {

/// Relies on rand's `Rng::gen_range` over the thread-local generator: it
/// returns a value in `[low, high)` and panics when `low >= high`.
#[verifier::external_body]
fn random_in(low: u8, high: u8) -> (r: u8)
    requires
        low < high,
    ensures
        low <= r < high,
{
    rand::thread_rng().gen_range(low, high)
}

/// Places food in the cells strictly inside a frame.
#[derive(Clone, Copy, Debug, PartialEq, Eq, Structural, Default)]
pub struct FoodGenerator {
    pub frame: Frame,
}

impl FoodGenerator {
    /// A point drawn at random strictly between the border lines on both
    /// axes. The snake's body is not avoided.
    pub fn generate(&self) -> (r: Point)
        requires
            self.frame.has_interior(),
        ensures
            self.frame.strictly_inside(r),
    {
        let x = random_in(self.frame.min_x + 1, self.frame.max_x);
        let y = random_in(self.frame.min_y + 1, self.frame.max_y);
        Point { x, y }
    }
}

} // verus!
