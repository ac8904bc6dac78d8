use vstd::prelude::*;
use rand::rngs::StdRng;
use std::ops::Range;
use crate::placement::{draw_position, in_ranges};
use crate::unit::position::Position;

verus! {

/// A round obstacle that never moves once the world is laid out.
#[derive(Debug, Clone, Copy)]
pub struct Wall {
    position: Position<i32>,
}

impl View for Wall {
    type V = Position<i32>;

    /// Where the wall stands.
    closed spec fn view(&self) -> Position<i32> {
        self.position
    }
}

impl Default for Wall {
    /// A wall at the origin.
    fn default() -> (w: Self)
        ensures
            w@ == (Position { x: 0i32, y: 0i32 }),
    {
        Wall { position: Position { x: 0, y: 0 } }
    }
}

impl Wall {
    /// A wall at `(x, y)`.
    pub fn new(x: i32, y: i32) -> (w: Self)
        ensures
            w@ == (Position { x, y }),
    {
        Self { position: Position { x, y } }
    }

    /// Where the wall stands.
    pub fn position(&self) -> (p: &Position<i32>)
        ensures
            *p == self@,
    {
        &self.position
    }

    /// Puts the wall at a position drawn from the two ranges.
    pub fn set_rand_position(&mut self, rng: &mut StdRng, x_range: Range<i32>, y_range: Range<i32>)
        requires
            x_range.start < x_range.end,
            y_range.start < y_range.end,
        ensures
            in_ranges(final(self)@, x_range, y_range),
    {
        self.position = draw_position(rng, x_range, y_range);
    }
}

} // verus!
