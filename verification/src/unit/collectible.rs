use vstd::prelude::*;
use rand::rngs::StdRng;
use std::ops::Range;
use crate::placement::{draw_position, in_ranges};
use crate::unit::position::Position;

verus! {

/// The thing to pick up. It is never used up: once picked up it turns up
/// again somewhere else.
#[derive(Debug, Clone, Copy)]
pub struct Collectible {
    position: Position<i32>,
}

impl View for Collectible {
    type V = Position<i32>;

    /// Where the collectible lies.
    closed spec fn view(&self) -> Position<i32> {
        self.position
    }
}

impl Default for Collectible {
    /// A collectible at the origin.
    fn default() -> (c: Self)
        ensures
            c@ == (Position { x: 0i32, y: 0i32 }),
    {
        Collectible { position: Position { x: 0, y: 0 } }
    }
}

impl Collectible {
    /// A collectible at `(x, y)`.
    pub fn new(x: i32, y: i32) -> (c: Self)
        ensures
            c@ == (Position { x, y }),
    {
        Self { position: Position { x, y } }
    }

    /// Where the collectible lies.
    pub fn position(&self) -> (p: &Position<i32>)
        ensures
            *p == self@,
    {
        &self.position
    }

    /// Puts the collectible at `position`.
    pub fn place(&mut self, position: Position<i32>)
        ensures
            final(self)@ == position,
    {
        self.position = position;
    }

    /// Puts the collectible at a position drawn from the two ranges.
    pub fn set_rand_position(&mut self, rng: &mut StdRng, x_range: Range<i32>, y_range: Range<i32>)
        requires
            x_range.start < x_range.end,
            y_range.start < y_range.end,
        ensures
            in_ranges(final(self)@, x_range, y_range),
    {
        self.position = draw_position(rng, x_range, y_range);
    }
}

} // verus!
