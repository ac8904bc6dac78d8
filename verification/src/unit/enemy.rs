use vstd::prelude::*;
use rand::rngs::StdRng;
use std::ops::Range;
use crate::geometry::{pursue, pursued};
use crate::placement::{draw_position, in_ranges};
use crate::unit::position::Position;

verus! {

/// What an enemy is made of.
pub struct EnemyView {
    pub position: Position<i32>,
    pub speed: u32,
}

/// A pursuer of the player: where it stands, and how far it comes in one
/// tick.
#[derive(Debug, Clone, Copy)]
pub struct Enemy {
    position: Position<i32>,
    speed: u32,
}

impl View for Enemy {
    type V = EnemyView;

    closed spec fn view(&self) -> EnemyView {
        EnemyView { position: self.position, speed: self.speed }
    }
}

impl Default for Enemy {
    /// An enemy at the origin that does not move.
    fn default() -> (e: Self)
        ensures
            e@ == (EnemyView { position: Position { x: 0i32, y: 0i32 }, speed: 0u32 }),
    {
        Enemy { position: Position { x: 0, y: 0 }, speed: 0 }
    }
}

impl Enemy {
    /// An enemy at the origin that comes `speed` nearer in one tick.
    pub fn with_speed(speed: u32) -> (e: Self)
        ensures
            e@ == (EnemyView { position: Position { x: 0i32, y: 0i32 }, speed }),
    {
        Enemy { position: Position { x: 0, y: 0 }, speed }
    }

    /// An enemy at `(x, y)` that comes `speed` nearer in one tick.
    pub fn new(x: i32, y: i32, speed: u32) -> (e: Self)
        ensures
            e@ == (EnemyView { position: Position { x, y }, speed }),
    {
        Enemy { position: Position { x, y }, speed }
    }

    /// Where the enemy stands.
    pub fn position(&self) -> (p: &Position<i32>)
        ensures
            *p == self@.position,
    {
        &self.position
    }

    /// How far the enemy comes in one tick.
    pub fn speed(&self) -> (s: u32)
        ensures
            s == self@.speed,
    {
        self.speed
    }

    /// Puts the enemy at a position drawn from the two ranges.
    pub fn set_rand_position(&mut self, rng: &mut StdRng, x_range: Range<i32>, y_range: Range<i32>)
        requires
            x_range.start < x_range.end,
            y_range.start < y_range.end,
        ensures
            in_ranges(final(self)@.position, x_range, y_range),
            final(self)@.speed == old(self)@.speed,
    {
        self.position = draw_position(rng, x_range, y_range);
    }

    /// One step of pursuit toward `target`. An enemy that stands on its
    /// target, or whose speed is zero, stays; one that has its target in
    /// reach lands on it; any other comes nearer by its speed.
    pub fn move_to(&mut self, target: &Position<i32>)
        ensures
            final(self)@ == (EnemyView {
                position: pursued(old(self)@.position, *target, old(self)@.speed),
                speed: old(self)@.speed,
            }),
    {
        self.position = pursue(&self.position, target, self.speed);
    }
}

} // verus!
