//! What the things of the world have in common.

use vstd::prelude::*;
use rand::rngs::StdRng;
use std::ops::Range;
use crate::placement::in_ranges;
use crate::unit::collectible::Collectible;
use crate::unit::enemy::Enemy;
use crate::unit::player::Player;
use crate::unit::wall::Wall;

verus! {

/// A thing that stands somewhere and can be put at a place drawn by chance.
pub trait Position {
    /// Where the thing stands.
    spec fn place(&self) -> crate::unit::position::Position<i32>;

    /// Where the thing stands.
    fn position(&self) -> (p: &crate::unit::position::Position<i32>)
        ensures
            *p == self.place(),
    ;

    /// Puts the thing at a position drawn from the two ranges. An empty
    /// range is a fault of the caller.
    fn set_rand_position(&mut self, rng: &mut StdRng, x_range: Range<i32>, y_range: Range<i32>)
        requires
            x_range.start < x_range.end,
            y_range.start < y_range.end,
        ensures
            in_ranges(final(self).place(), x_range, y_range),
    ;
}

impl Position for Player {
    open spec fn place(&self) -> crate::unit::position::Position<i32> {
        self@.position
    }

    fn position(&self) -> (p: &crate::unit::position::Position<i32>) {
        Player::position(self)
    }

    fn set_rand_position(&mut self, rng: &mut StdRng, x_range: Range<i32>, y_range: Range<i32>) {
        Player::set_rand_position(self, rng, x_range, y_range)
    }
}

impl Position for Enemy {
    open spec fn place(&self) -> crate::unit::position::Position<i32> {
        self@.position
    }

    fn position(&self) -> (p: &crate::unit::position::Position<i32>) {
        Enemy::position(self)
    }

    fn set_rand_position(&mut self, rng: &mut StdRng, x_range: Range<i32>, y_range: Range<i32>) {
        Enemy::set_rand_position(self, rng, x_range, y_range)
    }
}

impl Position for Wall {
    open spec fn place(&self) -> crate::unit::position::Position<i32> {
        self@
    }

    fn position(&self) -> (p: &crate::unit::position::Position<i32>) {
        Wall::position(self)
    }

    fn set_rand_position(&mut self, rng: &mut StdRng, x_range: Range<i32>, y_range: Range<i32>) {
        Wall::set_rand_position(self, rng, x_range, y_range)
    }
}

impl Position for Collectible {
    open spec fn place(&self) -> crate::unit::position::Position<i32> {
        self@
    }

    fn position(&self) -> (p: &crate::unit::position::Position<i32>) {
        Collectible::position(self)
    }

    fn set_rand_position(&mut self, rng: &mut StdRng, x_range: Range<i32>, y_range: Range<i32>) {
        Collectible::set_rand_position(self, rng, x_range, y_range)
    }
}

} // verus!
