//! The numbers that a world is set up with.

use vstd::prelude::*;
use std::ops::Range;
use crate::unit::position::Position;

verus! {

/// A rectangle of the plane, each side given as a half-open range: its lower
/// bound belongs to it, its upper bound does not.
#[derive(Debug, Clone, Copy, PartialEq, Eq, Structural)]
pub struct Region {
    pub x_min: i32,
    pub x_max: i32,
    pub y_min: i32,
    pub y_max: i32,
}

impl Region {
    /// A region holds at least one point.
    pub open spec fn valid(&self) -> bool {
        self.x_min < self.x_max && self.y_min < self.y_max
    }

    /// Whether `p` lies in the region.
    pub open spec fn contains(&self, p: Position<i32>) -> bool {
        &&& self.x_min <= p.x < self.x_max
        &&& self.y_min <= p.y < self.y_max
    }

    /// The region moved by `dx` along the x axis.
    pub open spec fn shifted(&self, dx: int) -> Region {
        Region { x_min: (self.x_min + dx) as i32, x_max: (self.x_max + dx) as i32, ..*self }
    }

    /// The region between the given bounds.
    pub fn new(x_min: i32, x_max: i32, y_min: i32, y_max: i32) -> (r: Self)
        ensures
            r == (Region { x_min, x_max, y_min, y_max }),
    {
        Region { x_min, x_max, y_min, y_max }
    }

    /// Whether the region holds at least one point.
    pub fn is_valid(&self) -> (ok: bool)
        ensures
            ok == self.valid(),
    {
        self.x_min < self.x_max && self.y_min < self.y_max
    }

    /// The range of the region along the x axis.
    pub fn x_range(&self) -> (r: Range<i32>)
        ensures
            r.start == self.x_min,
            r.end == self.x_max,
    {
        self.x_min..self.x_max
    }

    /// The range of the region along the y axis.
    pub fn y_range(&self) -> (r: Range<i32>)
        ensures
            r.start == self.y_min,
            r.end == self.y_max,
    {
        self.y_min..self.y_max
    }
}

/// What a world is set up with. All lengths are in one unit, which the host
/// chooses; a direction of movement is a pair of whole numbers, and the
/// player moves by the direction times its speed times the multiplier.
#[derive(Debug, Clone, Copy, PartialEq, Eq, Structural)]
pub struct Config {
    /// The world reaches from 0 to `width` along the x axis, both included.
    pub width: i32,
    /// The world reaches from 0 to `height` along the y axis, both included.
    pub height: i32,
    /// Where the player stands when the world has been laid out.
    pub player_start: Position<i32>,
    /// The speed of the player that the world is made with.
    pub player_speed: u32,
    /// The health of the player that the world is made with.
    pub player_health: u8,
    /// What a movement of the player is multiplied with.
    pub movement_multiplier: u32,
    /// How many enemies the world is made with.
    pub enemy_count: usize,
    /// The speed of the enemies that the world is made with.
    pub enemy_speed: u32,
    /// Where an enemy is put on one side of a coin.
    pub enemy_region_heads: Region,
    /// Where an enemy is put on the other side of the coin.
    pub enemy_region_tails: Region,
    /// How many walls the world has.
    pub wall_count: usize,
    /// Where the first wall is put.
    pub wall_region: Region,
    /// How far to the right of a wall's region the region of the next lies.
    pub wall_spacing: i32,
    /// Where the collectible is put when the world is laid out.
    pub collectible_region: Region,
    /// Where the collectible turns up again once it was picked up.
    pub respawn_region: Region,
    /// An enemy nearer to the player than this hurts it.
    pub enemy_radius: u32,
    /// The player cannot go where a wall is nearer than this.
    pub wall_radius: u32,
    /// A collectible nearer to the player than this is picked up.
    pub pickup_radius: u32,
    /// The health that one enemy in touch takes in one tick.
    pub damage_per_hit: u8,
}

impl Config {
    /// The numbers of the classic game: a world of 800 by 600 with two
    /// enemies, three walls and the player in the middle.
    pub open spec fn standard() -> Config {
        Config {
            width: 800,
            height: 600,
            player_start: Position { x: 400, y: 300 },
            player_speed: 1,
            player_health: 100,
            movement_multiplier: 5,
            enemy_count: 2,
            enemy_speed: 2,
            enemy_region_heads: Region { x_min: 5, x_max: 10, y_min: 5, y_max: 100 },
            enemy_region_tails: Region { x_min: 750, x_max: 800, y_min: 0, y_max: 600 },
            wall_count: 3,
            wall_region: Region { x_min: 150, x_max: 250, y_min: 250, y_max: 350 },
            wall_spacing: 200,
            collectible_region: Region { x_min: 600, x_max: 750, y_min: 100, y_max: 500 },
            respawn_region: Region { x_min: 0, x_max: 800, y_min: 0, y_max: 600 },
            enemy_radius: 30,
            wall_radius: 35,
            pickup_radius: 30,
            damage_per_hit: 10,
        }
    }

    /// Where the wall of index `i` is put.
    pub open spec fn wall_region_of(&self, i: int) -> Region {
        self.wall_region.shifted(i * self.wall_spacing)
    }

    /// What a world can be made with: the world is not empty and holds the
    /// player's start, each region holds a point, and the regions of all the
    /// walls lie within the range of a coordinate.
    pub open spec fn valid(&self) -> bool {
        &&& 0 <= self.player_start.x <= self.width
        &&& 0 <= self.player_start.y <= self.height
        &&& self.enemy_region_heads.valid()
        &&& self.enemy_region_tails.valid()
        &&& self.wall_region.valid()
        &&& self.collectible_region.valid()
        &&& self.respawn_region.valid()
        &&& 0 <= self.wall_spacing
        &&& self.wall_region.x_max + self.wall_count * self.wall_spacing <= i32::MAX
    }

    /// Whether a world can be made with these numbers.
    pub fn is_valid(&self) -> (ok: bool)
        ensures
            ok == self.valid(),
    {
        if self.wall_spacing < 0 {
            return false;
        }
        assert(0 <= self.wall_count * self.wall_spacing <= 0xffff_ffff_ffff_ffff * 0x7fff_ffff)
            by (nonlinear_arith)
            requires
                0 <= self.wall_count <= 0xffff_ffff_ffff_ffff,
                0 <= self.wall_spacing <= 0x7fff_ffff,
        ;
        let stretch: i128 = (self.wall_count as i128) * (self.wall_spacing as i128);
        0 <= self.player_start.x && self.player_start.x <= self.width && 0 <= self.player_start.y
            && self.player_start.y <= self.height && self.enemy_region_heads.is_valid()
            && self.enemy_region_tails.is_valid() && self.wall_region.is_valid()
            && self.collectible_region.is_valid() && self.respawn_region.is_valid()
            && self.wall_region.x_max as i128 + stretch <= i32::MAX as i128
    }

    /// In a world that can be made, the region of each wall fits the range
    /// of a coordinate and holds a point.
    pub proof fn lemma_wall_regions_fit(&self, i: int)
        requires
            self.valid(),
            0 <= i < self.wall_count,
        ensures
            self.wall_region_of(i).valid(),
            self.wall_region_of(i).x_min == self.wall_region.x_min + i * self.wall_spacing,
            self.wall_region_of(i).x_max == self.wall_region.x_max + i * self.wall_spacing,
            0 <= i * self.wall_spacing,
    {
        assert(0 <= i * self.wall_spacing <= self.wall_count * self.wall_spacing)
            by (nonlinear_arith)
            requires
                0 <= i < self.wall_count,
                0 <= self.wall_spacing,
        ;
    }
}

impl Default for Config {
    /// The numbers of the classic game.
    fn default() -> (c: Self)
        ensures
            c == Config::standard(),
            c.valid(),
    {
        Config {
            width: 800,
            height: 600,
            player_start: Position { x: 400, y: 300 },
            player_speed: 1,
            player_health: 100,
            movement_multiplier: 5,
            enemy_count: 2,
            enemy_speed: 2,
            enemy_region_heads: Region { x_min: 5, x_max: 10, y_min: 5, y_max: 100 },
            enemy_region_tails: Region { x_min: 750, x_max: 800, y_min: 0, y_max: 600 },
            wall_count: 3,
            wall_region: Region { x_min: 150, x_max: 250, y_min: 250, y_max: 350 },
            wall_spacing: 200,
            collectible_region: Region { x_min: 600, x_max: 750, y_min: 100, y_max: 500 },
            respawn_region: Region { x_min: 0, x_max: 800, y_min: 0, y_max: 600 },
            enemy_radius: 30,
            wall_radius: 35,
            pickup_radius: 30,
            damage_per_hit: 10,
        }
    }
}

} // verus!
