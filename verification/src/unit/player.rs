use vstd::prelude::*;
use rand::rngs::StdRng;
use std::ops::Range;
use crate::placement::{draw_position, in_ranges};
use crate::unit::inventory::{Inventory, InventoryView};
use crate::unit::position::Position;
use crate::unit::stats::Stats;

verus! {

/// What a player is made of.
pub struct PlayerView {
    pub position: Position<i32>,
    pub speed: u32,
    pub health: u8,
    pub stats: Stats,
    pub inventory: InventoryView,
}

impl PlayerView {
    /// A player is alive as long as it has health left.
    pub open spec fn alive(&self) -> bool {
        self.health > 0
    }
}

/// The health that is left of `health` after `damage`: never below zero.
pub open spec fn health_after(health: u8, damage: int) -> u8 {
    if damage >= health {
        0
    } else {
        (health - damage) as u8
    }
}

/// The character that the host steers.
pub struct Player {
    position: Position<i32>,
    speed: u32,
    health: u8,
    stats: Stats,
    inventory: Inventory,
}

impl View for Player {
    type V = PlayerView;

    closed spec fn view(&self) -> PlayerView {
        PlayerView {
            position: self.position,
            speed: self.speed,
            health: self.health,
            stats: self.stats,
            inventory: self.inventory@,
        }
    }
}

impl Default for Player {
    /// A player at the origin with nothing: no speed, no health, stats of
    /// zero and an inventory without room.
    fn default() -> (p: Self)
        ensures
            p@.position == (Position { x: 0i32, y: 0i32 }),
            p@.speed == 0,
            p@.health == 0,
            p@.stats == Stats::zero(),
            p@.inventory.items == Seq::<crate::unit::inventory::Item>::empty(),
            p@.inventory.capacity == 0,
    {
        Player {
            position: Position { x: 0, y: 0 },
            speed: 0,
            health: 0,
            stats: Stats::default(),
            inventory: Inventory::default(),
        }
    }
}

impl Player {
    /// Whether the player has health left.
    pub fn is_alive(&self) -> (alive: bool)
        ensures
            alive == self@.alive(),
    {
        self.health > 0
    }

    /// Takes `damage` off the health, which stops at zero.
    pub fn take_damage(&mut self, damage: u8)
        ensures
            final(self)@ == (PlayerView {
                health: health_after(old(self)@.health, damage as int),
                ..old(self)@
            }),
        no_unwind
    {
        if damage >= self.health {
            self.health = 0;
        } else {
            self.health -= damage;
        }
    }

    /// The health that is left.
    pub fn health(&self) -> (h: u8)
        ensures
            h == self@.health,
    {
        self.health
    }

    /// How far the player comes in one tick for a direction of length one,
    /// before the world's multiplier.
    pub fn speed(&self) -> (s: u32)
        ensures
            s == self@.speed,
    {
        self.speed
    }

    /// Where the player stands.
    pub fn position(&self) -> (p: &Position<i32>)
        ensures
            *p == self@.position,
    {
        &self.position
    }

    /// The player's position, to be changed in place.
    pub fn position_mut(&mut self) -> (p: &mut Position<i32>)
        ensures
            *p == old(self)@.position,
            final(self)@ == (PlayerView { position: *final(p), ..old(self)@ }),
    {
        &mut self.position
    }

    /// Moves the player by `(dx, dy)`. Each new coordinate has to fit.
    pub fn move_by(&mut self, dx: i32, dy: i32)
        requires
            i32::MIN <= old(self)@.position.x + dx <= i32::MAX,
            i32::MIN <= old(self)@.position.y + dy <= i32::MAX,
        ensures
            final(self)@ == (PlayerView {
                position: Position {
                    x: (old(self)@.position.x + dx) as i32,
                    y: (old(self)@.position.y + dy) as i32,
                },
                ..old(self)@
            }),
        no_unwind
    {
        self.position.x += dx;
        self.position.y += dy;
    }

    /// Puts the player at a position drawn from the two ranges.
    pub fn set_rand_position(&mut self, rng: &mut StdRng, x_range: Range<i32>, y_range: Range<i32>)
        requires
            x_range.start < x_range.end,
            y_range.start < y_range.end,
        ensures
            in_ranges(final(self)@.position, x_range, y_range),
            final(self)@ == (PlayerView { position: final(self)@.position, ..old(self)@ }),
    {
        self.position = draw_position(rng, x_range, y_range);
    }

    /// The player's progression.
    pub fn stats(&self) -> (s: &Stats)
        ensures
            *s == self@.stats,
    {
        &self.stats
    }

    /// The player's progression, to be changed in place.
    pub fn stats_mut(&mut self) -> (s: &mut Stats)
        ensures
            *s == old(self)@.stats,
            final(self)@ == (PlayerView { stats: *final(s), ..old(self)@ }),
    {
        &mut self.stats
    }

    /// What the player carries.
    pub fn inventory(&self) -> (inv: &Inventory)
        ensures
            inv@ == self@.inventory,
    {
        &self.inventory
    }

    /// What the player carries, to be changed in place.
    pub fn inventory_mut(&mut self) -> (inv: &mut Inventory)
        ensures
            inv@ == old(self)@.inventory,
            final(self)@ == (PlayerView { inventory: final(inv)@, ..old(self)@ }),
    {
        &mut self.inventory
    }
}

/// Sets up a player step by step.
pub struct PlayerBuilder {
    position: Position<i32>,
    speed: u32,
    health: u8,
    stats: Stats,
    inventory: Inventory,
}

impl View for PlayerBuilder {
    type V = PlayerView;

    /// The player that `build` makes.
    closed spec fn view(&self) -> PlayerView {
        PlayerView {
            position: self.position,
            speed: self.speed,
            health: self.health,
            stats: self.stats,
            inventory: self.inventory@,
        }
    }
}

impl PlayerBuilder {
    /// A player at the origin with speed 1, health 100, the stats of level 1
    /// and an empty inventory with room for 20 items.
    pub fn new() -> (b: Self)
        ensures
            b@.position == (Position { x: 0i32, y: 0i32 }),
            b@.speed == 1,
            b@.health == 100,
            b@.stats == Stats::at_level(1),
            b@.inventory.items == Seq::<crate::unit::inventory::Item>::empty(),
            b@.inventory.capacity == 20,
    {
        Self {
            position: Position { x: 0, y: 0 },
            speed: 1,
            health: 100,
            stats: Stats::new(1),
            inventory: Inventory::new(20),
        }
    }

    /// The same player at `(x, y)`.
    pub fn position(self, x: i32, y: i32) -> (b: Self)
        ensures
            b@ == (PlayerView { position: Position { x, y }, ..self@ }),
    {
        let mut b = self;
        b.position = Position { x, y };
        b
    }

    /// The same player with `speed`.
    pub fn speed(self, speed: u32) -> (b: Self)
        ensures
            b@ == (PlayerView { speed, ..self@ }),
    {
        let mut b = self;
        b.speed = speed;
        b
    }

    /// The same player with `health`.
    pub fn health(self, health: u8) -> (b: Self)
        ensures
            b@ == (PlayerView { health, ..self@ }),
    {
        let mut b = self;
        b.health = health;
        b
    }

    /// The player that was set up.
    pub fn build(self) -> (p: Player)
        ensures
            p@ == self@,
    {
        Player {
            position: self.position,
            speed: self.speed,
            health: self.health,
            stats: self.stats,
            inventory: self.inventory,
        }
    }
}

} // verus!
