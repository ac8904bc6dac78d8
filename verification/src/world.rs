//! The state of the simulation as a mathematical value, and what a movement
//! of the player and a tick make of it.

use vstd::prelude::*;
use crate::config::Config;
use crate::geometry::{
    clamped, dist2, isqrt, lemma_pursuit_closes_in, lemma_pursuit_never_overshoots, pursued, square,
    within,
};
use crate::unit::enemy::EnemyView;
use crate::unit::inventory::{InventoryView, Item};
use crate::unit::player::{health_after, PlayerView};
use crate::unit::position::Position;
use crate::unit::stats::Stats;

verus! {

/// All that the simulation knows at one moment, but for its source of
/// chance.
pub struct World {
    pub player: PlayerView,
    pub enemies: Seq<EnemyView>,
    pub walls: Seq<Position<i32>>,
    pub collectible: Position<i32>,
    pub config: Config,
}

/// An enemy after one step of pursuit toward `target`.
pub open spec fn chased(enemy: EnemyView, target: Position<i32>) -> EnemyView {
    EnemyView { position: pursued(enemy.position, target, enemy.speed), speed: enemy.speed }
}

/// How many of `enemies` stand nearer to `at` than `radius`.
pub open spec fn contacts(enemies: Seq<EnemyView>, at: Position<i32>, radius: u32) -> nat
    decreases enemies.len(),
{
    if enemies.len() == 0 {
        0
    } else {
        contacts(enemies.drop_last(), at, radius) + if within(enemies.last().position, at, radius) {
            1nat
        } else {
            0nat
        }
    }
}

impl World {
    /// The world as it is made from `config`, before it is laid out: the
    /// player with the speed and health of `config`, the stats of level 1
    /// and an empty inventory with room for 20 items; as many enemies and
    /// walls as `config` says; and all of them at the origin.
    pub open spec fn fresh(config: Config) -> World {
        World {
            player: PlayerView {
                position: Position { x: 0, y: 0 },
                speed: config.player_speed,
                health: config.player_health,
                stats: Stats::at_level(1),
                inventory: InventoryView { items: Seq::<Item>::empty(), capacity: 20 },
            },
            enemies: Seq::new(
                config.enemy_count as nat,
                |i: int| EnemyView { position: Position { x: 0, y: 0 }, speed: config.enemy_speed },
            ),
            walls: Seq::new(config.wall_count as nat, |i: int| Position { x: 0i32, y: 0i32 }),
            collectible: Position { x: 0, y: 0 },
            config,
        }
    }

    /// Whether this world is `before` laid out: the player at its start,
    /// each enemy in one of the two regions for enemies, each wall in its
    /// own region, the collectible in its first region, and all else as it
    /// was.
    pub open spec fn laid_out_from(&self, before: World) -> bool {
        &&& self.config == before.config
        &&& self.player == (PlayerView { position: before.config.player_start, ..before.player })
        &&& self.enemies.len() == before.enemies.len()
        &&& forall|i: int|
            0 <= i < self.enemies.len() ==> {
                &&& (#[trigger] self.enemies[i]).speed == before.enemies[i].speed
                &&& (before.config.enemy_region_heads.contains(self.enemies[i].position)
                    || before.config.enemy_region_tails.contains(self.enemies[i].position))
            }
        &&& self.walls.len() == before.walls.len()
        &&& forall|i: int|
            0 <= i < self.walls.len() ==> before.config.wall_region_of(i).contains(
                #[trigger] self.walls[i],
            )
        &&& before.config.collectible_region.contains(self.collectible)
    }

    /// What holds of the world of every game: its numbers can make a world,
    /// it has as many walls as they say, and its player stands within its
    /// borders.
    pub open spec fn sound(&self) -> bool {
        &&& self.config.valid()
        &&& self.walls.len() == self.config.wall_count
        &&& self.in_bounds(self.player.position)
    }

    /// Whether `p` lies in the world, its borders included.
    pub open spec fn in_bounds(&self, p: Position<i32>) -> bool {
        &&& 0 <= p.x <= self.config.width
        &&& 0 <= p.y <= self.config.height
    }

    /// Where a movement in the direction `(dx, dy)` would take the player:
    /// its position and the direction times its speed times the multiplier,
    /// held to the world.
    pub open spec fn candidate(&self, dx: i32, dy: i32) -> Position<i32> {
        let reach = self.player.speed * self.config.movement_multiplier;
        Position {
            x: clamped(self.player.position.x + dx * reach, 0, self.config.width as int) as i32,
            y: clamped(self.player.position.y + dy * reach, 0, self.config.height as int) as i32,
        }
    }

    /// Whether a wall stands nearer to `at` than the radius of walls.
    pub open spec fn blocked(&self, at: Position<i32>) -> bool {
        exists|i: int|
            0 <= i < self.walls.len() && within(at, #[trigger] self.walls[i], self.config.wall_radius)
    }

    /// The world after the player was asked to move in the direction
    /// `(dx, dy)`: a player that is alive, and whose way no wall blocks,
    /// stands where the movement takes it; nothing else changes, and else
    /// nothing changes at all.
    pub open spec fn moved(self, dx: i32, dy: i32) -> World {
        if self.player.alive() && !self.blocked(self.candidate(dx, dy)) {
            World {
                player: PlayerView { position: self.candidate(dx, dy), ..self.player },
                ..self
            }
        } else {
            self
        }
    }

    /// The enemies after each made one step of pursuit toward the player.
    pub open spec fn enemies_after_pursuit(&self) -> Seq<EnemyView> {
        self.enemies.map_values(|e: EnemyView| chased(e, self.player.position))
    }

    /// How many enemies touch the player once each made its step.
    pub open spec fn hits(&self) -> nat {
        contacts(self.enemies_after_pursuit(), self.player.position, self.config.enemy_radius)
    }

    /// Whether the player is alive and the collectible in its reach.
    pub open spec fn pickup(&self) -> bool {
        self.player.alive() && within(
            self.collectible,
            self.player.position,
            self.config.pickup_radius,
        )
    }

    /// The world one tick later, where `respawn` is the place at which a
    /// collectible that is picked up turns up again. While the player is
    /// alive each enemy makes its step, then each enemy that touches the
    /// player takes its damage, and a collectible in reach moves to
    /// `respawn`. A world whose player is dead stays as it is.
    pub open spec fn ticked(self, respawn: Position<i32>) -> World {
        if self.player.alive() {
            World {
                player: PlayerView {
                    health: health_after(
                        self.player.health,
                        self.hits() * self.config.damage_per_hit,
                    ),
                    ..self.player
                },
                enemies: self.enemies_after_pursuit(),
                collectible: if self.pickup() {
                    respawn
                } else {
                    self.collectible
                },
                ..self
            }
        } else {
            self
        }
    }
}

/// No wall lets the player through: where a wall stands nearer than the
/// radius of walls to the place that a movement would take the player to,
/// the movement changes nothing, so the player stands where it stood.
pub proof fn lemma_wall_rejects_movement(w: World, dx: i32, dy: i32)
    requires
        w.blocked(w.candidate(dx, dy)),
    ensures
        w.moved(dx, dy) == w,
        w.moved(dx, dy).player.position == w.player.position,
{
}

/// A movement is taken whole or not at all: afterwards the player stands
/// where the movement takes it or where it stood, and nothing but its
/// position has changed.
pub proof fn lemma_movement_is_atomic(w: World, dx: i32, dy: i32)
    ensures
        w.moved(dx, dy).player.position == w.candidate(dx, dy) || w.moved(dx, dy) == w,
        w.moved(dx, dy) == (World {
            player: PlayerView { position: w.moved(dx, dy).player.position, ..w.player },
            ..w
        }),
{
}

/// Death is final: in a world whose player is dead neither a movement nor a
/// tick changes anything, so the player stays dead where it is.
pub proof fn lemma_dead_world_is_frozen(w: World, dx: i32, dy: i32, respawn: Position<i32>)
    requires
        !w.player.alive(),
    ensures
        w.moved(dx, dy) == w,
        w.ticked(respawn) == w,
{
}

/// The player never leaves the world: the place that a movement takes it
/// to lies in the world whatever the direction, so a player that moved is
/// in the world, and one that was in the world stays in it. A tick leaves
/// the player where it is.
pub proof fn lemma_player_stays_in_bounds(w: World, dx: i32, dy: i32, respawn: Position<i32>)
    requires
        0 <= w.config.width,
        0 <= w.config.height,
    ensures
        w.in_bounds(w.candidate(dx, dy)),
        w.moved(dx, dy).player.position != w.player.position ==> w.in_bounds(
            w.moved(dx, dy).player.position,
        ),
        w.in_bounds(w.player.position) ==> w.in_bounds(w.moved(dx, dy).player.position),
        w.ticked(respawn).player.position == w.player.position,
{
}

/// Soundness lasts: a world made from numbers that can make a world is
/// sound, and a sound world is sound again after it was laid out, after a
/// movement and after a tick.
pub proof fn lemma_soundness_lasts(
    config: Config,
    w: World,
    laid_out: World,
    dx: i32,
    dy: i32,
    respawn: Position<i32>,
)
    ensures
        config.valid() ==> World::fresh(config).sound(),
        w.sound() && laid_out.laid_out_from(w) ==> laid_out.sound(),
        w.sound() ==> w.moved(dx, dy).sound(),
        w.sound() ==> w.ticked(respawn).sound(),
{
}

/// Some enemy in touch means at least one contact.
pub proof fn lemma_contact_counts(
    enemies: Seq<EnemyView>,
    at: Position<i32>,
    radius: u32,
    i: int,
)
    requires
        0 <= i < enemies.len(),
        within(enemies[i].position, at, radius),
    ensures
        contacts(enemies, at, radius) >= 1,
    decreases enemies.len(),
{
    if i < enemies.len() - 1 {
        lemma_contact_counts(enemies.drop_last(), at, radius, i);
    }
}

/// A tick takes from the player's health the damage of one hit for each
/// enemy that touches the player once the enemies have moved, and stops at
/// zero. So the health never grows, and an enemy that touches the player at
/// the end of the tick has cost it at least the damage of one hit; where it
/// is the only one, exactly that.
pub proof fn lemma_contact_hurts(w: World, respawn: Position<i32>, i: int)
    requires
        w.player.alive(),
        0 <= i < w.enemies.len(),
        within(
            w.ticked(respawn).enemies[i].position,
            w.ticked(respawn).player.position,
            w.config.enemy_radius,
        ),
    ensures
        w.hits() >= 1,
        w.ticked(respawn).player.health == health_after(
            w.player.health,
            w.hits() * w.config.damage_per_hit,
        ),
        w.ticked(respawn).player.health <= health_after(
            w.player.health,
            w.config.damage_per_hit as int,
        ),
        w.hits() == 1 ==> w.ticked(respawn).player.health == health_after(
            w.player.health,
            w.config.damage_per_hit as int,
        ),
        0 <= w.ticked(respawn).player.health <= w.player.health,
{
    lemma_contact_counts(
        w.enemies_after_pursuit(),
        w.player.position,
        w.config.enemy_radius,
        i,
    );
    let hits = w.hits();
    let damage = w.config.damage_per_hit;
    assert(hits * damage >= damage) by (nonlinear_arith)
        requires
            hits >= 1,
            damage >= 0,
    ;
    assert(1 * damage == damage) by (nonlinear_arith);
}

/// A tick never adds to the player's health, and leaves it as it is where
/// no enemy touches the player.
pub proof fn lemma_health_never_grows(w: World, respawn: Position<i32>)
    ensures
        w.ticked(respawn).player.health <= w.player.health,
        w.hits() == 0 ==> w.ticked(respawn).player.health == w.player.health,
{
    let hits = w.hits();
    let damage = w.config.damage_per_hit;
    assert(hits * damage >= 0) by (nonlinear_arith)
        requires
            hits >= 0,
            damage >= 0,
    ;
    assert(hits == 0 ==> hits * damage == 0) by (nonlinear_arith);
}

/// A collectible in the reach of a living player turns up again at the
/// place that was drawn for it; any other stays where it lies.
pub proof fn lemma_pickup_respawns(w: World, respawn: Position<i32>)
    ensures
        w.pickup() ==> w.ticked(respawn).collectible == respawn,
        !w.pickup() ==> w.ticked(respawn).collectible == w.collectible,
{
}

/// In one tick of a world whose player is alive, each enemy makes one step
/// of pursuit: it stays between where it stood and where the player stands,
/// so it never passes the player and never ends farther away; where the
/// player is in its reach it lands on the player; and where the player is
/// out of its reach it comes nearer by its speed, less than three units of
/// rounding apart, the distance before the step taken as a whole number.
pub proof fn lemma_enemy_closes_in(w: World, respawn: Position<i32>, i: int)
    requires
        w.player.alive(),
        0 <= i < w.enemies.len(),
    ensures
        w.ticked(respawn).enemies.len() == w.enemies.len(),
        w.ticked(respawn).enemies[i] == chased(w.enemies[i], w.player.position),
        0 <= dist2(w.player.position, w.ticked(respawn).enemies[i].position) <= dist2(
            w.player.position,
            w.enemies[i].position,
        ),
        dist2(w.player.position, w.enemies[i].position) <= square(w.enemies[i].speed as int)
            ==> w.ticked(respawn).enemies[i].position == w.player.position,
        dist2(w.player.position, w.enemies[i].position) > square(w.enemies[i].speed as int) ==> {
            let len = isqrt(dist2(w.player.position, w.enemies[i].position));
            let after = dist2(w.player.position, w.ticked(respawn).enemies[i].position);
            square(len - w.enemies[i].speed) <= after < square(len - w.enemies[i].speed + 3)
        },
{
    let e = w.enemies[i];
    lemma_pursuit_never_overshoots(e.position, w.player.position, e.speed);
    if dist2(w.player.position, e.position) > square(e.speed as int) {
        lemma_pursuit_closes_in(e.position, w.player.position, e.speed);
    }
}

} // verus!
