//! The simulation: one player, its pursuers, the walls and the collectible,
//! moved on tick by tick.

use vstd::prelude::*;
use rand::rngs::StdRng;
use std::time::Duration;
use crate::config::Config;
use crate::geometry::{clamp, is_within, within};
use crate::placement::{draw_position, seeded_generator, system_generator, toss};
use crate::unit::collectible::Collectible;
use crate::unit::enemy::{Enemy, EnemyView};
use crate::unit::player::{health_after, Player, PlayerBuilder, PlayerView};
use crate::unit::position::Position;
use crate::unit::wall::Wall;
use crate::world::{contacts, World};

verus! {

/// The seed of a game that could not get one from the operating system.
pub const FALLBACK_SEED: u64 = 0;

/// What each of `enemies` is made of.
pub open spec fn enemy_views(enemies: Seq<Enemy>) -> Seq<EnemyView> {
    enemies.map_values(|e: Enemy| e@)
}

/// Where each of `walls` stands.
pub open spec fn wall_views(walls: Seq<Wall>) -> Seq<Position<i32>> {
    walls.map_values(|w: Wall| w@)
}

/// The part of a world that is held sound at all times: its numbers, which
/// can make a world; its walls, as many as the numbers say; and its player,
/// who stands within its borders.
struct Arena {
    config: Config,
    walls: Vec<Wall>,
    player: Player,
}

impl Arena {
    #[verifier::type_invariant]
    spec fn sound(self) -> bool {
        &&& self.config.valid()
        &&& self.walls.len() == self.config.wall_count
        &&& 0 <= self.player@.position.x <= self.config.width
        &&& 0 <= self.player@.position.y <= self.config.height
    }

    fn config(&self) -> (c: &Config)
        ensures
            *c == self.config,
            c.valid(),
            self.walls.len() == c.wall_count,
            0 <= self.player@.position.x <= c.width,
            0 <= self.player@.position.y <= c.height,
    {
        proof {
            use_type_invariant(self);
        }
        &self.config
    }
}

/// The simulation. It owns all that is in the world and the source of
/// chance that places things in it.
pub struct Game {
    enemies: Vec<Enemy>,
    arena: Arena,
    collectible: Collectible,
    rng: StdRng,
}

impl View for Game {
    type V = World;

    closed spec fn view(&self) -> World {
        World {
            player: self.arena.player@,
            enemies: enemy_views(self.enemies@),
            walls: wall_views(self.arena.walls@),
            collectible: self.collectible@,
            config: self.arena.config,
        }
    }
}

impl Game {
    /// A game of the classic numbers, not laid out yet, with a source of
    /// chance that is seeded by the operating system.
    pub fn new() -> (g: Self)
        ensures
            g@ == World::fresh(Config::standard()),
            g@.sound(),
    {
        let rng = match system_generator() {
            Some(rng) => rng,
            None => seeded_generator(FALLBACK_SEED),
        };
        Game::assemble(Config::default(), rng)
    }

    /// A game of the numbers of `config`, not laid out yet, whose source of
    /// chance is seeded with `seed`. There is none where `config` cannot
    /// make a world.
    pub fn with_config(config: Config, seed: u64) -> (g: Option<Self>)
        ensures
            g.is_some() == config.valid(),
            g.is_some() ==> g.unwrap()@ == World::fresh(config) && g.unwrap()@.sound(),
    {
        if config.is_valid() {
            Some(Game::assemble(config, seeded_generator(seed)))
        } else {
            None
        }
    }

    /// A game of the numbers of `config` that holds the given player,
    /// enemies, walls and collectible where they stand, and whose source of
    /// chance is seeded with `seed`. There is none where the world would
    /// not be sound: where `config` cannot make a world or asks for another
    /// number of walls, or where the player stands outside the world.
    pub fn from_parts(
        config: Config,
        seed: u64,
        player: Player,
        enemies: Vec<Enemy>,
        walls: Vec<Wall>,
        collectible: Collectible,
    ) -> (g: Option<Self>)
        ensures
            g.is_some() == (World {
                player: player@,
                enemies: enemy_views(enemies@),
                walls: wall_views(walls@),
                collectible: collectible@,
                config,
            }).sound(),
            g.is_some() ==> g.unwrap()@ == (World {
                player: player@,
                enemies: enemy_views(enemies@),
                walls: wall_views(walls@),
                collectible: collectible@,
                config,
            }),
    {
        let at: Position<i32> = *player.position();
        if config.is_valid() && walls.len() == config.wall_count && 0 <= at.x && at.x
            <= config.width && 0 <= at.y && at.y <= config.height {
            Some(
                Game {
                    enemies,
                    arena: Arena { config, walls, player },
                    collectible,
                    rng: seeded_generator(seed),
                },
            )
        } else {
            None
        }
    }

    fn assemble(config: Config, rng: StdRng) -> (g: Self)
        requires
            config.valid(),
        ensures
            g@ == World::fresh(config),
    {
        let mut enemies: Vec<Enemy> = Vec::new();
        while enemies.len() < config.enemy_count
            invariant
                enemies.len() <= config.enemy_count,
                forall|j: int|
                    0 <= j < enemies.len() ==> (#[trigger] enemies@[j])@ == (EnemyView {
                        position: Position { x: 0i32, y: 0i32 },
                        speed: config.enemy_speed,
                    }),
            decreases config.enemy_count - enemies.len(),
        {
            enemies.push(Enemy::with_speed(config.enemy_speed));
        }
        let mut walls: Vec<Wall> = Vec::new();
        while walls.len() < config.wall_count
            invariant
                walls.len() <= config.wall_count,
                forall|j: int|
                    0 <= j < walls.len() ==> (#[trigger] walls@[j])@ == (Position { x: 0i32, y: 0i32 }),
            decreases config.wall_count - walls.len(),
        {
            walls.push(Wall::default());
        }
        let player = PlayerBuilder::new().speed(config.player_speed).health(
            config.player_health,
        ).build();
        let g = Game {
            enemies,
            arena: Arena { config, walls, player },
            collectible: Collectible::default(),
            rng,
        };
        proof {
            let fresh = World::fresh(config);
            assert(g@.enemies =~= fresh.enemies);
            assert(g@.walls =~= fresh.walls);
            assert(g@.player.inventory == fresh.player.inventory);
        }
        g
    }

    /// Lays the world out: the player goes to its start, each enemy to a
    /// place drawn from one of the two regions for enemies, as a coin
    /// falls, each wall to a place drawn from its own region, and the
    /// collectible to a place drawn from its first region.
    #[verifier::loop_isolation(false)]
    pub fn initialize(&mut self)
        ensures
            final(self)@.laid_out_from(old(self)@),
            final(self)@.sound(),
    {
        let config: Config = *self.arena.config();
        let ghost before = self@;
        let from: Position<i32> = *self.arena.player.position();
        self.arena.player.move_by(config.player_start.x - from.x, config.player_start.y - from.y);

        let n = self.enemies.len();
        let mut i: usize = 0;
        while i < n
            invariant
                i <= n,
                n == self.enemies.len(),
                n == before.enemies.len(),
                config.valid(),
                self.arena.config == config,
                self.arena.walls == old(self).arena.walls,
                self.arena.player@ == (PlayerView { position: config.player_start, ..before.player }),
                forall|j: int|
                    0 <= j < n ==> (#[trigger] self.enemies@[j])@.speed == before.enemies[j].speed,
                forall|j: int|
                    0 <= j < i ==> config.enemy_region_heads.contains(
                        (#[trigger] self.enemies@[j])@.position,
                    ) || config.enemy_region_tails.contains(self.enemies@[j]@.position),
            decreases n - i,
        {
            let region = if toss(&mut self.rng) {
                config.enemy_region_heads
            } else {
                config.enemy_region_tails
            };
            let mut enemy: Enemy = self.enemies[i];
            enemy.set_rand_position(&mut self.rng, region.x_range(), region.y_range());
            self.enemies.set(i, enemy);
            i += 1;
        }

        let count = self.arena.walls.len();
        let mut walls: Vec<Wall> = Vec::new();
        let mut shift: i64 = 0;
        let ghost placed = self.enemies@;
        assert(0 * config.wall_spacing == 0) by (nonlinear_arith);
        while walls.len() < count
            invariant
                walls.len() <= count,
                count == config.wall_count,
                config.valid(),
                self.arena.config == config,
                self.enemies@ == placed,
                self.arena.player@ == (PlayerView { position: config.player_start, ..before.player }),
                shift == walls.len() * config.wall_spacing,
                forall|j: int|
                    0 <= j < walls.len() ==> config.wall_region_of(j).contains(
                        (#[trigger] walls@[j])@,
                    ),
            decreases count - walls.len(),
        {
            proof {
                config.lemma_wall_regions_fit(walls.len() as int);
                assert((walls.len() + 1) * config.wall_spacing == walls.len() * config.wall_spacing
                    + config.wall_spacing) by (nonlinear_arith);
            }
            let x_min: i32 = (config.wall_region.x_min as i64 + shift) as i32;
            let x_max: i32 = (config.wall_region.x_max as i64 + shift) as i32;
            let mut wall: Wall = Wall::default();
            wall.set_rand_position(&mut self.rng, x_min..x_max, config.wall_region.y_range());
            walls.push(wall);
            shift = shift + config.wall_spacing as i64;
        }
        self.arena.walls = walls;

        self.collectible.set_rand_position(
            &mut self.rng,
            config.collectible_region.x_range(),
            config.collectible_region.y_range(),
        );
    }

    /// The player. It stands within the borders of the world.
    pub fn player(&self) -> (p: &Player)
        ensures
            p@ == self@.player,
            self@.sound(),
    {
        proof {
            use_type_invariant(&self.arena);
        }
        &self.arena.player
    }

    /// The enemies.
    pub fn enemies(&self) -> (e: &Vec<Enemy>)
        ensures
            enemy_views(e@) == self@.enemies,
    {
        &self.enemies
    }

    /// The enemies, to be changed in place.
    pub fn enemies_mut(&mut self) -> (e: &mut Vec<Enemy>)
        ensures
            enemy_views(e@) == old(self)@.enemies,
            final(self)@ == (World { enemies: enemy_views(final(e)@), ..old(self)@ }),
            old(self)@.sound(),
    {
        proof {
            use_type_invariant(&self.arena);
        }
        &mut self.enemies
    }

    /// The walls.
    pub fn walls(&self) -> (w: &Vec<Wall>)
        ensures
            wall_views(w@) == self@.walls,
            w@.len() == self@.config.wall_count,
            self@.sound(),
    {
        proof {
            use_type_invariant(&self.arena);
        }
        &self.arena.walls
    }

    /// The collectible.
    pub fn collectible(&self) -> (c: &Collectible)
        ensures
            c@ == self@.collectible,
    {
        &self.collectible
    }

    /// The numbers that the world was made with. They can make a world.
    pub fn config(&self) -> (c: &Config)
        ensures
            *c == self@.config,
            c.valid(),
            self@.sound(),
    {
        self.arena.config()
    }

    /// Asks the player to move in the direction `(dx, dy)`. A player that
    /// is alive goes to where the direction, times its speed and the
    /// multiplier, takes it, held to the world, unless a wall stands
    /// nearer to that place than the radius of walls: then it stays where
    /// it is. A dead player stays too.
    pub fn move_player(&mut self, dx: i32, dy: i32)
        ensures
            final(self)@ == old(self)@.moved(dx, dy),
            final(self)@.sound(),
            final(self)@.in_bounds(final(self)@.player.position),
    {
        proof {
            use_type_invariant(&self.arena);
        }
        if !self.arena.player.is_alive() {
            return;
        }
        let config: Config = *self.arena.config();
        let from: Position<i32> = *self.arena.player.position();
        assert(self.arena.player@.speed * config.movement_multiplier <= 0xffff_ffff * 0xffff_ffff)
            by (nonlinear_arith)
            requires
                0 <= self.arena.player@.speed <= 0xffff_ffff,
                0 <= config.movement_multiplier <= 0xffff_ffff,
        ;
        let reach: u64 = (self.arena.player.speed() as u64) * (config.movement_multiplier as u64);
        proof {
            assert(reach == self.arena.player@.speed * config.movement_multiplier);
            assert(-0x8000_0000 * 0xffff_ffff_ffff_ffff <= dx * reach <= 0x8000_0000
                * 0xffff_ffff_ffff_ffff && -0x8000_0000 * 0xffff_ffff_ffff_ffff <= dy * reach
                <= 0x8000_0000 * 0xffff_ffff_ffff_ffff) by (nonlinear_arith)
                requires
                    -0x8000_0000 <= dx <= 0x8000_0000,
                    -0x8000_0000 <= dy <= 0x8000_0000,
                    0 <= reach <= 0xffff_ffff_ffff_ffff,
            ;
        }
        let to = Position {
            x: clamp(from.x as i128 + (dx as i128) * (reach as i128), 0, config.width),
            y: clamp(from.y as i128 + (dy as i128) * (reach as i128), 0, config.height),
        };
        assert(to == self@.candidate(dx, dy));
        let walls = &self.arena.walls;
        let mut blocked = false;
        let mut i: usize = 0;
        while i < walls.len()
            invariant
                i <= walls.len(),
                blocked == (exists|j: int|
                    0 <= j < i && within(to, #[trigger] wall_views(walls@)[j], config.wall_radius)),
            decreases walls.len() - i,
        {
            assert(wall_views(walls@)[i as int] == walls@[i as int]@);
            if is_within(&to, walls[i].position(), config.wall_radius) {
                blocked = true;
            }
            i += 1;
        }
        if !blocked {
            self.arena.player.move_by(to.x - from.x, to.y - from.y);
        }
    }

    /// Whether the player is alive and the collectible in its reach, so
    /// that the next tick picks it up.
    pub fn pickup_due(&self) -> (due: bool)
        ensures
            due == self@.pickup(),
    {
        let config = self.arena.config();
        self.arena.player.is_alive() && is_within(
            self.collectible.position(),
            self.arena.player.position(),
            config.pickup_radius,
        )
    }

    /// Moves the world on by one tick, with `respawn` as the place at which
    /// a collectible that is picked up turns up again.
    pub fn step(&mut self, respawn: Position<i32>)
        ensures
            final(self)@ == old(self)@.ticked(respawn),
            final(self)@.sound(),
    {
        proof {
            use_type_invariant(&self.arena);
        }
        if !self.arena.player.is_alive() {
            return;
        }
        let config: Config = *self.arena.config();
        let target: Position<i32> = *self.arena.player.position();
        let picked = self.pickup_due();
        let ghost before = self@;
        let ghost after = before.enemies_after_pursuit();
        let n = self.enemies.len();
        let mut i: usize = 0;
        assert(after.take(0) =~= Seq::<EnemyView>::empty());
        assert(contacts(after.take(0), target, config.enemy_radius) * config.damage_per_hit == 0)
            by (nonlinear_arith)
            requires
                contacts(after.take(0), target, config.enemy_radius) == 0,
        ;
        while i < n
            invariant
                i <= n,
                n == self.enemies.len(),
                n == before.enemies.len(),
                after == before.enemies_after_pursuit(),
                before.sound(),
                target == before.player.position,
                config == before.config,
                self.arena.config == before.config,
                wall_views(self.arena.walls@) == before.walls,
                self.collectible@ == before.collectible,
                forall|j: int| 0 <= j < i ==> (#[trigger] self.enemies@[j])@ == after[j],
                forall|j: int| i <= j < n ==> (#[trigger] self.enemies@[j])@ == before.enemies[j],
                self.arena.player@ == (PlayerView {
                    health: health_after(
                        before.player.health,
                        contacts(after.take(i as int), target, config.enemy_radius)
                            * config.damage_per_hit,
                    ),
                    ..before.player
                }),
            decreases n - i,
        {
            let mut enemy: Enemy = self.enemies[i];
            enemy.move_to(&target);
            self.enemies.set(i, enemy);
            let ghost so_far = contacts(after.take(i as int), target, config.enemy_radius);
            proof {
                assert(after.take(i + 1).drop_last() =~= after.take(i as int));
                assert(after.take(i + 1).last() == after[i as int]);
                assert(enemy@ == after[i as int]);
                assert((so_far + 1) * config.damage_per_hit == so_far * config.damage_per_hit
                    + config.damage_per_hit) by (nonlinear_arith);
                assert(so_far * config.damage_per_hit >= 0) by (nonlinear_arith)
                    requires
                        so_far >= 0,
                        config.damage_per_hit >= 0,
                ;
            }
            if is_within(enemy.position(), &target, config.enemy_radius) {
                self.arena.player.take_damage(config.damage_per_hit);
            }
            i += 1;
        }
        if picked {
            self.collectible.place(respawn);
        }
        proof {
            assert(after.take(n as int) =~= after);
            assert(self@.enemies =~= after);
        }
    }

    /// Moves the world on by one tick. The length of a tick is fixed, so the
    /// time that went by is not looked at. While the player is alive, each
    /// enemy makes its step toward the player, each enemy that then touches
    /// the player takes its damage, and a collectible in the player's reach
    /// turns up again at a place drawn from the region for that.
    pub fn update(&mut self, _delta_time: Duration)
        ensures
            final(self)@ == old(self)@.ticked(final(self)@.collectible),
            old(self)@.pickup() ==> old(self)@.config.respawn_region.contains(
                final(self)@.collectible,
            ),
            final(self)@.sound(),
    {
        let config: Config = *self.arena.config();
        let respawn = if self.pickup_due() {
            draw_position(
                &mut self.rng,
                config.respawn_region.x_range(),
                config.respawn_region.y_range(),
            )
        } else {
            *self.collectible.position()
        };
        self.step(respawn);
    }
}

} // verus!
