use space_cake::config::{Config, Region};
use space_cake::game::Game;
use space_cake::unit::{Collectible, Enemy, PlayerBuilder, Position, Wall};
use std::time::Duration;

const TICK: Duration = Duration::from_millis(16);

/// The classic numbers without walls, with one place for everything.
fn open_field() -> Config {
    Config { wall_count: 0, enemy_count: 0, ..Config::default() }
}

fn game(
    config: Config,
    px: i32,
    py: i32,
    health: u8,
    enemies: Vec<Enemy>,
    walls: Vec<Wall>,
    collectible: Collectible,
) -> Game {
    let player = PlayerBuilder::new()
        .speed(config.player_speed)
        .health(health)
        .position(px, py)
        .build();
    match Game::from_parts(config, 1, player, enemies, walls, collectible) {
        Some(g) => g,
        None => panic!("the parts do not make a game"),
    }
}

fn enemy_positions(g: &Game) -> Vec<Position<i32>> {
    g.enemies().iter().map(|e| *e.position()).collect()
}

#[test]
fn classic_numbers() {
    let c = Config::default();
    assert_eq!((c.width, c.height), (800, 600));
    assert_eq!(c.player_start, Position::new(400, 300));
    assert_eq!((c.player_speed, c.player_health, c.movement_multiplier), (1, 100, 5));
    assert_eq!((c.enemy_count, c.wall_count), (2, 3));
    assert_eq!((c.enemy_radius, c.wall_radius, c.pickup_radius), (30, 35, 30));
    assert_eq!(c.damage_per_hit, 10);
    assert_eq!(c.enemy_region_heads, Region::new(5, 10, 5, 100));
    assert_eq!(c.enemy_region_tails, Region::new(750, 800, 0, 600));
    assert_eq!(c.wall_region, Region::new(150, 250, 250, 350));
    assert_eq!(c.wall_spacing, 200);
    assert_eq!(c.collectible_region, Region::new(600, 750, 100, 500));
    assert_eq!(c.respawn_region, Region::new(0, 800, 0, 600));
    assert!(c.is_valid());
}

#[test]
fn regions_need_a_point() {
    assert!(Region::new(0, 1, 0, 1).is_valid());
    assert!(!Region::new(0, 0, 0, 1).is_valid());
    assert!(!Region::new(0, 1, 5, 5).is_valid());
    assert!(!Region::new(3, 2, 0, 1).is_valid());
    let r = Region::new(-5, 7, 10, 20);
    assert_eq!(r.x_range(), -5..7);
    assert_eq!(r.y_range(), 10..20);
}

#[test]
fn numbers_that_cannot_make_a_world() {
    let good = Config::default();
    assert!(!Config { width: -1, ..good }.is_valid());
    assert!(!Config { width: 399, ..good }.is_valid());
    assert!(!Config { height: 299, ..good }.is_valid());
    assert!(!Config { player_start: Position::new(-1, 0), ..good }.is_valid());
    assert!(!Config { player_start: Position::new(0, -1), ..good }.is_valid());
    assert!(!Config { respawn_region: Region::new(800, 0, 0, 600), ..good }.is_valid());
    assert!(!Config { collectible_region: Region::new(0, 10, 5, 5), ..good }.is_valid());
    assert!(!Config { enemy_region_heads: Region::new(1, 1, 0, 1), ..good }.is_valid());
    assert!(!Config { enemy_region_tails: Region::new(1, 2, 1, 0), ..good }.is_valid());
    assert!(!Config { wall_region: Region::new(250, 150, 250, 350), ..good }.is_valid());
    assert!(!Config { wall_spacing: -1, ..good }.is_valid());
    assert!(!Config { wall_spacing: i32::MAX, ..good }.is_valid());
    assert!(!Config { wall_count: usize::MAX, ..good }.is_valid());
    // The last wall's region ends at 250 + 3 * 715827799 == 2147483647.
    assert!(Config { wall_spacing: 715_827_799, ..good }.is_valid());
    assert!(!Config { wall_spacing: 715_827_800, ..good }.is_valid());
    assert!(Config { wall_count: usize::MAX, wall_spacing: 0, ..good }.is_valid());
    assert!(Config { width: 400, height: 300, ..good }.is_valid());
}

#[test]
fn no_game_from_bad_numbers() {
    let bad = Config { respawn_region: Region::new(5, 5, 0, 600), ..Config::default() };
    assert!(Game::with_config(bad, 1).is_none());
    let player = PlayerBuilder::new().build();
    assert!(Game::from_parts(bad, 1, player, vec![], vec![], Collectible::default()).is_none());
}

#[test]
fn no_game_with_another_number_of_walls() {
    let config = Config { wall_count: 2, ..Config::default() };
    let player = PlayerBuilder::new().build();
    let walls = vec![Wall::new(1, 1)];
    assert!(Game::from_parts(config, 1, player, vec![], walls, Collectible::default()).is_none());
}

#[test]
fn new_game_has_the_classic_roster() {
    let g = Game::new();
    assert_eq!(*g.config(), Config::default());
    assert_eq!(g.enemies().len(), 2);
    assert_eq!(g.walls().len(), 3);
    assert_eq!(enemy_positions(&g), vec![Position::new(0, 0); 2]);
    assert!(g.enemies().iter().all(|e| e.speed() == 2));
    assert!(g.walls().iter().all(|w| *w.position() == Position::new(0, 0)));
    assert_eq!(*g.collectible().position(), Position::new(0, 0));
    assert_eq!(*g.player().position(), Position::new(0, 0));
    assert_eq!(g.player().health(), 100);
    assert_eq!(g.player().speed(), 1);
    assert_eq!(g.player().stats().level, 1);
    assert_eq!(g.player().inventory().capacity(), 20);
}

#[test]
fn game_of_other_numbers() {
    let config = Config {
        enemy_count: 5,
        enemy_speed: 9,
        wall_count: 0,
        player_speed: 3,
        player_health: 7,
        ..Config::default()
    };
    let g = Game::with_config(config, 42).unwrap();
    assert_eq!(*g.config(), config);
    assert_eq!(g.enemies().len(), 5);
    assert!(g.enemies().iter().all(|e| e.speed() == 9));
    assert_eq!(g.walls().len(), 0);
    assert_eq!(g.player().speed(), 3);
    assert_eq!(g.player().health(), 7);
}

#[test]
fn initialize_lays_the_world_out() {
    for seed in 0..40 {
        let mut g = Game::with_config(Config::default(), seed).unwrap();
        g.initialize();
        assert_eq!(*g.player().position(), Position::new(400, 300));
        assert_eq!(g.player().health(), 100);
        assert_eq!(g.enemies().len(), 2);
        for e in g.enemies() {
            let p = *e.position();
            let heads = 5 <= p.x && p.x < 10 && 5 <= p.y && p.y < 100;
            let tails = 750 <= p.x && p.x < 800 && 0 <= p.y && p.y < 600;
            assert!(heads || tails);
            assert_eq!(e.speed(), 2);
        }
        assert_eq!(g.walls().len(), 3);
        for (i, w) in g.walls().iter().enumerate() {
            let p = *w.position();
            let left = 150 + 200 * i as i32;
            assert!(left <= p.x && p.x < left + 100);
            assert!(250 <= p.y && p.y < 350);
        }
        let c = *g.collectible().position();
        assert!(600 <= c.x && c.x < 750);
        assert!(100 <= c.y && c.y < 500);
    }
}

#[test]
fn initialize_uses_both_regions_for_enemies() {
    let config = Config { enemy_count: 64, ..Config::default() };
    let mut g = Game::with_config(config, 7).unwrap();
    g.initialize();
    let left = g.enemies().iter().filter(|e| e.position().x < 10).count();
    assert!(left > 0);
    assert!(left < 64);
}

#[test]
fn the_same_seed_lays_out_the_same_world() {
    let mut a = Game::with_config(Config::default(), 2024).unwrap();
    let mut b = Game::with_config(Config::default(), 2024).unwrap();
    a.initialize();
    b.initialize();
    assert_eq!(enemy_positions(&a), enemy_positions(&b));
    let walls_a: Vec<Position<i32>> = a.walls().iter().map(|w| *w.position()).collect();
    let walls_b: Vec<Position<i32>> = b.walls().iter().map(|w| *w.position()).collect();
    assert_eq!(walls_a, walls_b);
    assert_eq!(*a.collectible().position(), *b.collectible().position());
}

#[test]
fn enemy_in_reach_lands_on_the_player_and_hurts_it() {
    let mut g = game(
        open_field(),
        400,
        300,
        100,
        vec![Enemy::new(405, 300, 50)],
        vec![],
        Collectible::new(0, 0),
    );
    g.update(TICK);
    assert_eq!(enemy_positions(&g), vec![Position::new(400, 300)]);
    assert_eq!(g.player().health(), 90);
    assert_eq!(*g.player().position(), Position::new(400, 300));
}

#[test]
fn wall_in_the_way_rejects_the_movement() {
    let config = Config { wall_count: 1, ..open_field() };
    let mut g = game(
        config,
        165,
        300,
        100,
        vec![],
        vec![Wall::new(200, 300)],
        Collectible::new(0, 0),
    );
    g.move_player(1, 0);
    assert_eq!(*g.player().position(), Position::new(165, 300));
    assert_eq!(g.player().health(), 100);
}

#[test]
fn movement_is_rejected_whole() {
    // Only the x component leads into the wall; the y component is not
    // taken either.
    let config = Config { wall_count: 1, ..open_field() };
    let mut g = game(
        config,
        165,
        300,
        100,
        vec![],
        vec![Wall::new(200, 300)],
        Collectible::new(0, 0),
    );
    g.move_player(1, 1);
    assert_eq!(*g.player().position(), Position::new(165, 300));
    g.move_player(0, 1);
    assert_eq!(*g.player().position(), Position::new(165, 305));
    g.move_player(-1, 0);
    assert_eq!(*g.player().position(), Position::new(160, 305));
}

#[test]
fn wall_at_exactly_the_radius_lets_the_player_pass() {
    let config = Config { wall_count: 1, ..open_field() };
    let mut g = game(
        config,
        160,
        300,
        100,
        vec![],
        vec![Wall::new(200, 300)],
        Collectible::new(0, 0),
    );
    // The candidate (165, 300) is 35 away from the wall: not nearer than 35.
    g.move_player(1, 0);
    assert_eq!(*g.player().position(), Position::new(165, 300));
    // The candidate (170, 300) is 30 away.
    g.move_player(1, 0);
    assert_eq!(*g.player().position(), Position::new(165, 300));
}

#[test]
fn any_wall_blocks() {
    let config = Config { wall_count: 3, ..open_field() };
    let walls = vec![Wall::new(700, 500), Wall::new(50, 50), Wall::new(420, 300)];
    let mut g = game(config, 385, 300, 100, vec![], walls, Collectible::new(0, 0));
    // The candidate (390, 300) is 30 away from the last wall.
    g.move_player(1, 0);
    assert_eq!(*g.player().position(), Position::new(385, 300));
    g.move_player(-1, 0);
    assert_eq!(*g.player().position(), Position::new(380, 300));
}

#[test]
fn player_moves_by_direction_times_speed_times_multiplier() {
    let config = Config { player_speed: 3, movement_multiplier: 4, ..open_field() };
    let mut g = game(config, 400, 300, 100, vec![], vec![], Collectible::new(0, 0));
    g.move_player(2, -1);
    assert_eq!(*g.player().position(), Position::new(424, 288));
    g.move_player(0, 0);
    assert_eq!(*g.player().position(), Position::new(424, 288));
}

#[test]
fn player_is_held_to_the_world() {
    let mut g = game(open_field(), 798, 2, 100, vec![], vec![], Collectible::new(0, 0));
    g.move_player(1, -1);
    assert_eq!(*g.player().position(), Position::new(800, 0));
    g.move_player(1, -1);
    assert_eq!(*g.player().position(), Position::new(800, 0));
    g.move_player(i32::MAX, i32::MAX);
    assert_eq!(*g.player().position(), Position::new(800, 600));
    g.move_player(i32::MIN, i32::MIN);
    assert_eq!(*g.player().position(), Position::new(0, 0));
    g.move_player(-1, 0);
    assert_eq!(*g.player().position(), Position::new(0, 0));
}

#[test]
fn player_is_held_to_the_world_with_the_largest_speed() {
    let config = Config { player_speed: u32::MAX, movement_multiplier: u32::MAX, ..open_field() };
    let mut g = game(config, 400, 300, 100, vec![], vec![], Collectible::new(0, 0));
    g.move_player(i32::MAX, i32::MIN);
    assert_eq!(*g.player().position(), Position::new(800, 0));
    g.move_player(i32::MIN, i32::MAX);
    assert_eq!(*g.player().position(), Position::new(0, 600));
}

#[test]
fn no_game_with_the_player_outside_the_world() {
    for (x, y) in [(-1, 300), (801, 300), (400, -1), (400, 601), (-50, 900)] {
        let player = PlayerBuilder::new().position(x, y).build();
        let g = Game::from_parts(open_field(), 1, player, vec![], vec![], Collectible::default());
        assert!(g.is_none());
    }
    for (x, y) in [(0, 0), (800, 600), (0, 600), (800, 0)] {
        let player = PlayerBuilder::new().position(x, y).build();
        let g = Game::from_parts(open_field(), 1, player, vec![], vec![], Collectible::default());
        assert!(g.is_some());
    }
}

#[test]
fn dead_player_does_not_move() {
    let config = Config { pickup_radius: 1000, ..open_field() };
    let mut g = game(
        config,
        400,
        300,
        0,
        vec![Enemy::new(405, 300, 50), Enemy::new(0, 0, 7)],
        vec![],
        Collectible::new(401, 301),
    );
    g.move_player(1, 1);
    assert_eq!(*g.player().position(), Position::new(400, 300));
    g.update(TICK);
    g.step(Position::new(9, 9));
    assert_eq!(*g.player().position(), Position::new(400, 300));
    assert_eq!(g.player().health(), 0);
    assert_eq!(enemy_positions(&g), vec![Position::new(405, 300), Position::new(0, 0)]);
    assert_eq!(*g.collectible().position(), Position::new(401, 301));
    assert!(!g.pickup_due());
}

#[test]
fn each_enemy_in_touch_takes_its_damage() {
    let mut g = game(
        open_field(),
        400,
        300,
        100,
        vec![Enemy::new(405, 300, 50), Enemy::new(400, 280, 0), Enemy::new(700, 300, 10)],
        vec![],
        Collectible::new(0, 0),
    );
    g.update(TICK);
    assert_eq!(g.player().health(), 80);
    assert_eq!(
        enemy_positions(&g),
        vec![Position::new(400, 300), Position::new(400, 280), Position::new(690, 300)]
    );
    g.update(TICK);
    assert_eq!(g.player().health(), 60);
}

#[test]
fn enemy_at_exactly_the_radius_does_not_hurt() {
    let mut g = game(
        open_field(),
        400,
        300,
        100,
        vec![Enemy::new(430, 300, 0), Enemy::new(400, 271, 0)],
        vec![],
        Collectible::new(0, 0),
    );
    g.update(TICK);
    assert_eq!(g.player().health(), 90);
}

#[test]
fn damage_is_measured_after_the_enemies_moved() {
    // Before its step the enemy is 40 away, after it 25.
    let mut g = game(
        open_field(),
        400,
        300,
        100,
        vec![Enemy::new(440, 300, 15)],
        vec![],
        Collectible::new(0, 0),
    );
    g.update(TICK);
    assert_eq!(enemy_positions(&g), vec![Position::new(425, 300)]);
    assert_eq!(g.player().health(), 90);
}

#[test]
fn health_stops_at_zero_and_the_world_freezes() {
    let mut g = game(
        open_field(),
        400,
        300,
        15,
        vec![Enemy::new(400, 300, 1), Enemy::new(0, 0, 10)],
        vec![],
        Collectible::new(0, 0),
    );
    g.update(TICK);
    assert_eq!(g.player().health(), 5);
    assert!(g.player().is_alive());
    g.update(TICK);
    assert_eq!(g.player().health(), 0);
    assert!(!g.player().is_alive());
    let frozen = enemy_positions(&g);
    g.update(TICK);
    g.move_player(1, 0);
    assert_eq!(enemy_positions(&g), frozen);
    assert_eq!(g.player().health(), 0);
    assert_eq!(*g.player().position(), Position::new(400, 300));
}

#[test]
fn enemies_still_move_in_the_tick_that_kills() {
    let mut g = game(
        open_field(),
        400,
        300,
        10,
        vec![Enemy::new(400, 300, 1), Enemy::new(0, 300, 10)],
        vec![],
        Collectible::new(0, 0),
    );
    g.update(TICK);
    assert_eq!(g.player().health(), 0);
    assert_eq!(enemy_positions(&g), vec![Position::new(400, 300), Position::new(10, 300)]);
}

#[test]
fn collectible_in_reach_turns_up_where_it_is_told() {
    let mut g = game(open_field(), 400, 300, 100, vec![], vec![], Collectible::new(410, 310));
    assert!(g.pickup_due());
    g.step(Position::new(77, 88));
    assert_eq!(*g.collectible().position(), Position::new(77, 88));
    assert!(!g.pickup_due());
    g.step(Position::new(1, 2));
    assert_eq!(*g.collectible().position(), Position::new(77, 88));
}

#[test]
fn collectible_in_reach_turns_up_in_the_respawn_region() {
    let config = Config { respawn_region: Region::new(700, 710, 500, 505), ..open_field() };
    for seed in 0..30 {
        let player = PlayerBuilder::new().position(400, 300).build();
        let mut g =
            Game::from_parts(config, seed, player, vec![], vec![], Collectible::new(410, 310))
                .unwrap();
        g.update(TICK);
        let c = *g.collectible().position();
        assert!(700 <= c.x && c.x < 710);
        assert!(500 <= c.y && c.y < 505);
        assert_ne!(c, Position::new(410, 310));
    }
}

#[test]
fn collectible_at_exactly_the_radius_stays() {
    let mut g = game(open_field(), 400, 300, 100, vec![], vec![], Collectible::new(400, 330));
    assert!(!g.pickup_due());
    g.update(TICK);
    assert_eq!(*g.collectible().position(), Position::new(400, 330));
    g.step(Position::new(5, 5));
    assert_eq!(*g.collectible().position(), Position::new(400, 330));
}

#[test]
fn collectible_is_picked_up_in_the_tick_that_kills() {
    let mut g = game(
        open_field(),
        400,
        300,
        10,
        vec![Enemy::new(400, 300, 1)],
        vec![],
        Collectible::new(400, 301),
    );
    g.step(Position::new(50, 60));
    assert_eq!(g.player().health(), 0);
    assert_eq!(*g.collectible().position(), Position::new(50, 60));
}

#[test]
fn the_same_seed_respawns_at_the_same_place() {
    let mut places = Vec::new();
    for _ in 0..2 {
        let player = PlayerBuilder::new().position(400, 300).build();
        let mut g = Game::from_parts(
            open_field(),
            31337,
            player,
            vec![],
            vec![],
            Collectible::new(400, 300),
        )
        .unwrap();
        g.update(TICK);
        places.push(*g.collectible().position());
    }
    assert_eq!(places[0], places[1]);
}

#[test]
fn enemy_comes_nearer_by_its_speed_each_tick() {
    let mut g = game(
        open_field(),
        300,
        400,
        100,
        vec![Enemy::new(0, 0, 50)],
        vec![],
        Collectible::new(799, 0),
    );
    g.update(TICK);
    assert_eq!(enemy_positions(&g), vec![Position::new(30, 40)]);
    g.update(TICK);
    assert_eq!(enemy_positions(&g), vec![Position::new(60, 80)]);
    assert_eq!(g.player().health(), 100);
}

#[test]
fn tick_leaves_walls_and_player_position_alone() {
    let config = Config { wall_count: 2, ..open_field() };
    let walls = vec![Wall::new(100, 100), Wall::new(700, 500)];
    let mut g = game(config, 400, 300, 100, vec![Enemy::new(0, 0, 5)], walls, Collectible::new(1, 1));
    g.update(TICK);
    assert_eq!(*g.player().position(), Position::new(400, 300));
    assert_eq!(*g.walls()[0].position(), Position::new(100, 100));
    assert_eq!(*g.walls()[1].position(), Position::new(700, 500));
    assert_eq!(*g.config(), config);
}

#[test]
fn enemies_can_be_changed_in_place() {
    let mut g = game(open_field(), 400, 300, 100, vec![], vec![], Collectible::new(0, 0));
    g.enemies_mut().push(Enemy::new(400, 320, 0));
    assert_eq!(g.enemies().len(), 1);
    g.update(TICK);
    assert_eq!(g.player().health(), 90);
    g.enemies_mut().clear();
    g.update(TICK);
    assert_eq!(g.player().health(), 90);
}

#[test]
fn a_played_game_keeps_the_player_in_the_world() {
    let mut g = Game::with_config(Config::default(), 12).unwrap();
    g.initialize();
    let directions = [(1, 0), (1, 1), (0, 1), (-1, 1), (-1, 0), (-1, -1), (0, -1), (1, -1)];
    for tick in 0..400usize {
        let (dx, dy) = directions[(tick / 25) % 8];
        let before = g.player().health();
        g.move_player(dx, dy);
        g.update(TICK);
        let p = *g.player().position();
        assert!(0 <= p.x && p.x <= 800);
        assert!(0 <= p.y && p.y <= 600);
        assert!(g.player().health() <= before);
        for w in g.walls() {
            let (wx, wy) = ((w.position().x - p.x) as i64, (w.position().y - p.y) as i64);
            assert!(wx * wx + wy * wy >= 35 * 35 || tick == 0 || p == Position::new(400, 300));
        }
    }
}
