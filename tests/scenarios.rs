use timeless::entities::{
    Background, BackgroundKind, Block, Enemy, EnemyBullet, Facing, Player, Powerup, PLAYER_INITIAL_X,
    PLAYER_INITIAL_Y, TILE,
};
use timeless::geometry::Rectangle;
use timeless::spawn::{Generated, Rolls};
use timeless::world::{
    Controls, Timeless, BLOCK_SPACING, INITIAL_BLOCK_ID, NORMAL_SPEED, SLOW_MOTION_DURATION,
    SLOW_SPEED,
};

const U: i128 = 1000;

fn generated() -> Generated {
    Generated {
        background: Background { x: 640 * U, y: 0, kind: BackgroundKind::First, quarter_turns: 0 },
        powerup: Powerup { x: 2000 * U, y: 220 * U },
        enemy: Enemy { x: 3000 * U, y: 64 * U, cooldown: 300 * U },
    }
}

fn rolls() -> Rolls {
    Rolls { block_percent: 50, spawn: generated(), restart: generated() }
}

fn idle() -> Controls {
    Controls { right: false, left: false, run: false, jump: false, fire: false }
}

/// A world with one tile under x = 0..128, y = 320..448, nothing else nearby.
fn one_block_world() -> Timeless {
    let mut w = Timeless::from_generated(&generated());
    w.blocks = vec![Block { rect: Rectangle { x: 0, y: 320 * U, width: 128 * U, height: 128 * U } }];
    w
}

#[test]
fn landing_inside_the_landing_band_stands_the_player() {
    let mut w = one_block_world();
    w.player.pos_y = 260 * U;
    w.player.vertical_speed = 50 * U;
    w.step(&idle(), 20_000, &rolls());
    assert!(w.player.standing);
    assert_eq!(w.player.vertical_speed, 0);
    assert_eq!(w.player.pos_x, 45 * U);
    assert_eq!(w.player.pos_y, 260 * U);
}

#[test]
fn falling_player_lands_once_inside_the_landing_band() {
    let mut w = one_block_world();
    w.player.pos_y = 250 * U;
    w.player.vertical_speed = 50 * U;
    let mut landed = false;
    for _ in 0..100 {
        let y_before = w.player.pos_y;
        w.step(&idle(), 20_000, &rolls());
        if w.player.standing {
            assert!(256 * U < y_before && y_before < 320 * U);
            assert_eq!(w.player.vertical_speed, 0);
            landed = true;
            break;
        }
        assert!(y_before <= 256 * U);
    }
    assert!(landed);
}

#[test]
fn spawn_counter_decrements_by_travel() {
    let mut w = Timeless::from_generated(&generated());
    w.block_counter = 10 * U;
    w.player.horizontal_speed = 100 * U;
    w.advance(200_000);
    assert_eq!(w.block_counter, -10 * U);
    assert_eq!(w.player.pos_x, 65 * U);
    assert_eq!(w.player.horizontal_speed, 0);
    let before = w.blocks.len();
    let column = w.block_id;
    w.grow_terrain(50);
    assert_eq!(w.blocks.len(), before + 1);
    assert_eq!(w.block_id, column + 1);
    assert_eq!(w.blocks[before].rect.x, TILE * column);
    assert_eq!(w.blocks[before].rect.x + TILE, TILE * w.block_id);
    assert_eq!(w.block_counter, BLOCK_SPACING);
}

#[test]
fn spawn_counter_run_out_in_a_tick_appends_a_block() {
    let mut w = Timeless::from_generated(&generated());
    w.block_counter = 10 * U;
    w.player.horizontal_speed = 100 * U;
    let before = w.blocks.len();
    w.step(&idle(), 200_000, &rolls());
    assert_eq!(w.player.pos_x, 65 * U);
    assert_eq!(w.blocks.len(), before + 1);
    assert_eq!(w.blocks[before].rect.x, TILE * INITIAL_BLOCK_ID);
    assert_eq!(w.blocks[before].rect.y, 320 * U);
    assert_eq!(w.block_id, INITIAL_BLOCK_ID + 1);
    assert_eq!(w.block_counter, BLOCK_SPACING);
}

#[test]
fn touching_a_pickup_starts_slow_motion() {
    let mut w = Timeless::from_generated(&generated());
    w.powerups = vec![Powerup { x: 60 * U, y: 10 * U }, Powerup { x: 5000 * U, y: 220 * U }];
    w.step(&idle(), 16_000, &rolls());
    assert_eq!(w.speed, SLOW_SPEED);
    assert!(w.powerups.is_empty());
    assert_eq!(w.speed_counter, SLOW_MOTION_DURATION);
}

#[test]
fn touching_an_enemy_bullet_restarts_the_run() {
    let mut w = Timeless::from_generated(&generated());
    w.player.pos_x = 100 * U;
    w.player.pos_y = 10 * U;
    w.blocks.push(Block { rect: Rectangle { x: 9 * TILE, y: 320 * U, width: TILE, height: TILE } });
    w.enemy_bullets = vec![EnemyBullet { x: 110 * U, y: 20 * U, dx: 0, dy: 0 }];
    w.step(&idle(), 16_000, &rolls());
    assert_eq!(w.player.pos_x, PLAYER_INITIAL_X);
    assert_eq!(w.player.pos_y, PLAYER_INITIAL_Y);
    assert_eq!(w.blocks.len(), 9);
    for (k, b) in w.blocks.iter().enumerate() {
        let k = k as i128;
        let y = if k % 2 == 0 { 320 * U } else { 384 * U };
        assert_eq!(*b, Block { rect: Rectangle { x: TILE * k, y, width: TILE, height: TILE } });
    }
    assert!(w.enemy_bullets.is_empty());
    assert_eq!(w.speed, NORMAL_SPEED);
    assert_eq!(w.speed_counter, SLOW_MOTION_DURATION);
}

#[test]
fn reset_twice_equals_reset_once() {
    let mut w = Timeless::from_generated(&generated());
    w.player.pos_x = 500 * U;
    w.speed = SLOW_SPEED;
    w.block_id = 40;
    w.reset_with(&generated());
    let once_player: Player = w.player;
    let once_blocks = w.blocks.clone();
    let once = (
        w.speed, w.cumulative_horizontal_movement, w.wall_x, w.block_counter, w.block_id,
        w.wall_speed, w.background_counter, w.powerup_counter, w.enemy_counter, w.speed_counter,
    );
    let once_entities = (w.backgrounds.clone(), w.powerups.clone(), w.enemies.clone(), w.bullets.len(), w.enemy_bullets.len());
    w.reset_with(&generated());
    assert_eq!(w.player, once_player);
    assert_eq!(w.blocks, once_blocks);
    assert_eq!(
        (
            w.speed, w.cumulative_horizontal_movement, w.wall_x, w.block_counter, w.block_id,
            w.wall_speed, w.background_counter, w.powerup_counter, w.enemy_counter, w.speed_counter,
        ),
        once
    );
    assert_eq!((w.backgrounds.clone(), w.powerups.clone(), w.enemies.clone(), w.bullets.len(), w.enemy_bullets.len()), once_entities);
    assert_eq!(w.player, Player::new(45 * U, 0, Facing::Right, false, 0, 0, false, false));
}

#[test]
fn random_reset_restores_the_starting_state() {
    let mut w = Timeless::new();
    w.player.pos_x = 300 * U;
    w.wall_x = 0;
    w.reset();
    assert_eq!(w.player.pos_x, PLAYER_INITIAL_X);
    assert_eq!(w.wall_x, -1200 * U);
    assert_eq!(w.blocks.len(), 9);
    assert_eq!(w.speed_counter, SLOW_MOTION_DURATION);
    assert_eq!(w.backgrounds.len(), 1);
    assert_eq!(w.powerups.len(), 1);
    assert_eq!(w.enemies.len(), 1);
}

#[test]
fn random_ticks_keep_the_world_well_formed() {
    let mut w = Timeless::new();
    let run = Controls { right: true, left: false, run: true, jump: true, fire: true };
    for _ in 0..300 {
        assert!(w.within_limits());
        w.update(&run, 16_667);
        assert!(w.is_well_formed());
    }
    assert!(w.player.pos_x >= 45 * U);
    assert!(!w.bullets.is_empty());
}

/// A world scrolled by 100 units with the player pinned exactly at the follow
/// threshold, every tile far below the player.
fn pinned_world() -> Timeless {
    let mut w = Timeless::from_generated(&generated());
    w.player.pos_x = 320 * U;
    w.player.pos_y = 0;
    w.cumulative_horizontal_movement = 100 * U;
    w
}

#[test]
fn pickup_at_the_threshold_is_seen_folded() {
    let mut w = pinned_world();
    // Folded x: 430 - 320 + 320 - 100 = 330, inside the probe at 320..384.
    w.powerups = vec![Powerup { x: 430 * U, y: 10 * U }];
    w.speed_counter = 0;
    w.step(&idle(), 0, &rolls());
    assert_eq!(w.speed, SLOW_SPEED);
    assert!(w.powerups.is_empty());
    assert_eq!(w.speed_counter, SLOW_MOTION_DURATION);
}

#[test]
fn enemy_bullet_at_the_threshold_is_seen_folded() {
    let mut w = pinned_world();
    w.enemy_bullets = vec![EnemyBullet { x: 430 * U, y: 10 * U, dx: 0, dy: 0 }];
    w.step(&idle(), 0, &rolls());
    assert_eq!((w.player.pos_x, w.player.pos_y), (PLAYER_INITIAL_X, PLAYER_INITIAL_Y));
    assert_eq!(w.blocks.len(), 9);
}

#[test]
fn sticky_flags_clear_at_the_threshold_when_no_tile_overlaps() {
    let mut w = pinned_world();
    // Unfolded this tile would overlap the probe at 320..384; folded it lies
    // at 100..228, so nothing touches.
    w.blocks = vec![Block { rect: Rectangle { x: 200 * U, y: 0, width: TILE, height: TILE } }];
    w.player.collides_left = true;
    w.step(&idle(), 0, &rolls());
    assert!(!w.player.collides_left && !w.player.collides_right);
}

#[test]
fn reset_world_equals_a_new_one() {
    let mut w = pinned_world();
    w.speed_counter = -3;
    w.reset_with(&generated());
    let fresh = Timeless::from_generated(&generated());
    assert_eq!(w.player, fresh.player);
    assert_eq!(w.blocks, fresh.blocks);
    assert_eq!(
        (w.speed, w.speed_counter, w.block_counter, w.background_counter, w.powerup_counter, w.enemy_counter),
        (fresh.speed, fresh.speed_counter, fresh.block_counter, fresh.background_counter, fresh.powerup_counter, fresh.enemy_counter)
    );
    assert_eq!((w.wall_x, w.wall_speed, w.block_id, w.cumulative_horizontal_movement), (fresh.wall_x, fresh.wall_speed, fresh.block_id, 0));
}
