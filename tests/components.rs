use timeless::entities::{
    Background, BackgroundKind, Block, Bullet, Enemy, EnemyBullet, Facing, Player, Powerup,
    MAX_FALL_SPEED, TILE,
};
use timeless::geometry::{CollisionDirection, Rectangle};
use timeless::render::{Sprite, SpriteKind};
use timeless::spawn::{
    background_kind_from_roll, block_from_roll, quarter_turns_from_roll, Generated, GROUND_Y,
    LOW_Y, MIDDLE_Y,
};
use timeless::collision::{PROBE_HEIGHT, PROBE_WIDTH};
use timeless::units::{camera_x, divide_toward_zero, scale_toward_zero, COORD_LIMIT, FOLLOW_THRESHOLD};
use timeless::world::{
    Controls, Timeless, NORMAL_SPEED, SLOW_MOTION_DURATION, SLOW_SPEED, WALL_RETREAT_SPEED,
    WALL_SPEED, WALL_SPEED_ACCELERATED,
};

const U: i128 = 1000;

fn generated() -> Generated {
    Generated {
        background: Background { x: 640 * U, y: 0, kind: BackgroundKind::Second, quarter_turns: 1 },
        powerup: Powerup { x: 700 * U, y: 250 * U },
        enemy: Enemy { x: 900 * U, y: 64 * U, cooldown: 300 * U },
    }
}

fn rect(x: i128, y: i128, width: i128, height: i128) -> Rectangle {
    Rectangle { x, y, width, height }
}

#[test]
fn rectangles_that_touch_do_not_intersect() {
    let a = rect(0, 0, 10, 10);
    assert!(!a.intersects(&rect(10, 0, 10, 10)));
    assert!(!a.intersects(&rect(0, 10, 10, 10)));
    assert!(a.intersects(&rect(9, 9, 10, 10)));
    assert!(a.intersects_horizontally(&rect(-5, 5, 10, 10)));
    assert!(!a.intersects_horizontally(&rect(-10, 5, 10, 10)));
}

#[test]
fn resolve_collision_pushes_along_the_larger_biased_offset() {
    let mut a = rect(100, 10, 40, 40);
    a.resolve_collision(&rect(60, 0, 80, 80));
    assert_eq!(a, rect(140, 10, 40, 40));
    let mut b = rect(0, 0, 64, 64);
    b.resolve_collision(&rect(50, 10, 128, 128));
    assert_eq!(b, rect(-14, 0, 64, 64));
    let mut c = rect(100, 0, 64, 64);
    c.resolve_collision(&rect(50, 10, 60, 60));
    assert_eq!(c, rect(110, 0, 64, 64));
    let mut d = rect(0, 0, 64, 64);
    d.resolve_collision(&rect(0, 30, 64, 64));
    assert_eq!(d, rect(0, -34, 64, 64));
}

#[test]
fn resolve_horizontal_collision_reports_the_side() {
    let mut a = rect(0, 0, 64, 56);
    assert_eq!(a.resolve_horizontal_collision(&rect(50, 0, 128, 128)), CollisionDirection::Left);
    assert_eq!(a.x, -14);
    let mut b = rect(120, 0, 64, 56);
    assert_eq!(b.resolve_horizontal_collision(&rect(0, 0, 128, 128)), CollisionDirection::Right);
    assert_eq!(b.x, 128);
}

#[test]
fn division_rounds_toward_zero() {
    assert_eq!(divide_toward_zero(7, 2), 3);
    assert_eq!(divide_toward_zero(-7, 2), -3);
    assert_eq!(scale_toward_zero(-100_000, 200_000, 1, 1_000_000), -20_000);
    assert_eq!(scale_toward_zero(50_000, 20_000, 250, 1_000_000_000), 250);
    assert_eq!(scale_toward_zero(9, 1, 1, 1_000_000), 0);
}

#[test]
fn camera_fold_round_trips() {
    let threshold = FOLLOW_THRESHOLD;
    for &(x, px, s) in &[(0i128, 320 * U, 0i128), (5000 * U, 400 * U, 77 * U), (-3 * U, 321 * U, -9 * U)] {
        let folded = camera_x(x, px, s);
        assert_eq!(folded + px - threshold + s, x);
    }
    assert_eq!(camera_x(700 * U, 100 * U, 50 * U), 700 * U);
    assert_eq!(camera_x(700 * U, 320 * U, 50 * U), 650 * U);
    assert_eq!(camera_x(700 * U, 319 * U, 50 * U), 700 * U);
}

#[test]
fn spawn_rolls_pick_bands() {
    assert_eq!(background_kind_from_roll(0), BackgroundKind::First);
    assert_eq!(background_kind_from_roll(33), BackgroundKind::Second);
    assert_eq!(background_kind_from_roll(66), BackgroundKind::Third);
    assert_eq!(quarter_turns_from_roll(24), 0);
    assert_eq!(quarter_turns_from_roll(25), 1);
    assert_eq!(quarter_turns_from_roll(74), 2);
    assert_eq!(quarter_turns_from_roll(99), 3);
    assert_eq!(block_from_roll(9, 10).rect, rect(9 * TILE, LOW_Y, TILE, TILE));
    assert_eq!(block_from_roll(10, 40).rect, rect(10 * TILE, GROUND_Y, TILE, TILE));
    assert_eq!(block_from_roll(11, 90).rect, rect(11 * TILE, MIDDLE_Y, TILE, TILE));
    assert_eq!(LOW_Y, 384 * U);
    assert_eq!(MIDDLE_Y, 362_666);
}

#[test]
fn generators_place_entities_from_rolls() {
    assert_eq!(
        Timeless::background_from_rolls(5 * U, 50, 80, 700, -3),
        Background { x: 705 * U, y: -3 * U, kind: BackgroundKind::Second, quarter_turns: 3 }
    );
    assert_eq!(Timeless::powerup_from_rolls(1, 640, 220), Powerup { x: 640 * U + 1, y: 220 * U });
    assert_eq!(Timeless::enemy_from_roll(-U, 1000), Enemy { x: 999 * U, y: 64 * U, cooldown: 300 * U });
}

#[test]
fn random_generators_stay_in_their_windows() {
    let mut columns = std::collections::BTreeSet::new();
    for _ in 0..200 {
        let b = Timeless::randomly_generate_background(7 * U);
        columns.insert(b.x);
        assert!(647 * U <= b.x && b.x < 1287 * U && (b.x - 7 * U) % U == 0);
        assert!(-120 * U <= b.y && b.y < 240 * U && b.y % U == 0);
        assert!(b.quarter_turns <= 3);
        let p = Timeless::randomly_generate_powerups(0);
        assert!(640 * U <= p.x && p.x < 1280 * U && 220 * U <= p.y && p.y < 300 * U);
        let e = Timeless::randomly_generate_enemy(-5 * U);
        assert!(635 * U <= e.x && e.x < 1275 * U);
        assert_eq!((e.y, e.cooldown), (64 * U, 300 * U));
    }
    assert!(columns.len() > 1);
    assert!(Generated::draw().background.x >= 640 * U);
}

#[test]
fn player_constructor_reset_and_move() {
    let mut p = Player::new(1, 2, Facing::Left, true, 3, 4, true, false);
    assert_eq!((p.pos_x, p.pos_y, p.direction, p.standing), (1, 2, Facing::Left, true));
    assert_eq!((p.vertical_speed, p.horizontal_speed, p.collides_right, p.collides_left), (3, 4, true, false));
    p.move_horizontally(-11);
    assert_eq!(p.pos_x, -10);
    p.reset();
    assert_eq!(p, Player::new(45 * U, 0, Facing::Right, false, 0, 0, false, false));
    assert_eq!(Block::new(rect(1, 2, 3, 4)).rect, rect(1, 2, 3, 4));
    assert_eq!(Background::new(1, 2, BackgroundKind::Third, 2).quarter_turns, 2);
}

#[test]
fn new_world_has_the_starting_layout() {
    let w = Timeless::from_generated(&generated());
    assert_eq!(w.blocks.len(), 9);
    assert_eq!(w.blocks[3].rect, rect(3 * TILE, 384 * U, TILE, TILE));
    assert_eq!(w.speed, NORMAL_SPEED);
    assert_eq!(w.speed_counter, SLOW_MOTION_DURATION);
    assert_eq!(w.wall_x, -1200 * U);
    assert_eq!((w.block_counter, w.background_counter, w.powerup_counter, w.enemy_counter), (128 * U, 480 * U, 2300 * U, 3600 * U));
    assert!(w.within_limits());
    assert!(w.is_well_formed());
    let r = Timeless::new();
    assert_eq!(r.blocks.len(), 9);
    assert_eq!(r.speed_counter, SLOW_MOTION_DURATION);
}

#[test]
fn limits_check_rejects_huge_coordinates() {
    let mut w = Timeless::from_generated(&generated());
    w.enemies[0].x = COORD_LIMIT + 1;
    assert!(!w.within_limits());
    assert!(w.fits_within(2 * COORD_LIMIT));
    w.speed = 500;
    assert!(!w.is_well_formed());
}

#[test]
fn steering_sets_speed_direction_jump_and_fires() {
    let mut w = Timeless::from_generated(&generated());
    w.player.standing = true;
    w.cumulative_horizontal_movement = 10 * U;
    w.steer(&Controls { right: true, left: true, run: true, jump: true, fire: true });
    assert_eq!(w.player.horizontal_speed, 400 * U);
    assert_eq!(w.player.direction, Facing::Right);
    assert_eq!(w.player.vertical_speed, -280 * U);
    assert!(!w.player.standing);
    assert_eq!(w.bullets, vec![Bullet { speed: 800 * U, x: 87 * U, y: 16 * U, direction: Facing::Right }]);
    w.player.collides_right = true;
    w.steer(&Controls { right: true, left: true, run: false, jump: true, fire: false });
    assert_eq!(w.player.horizontal_speed, -160 * U);
    assert_eq!(w.player.direction, Facing::Left);
    assert_eq!(w.player.vertical_speed, -280 * U);
    assert_eq!(w.bullets.len(), 1);
}

#[test]
fn wall_pass_blocks_the_side_that_touches() {
    let mut w = Timeless::from_generated(&generated());
    w.blocks = vec![Block { rect: rect(100 * U, 0, TILE, TILE) }];
    w.player.pos_x = 40 * U;
    w.player.horizontal_speed = 160 * U;
    let probe = w.resolve_walls(16);
    assert_eq!(probe, rect(36 * U, 0, PROBE_WIDTH, PROBE_HEIGHT));
    assert_eq!(w.player.pos_x, 36 * U - 16);
    assert_eq!(w.player.horizontal_speed, 0);
    assert!(w.player.collides_right);
    assert!(!w.player.collides_left);
    w.refresh_contacts();
    assert!(!w.player.collides_right && !w.player.collides_left);
    w.player.collides_right = true;
    w.player.pos_x = 50 * U;
    w.refresh_contacts();
    assert!(w.player.collides_right);
}

#[test]
fn wall_pass_from_the_right_blocks_the_left() {
    let mut w = Timeless::from_generated(&generated());
    w.blocks = vec![Block { rect: rect(0, 0, TILE, TILE) }];
    w.player.pos_x = 120 * U;
    w.player.horizontal_speed = -160 * U;
    w.resolve_walls(0);
    assert_eq!(w.player.pos_x, 128 * U);
    assert_eq!(w.player.horizontal_speed, 0);
    assert!(w.player.collides_left);
}

#[test]
fn gravity_caps_the_fall_speed() {
    let mut w = Timeless::from_generated(&generated());
    w.player.vertical_speed = 249 * U;
    w.apply_gravity(1_000_000);
    assert_eq!(w.player.vertical_speed, MAX_FALL_SPEED);
    w.player.vertical_speed = 0;
    w.apply_gravity(20_000);
    assert_eq!(w.player.vertical_speed, 8400);
    w.player.standing = true;
    w.apply_gravity(20_000);
    assert_eq!(w.player.vertical_speed, 8400);
}

#[test]
fn support_is_lost_without_a_block_below() {
    let mut w = Timeless::from_generated(&generated());
    w.player.standing = true;
    w.player.pos_y = 100 * U;
    w.check_support();
    assert!(!w.player.standing);
    w.player.standing = true;
    w.player.pos_y = 257 * U;
    w.check_support();
    assert!(w.player.standing);
}

#[test]
fn fall_scales_with_world_speed() {
    let mut w = Timeless::from_generated(&generated());
    w.player.vertical_speed = 200 * U;
    w.speed = SLOW_SPEED;
    w.fall(100_000);
    assert_eq!(w.player.pos_y, 5 * U);
}

#[test]
fn pursuing_wall_speeds() {
    let mut w = Timeless::from_generated(&generated());
    // 1245 units behind the player: catching up.
    w.move_wall(1_000_000);
    assert_eq!(w.wall_speed, WALL_SPEED_ACCELERATED);
    assert_eq!(w.wall_x, 600 * U);
    // 945 units behind: normal pace.
    w.wall_x = -900 * U;
    w.move_wall(1_000_000);
    assert_eq!(w.wall_speed, WALL_SPEED);
    assert_eq!(w.wall_x, -840 * U);
    // Slow motion: falling back at a quarter of the retreat speed.
    w.wall_x = 0;
    w.speed = SLOW_SPEED;
    w.move_wall(1_000_000);
    assert_eq!(w.wall_speed, WALL_RETREAT_SPEED);
    assert_eq!(w.wall_x, -75 * U);
    // More than 3000 units behind: stopped where it is.
    w.wall_x = -2956 * U;
    w.move_wall(1_000_000);
    assert_eq!(w.wall_speed, 0);
    assert_eq!(w.wall_x, -2956 * U);
}

#[test]
fn bullets_fly_along_their_direction() {
    let mut w = Timeless::from_generated(&generated());
    w.bullets = vec![
        Bullet { speed: 800 * U, x: 0, y: 0, direction: Facing::Right },
        Bullet { speed: 800 * U, x: 0, y: 5, direction: Facing::Left },
    ];
    w.move_bullets(250_000);
    assert_eq!((w.bullets[0].x, w.bullets[1].x, w.bullets[1].y), (200 * U, -200 * U, 5));
}

#[test]
fn spawners_place_entities_past_the_total_travel() {
    let mut w = Timeless::from_generated(&generated());
    w.player.pos_x = 320 * U;
    w.cumulative_horizontal_movement = 1000 * U;
    w.background_counter = 0;
    w.enemy_counter = -1;
    w.populate(&generated());
    assert_eq!(w.backgrounds.len(), 2);
    assert_eq!(w.backgrounds[1].x, 1960 * U);
    assert_eq!(w.enemies.len(), 2);
    assert_eq!(w.enemies[1].x, 2220 * U);
    assert_eq!(w.powerups.len(), 1);
    assert_eq!((w.background_counter, w.enemy_counter), (480 * U, 3600 * U));
}

#[test]
fn slow_motion_expires_when_its_counter_runs_out() {
    let mut w = Timeless::from_generated(&generated());
    w.speed = SLOW_SPEED;
    w.speed_counter = -5;
    w.expire_slow_motion();
    assert_eq!((w.speed, w.speed_counter), (NORMAL_SPEED, 0));
}

#[test]
fn pickups_missed_stay() {
    let mut w = Timeless::from_generated(&generated());
    w.collect_pickups(&rect(0, 0, PROBE_WIDTH, PROBE_HEIGHT));
    assert_eq!(w.powerups.len(), 1);
    assert_eq!(w.speed, NORMAL_SPEED);
    assert!(!w.enemy_bullet_hits(&rect(0, 0, PROBE_WIDTH, PROBE_HEIGHT)));
}

#[test]
fn enemies_fire_once_cooled_down() {
    let mut w = Timeless::from_generated(&generated());
    w.player.pos_y = 100 * U;
    w.cumulative_horizontal_movement = 10 * U;
    w.enemies = vec![Enemy { x: 500 * U, y: 64 * U, cooldown: 0 }, Enemy { x: 600 * U, y: 64 * U, cooldown: 1 }];
    w.fire_enemies();
    assert_eq!(
        w.enemy_bullets,
        vec![EnemyBullet { x: 436 * U, y: 68 * U, dx: -509 * U, dy: 40 * U }]
    );
    assert_eq!((w.enemies[0].cooldown, w.enemies[1].cooldown), (300 * U, 1));
    w.move_enemy_bullets(900_000);
    assert_eq!((w.enemy_bullets[0].x, w.enemy_bullets[0].y), (436 * U - 50_900, 68 * U + 4000));
}

#[test]
fn render_list_folds_once_the_player_is_pinned() {
    let mut w = Timeless::from_generated(&generated());
    let sprites = w.render_list();
    assert_eq!(sprites.len(), 1 + 1 + 9 + 1 + 1 + 1);
    assert_eq!(sprites[0], Sprite { kind: SpriteKind::Background(BackgroundKind::Second), x: 640 * U, y: 0, quarter_turns: 1 });
    assert_eq!(sprites[1], Sprite { kind: SpriteKind::PlayerRight, x: 45 * U, y: 0, quarter_turns: 0 });
    assert_eq!(sprites[11], Sprite { kind: SpriteKind::Enemy, x: 900 * U, y: 64 * U, quarter_turns: 2 });
    assert_eq!(sprites[13], Sprite { kind: SpriteKind::Wall, x: -1200 * U, y: 0, quarter_turns: 0 });
    w.player.pos_x = 320 * U;
    w.cumulative_horizontal_movement = 100 * U;
    w.player.direction = Facing::Left;
    let sprites = w.render_list();
    assert_eq!(sprites[1].kind, SpriteKind::PlayerLeft);
    assert_eq!(sprites[2].x, -100 * U);
    assert_eq!(sprites[12], Sprite { kind: SpriteKind::Powerup, x: 600 * U, y: 250 * U, quarter_turns: 0 });
    assert!(!w.is_obscured());
    w.wall_x = -279 * U;
    assert!(w.is_obscured());
}
