use vstd::prelude::*;
use crate::collision::{landing_contacts, landing_probe};
use crate::entities::{Block, Player, GRAVITY, MAX_FALL_SPEED, PLAYER_INITIAL_X, PLAYER_INITIAL_Y};
use crate::geometry::Rectangle;
use crate::spawn::{Generated, Rolls};
use crate::kinematics::travel;
use crate::units::{fold_x, unfold_x, COORD_LIMIT, FOLLOW_THRESHOLD, MAX_DELTA_MICROS, UNIT};
use crate::world::{initial_blocks, Controls, World, SLOW_MOTION_DURATION, SLOW_SPEED};

verus! {

/// A reset does not depend on the world it starts from: resetting twice in
/// a row ends as one reset with the entities the second one generated, so
/// with the same fresh decoration, pickup and enemy a second reset changes
/// nothing; with other ones, only those three entities differ.
pub proof fn reset_is_idempotent(first: Generated, second: Generated)
    ensures
        World::restarted(second) == (World {
            backgrounds: seq![second.background],
            powerups: seq![second.powerup],
            enemies: seq![second.enemy],
            ..World::restarted(first)
        }),
        first == second ==> World::restarted(second) == World::restarted(first),
{
}

/// When a pickup touches the player during a tick, and no enemy bullet does,
/// the tick ends in slow motion, with a full slow motion counter and no
/// pickup left.
pub proof fn pickup_starts_slow_motion(w: World, c: Controls, dt: int, rolls: Rolls)
    requires
        w.moved_and_spawned(c, dt, rolls).touches_powerup(w.tick_probe(c, dt)),
        !w.moved_and_spawned(c, dt, rolls).touches_enemy_bullet(w.tick_probe(c, dt)),
    ensures
        w.ticked(c, dt, rolls).speed == SLOW_SPEED,
        w.ticked(c, dt, rolls).powerups.len() == 0,
        w.ticked(c, dt, rolls).speed_counter == SLOW_MOTION_DURATION,
{
    let probe = w.tick_probe(c, dt);
    let mid = w.moved_and_spawned(c, dt, rolls);
    let collected = mid.pickups_collected(probe).slow_motion_expired();
    assert(collected.touches_enemy_bullet(probe) == mid.touches_enemy_bullet(probe));
}

/// When an enemy bullet touches the player during a tick, the tick ends with
/// the player back at its starting position and the starting platform
/// layout restored.
pub proof fn enemy_bullet_restarts_run(w: World, c: Controls, dt: int, rolls: Rolls)
    requires
        w.moved_and_spawned(c, dt, rolls).touches_enemy_bullet(w.tick_probe(c, dt)),
    ensures
        w.ticked(c, dt, rolls).player.pos_x == PLAYER_INITIAL_X,
        w.ticked(c, dt, rolls).player.pos_y == PLAYER_INITIAL_Y,
        w.ticked(c, dt, rolls).blocks == initial_blocks(),
{
    let probe = w.tick_probe(c, dt);
    let mid = w.moved_and_spawned(c, dt, rolls);
    let collected = mid.pickups_collected(probe).slow_motion_expired();
    assert(collected.touches_enemy_bullet(probe) == mid.touches_enemy_bullet(probe));
}

/// Unfolding a camera-relative x gives back the absolute x, for every player
/// position at or past the follow threshold.
pub proof fn fold_round_trip(x: int, player_x: int, scroll: int)
    requires
        player_x >= FOLLOW_THRESHOLD,
    ensures
        unfold_x(fold_x(x, player_x, scroll), player_x, scroll) == x,
{
}

/// The landing pass never raises the vertical speed above the fall-speed cap.
proof fn lemma_landing_keeps_cap(
    p: Player,
    probe: Rectangle,
    blocks: Seq<Block>,
    player_x: int,
    scroll: int,
)
    requires
        p.vertical_speed <= MAX_FALL_SPEED,
    ensures
        landing_contacts(p, probe, blocks, player_x, scroll).0.vertical_speed <= MAX_FALL_SPEED,
    decreases blocks.len(),
{
    if blocks.len() > 0 {
        lemma_landing_keeps_cap(p, probe, blocks.drop_last(), player_x, scroll);
    }
}

/// Whatever the input and random choices, a tick of any valid duration
/// ends with the vertical speed at most the fall-speed cap.
pub proof fn tick_caps_fall_speed(w: World, c: Controls, dt: int, rolls: Rolls)
    requires
        w.bounded(COORD_LIMIT as int),
        0 <= dt <= MAX_DELTA_MICROS,
    ensures
        w.ticked(c, dt, rolls).player.vertical_speed <= MAX_FALL_SPEED,
{
    let nudge = travel(UNIT as int, dt);
    let resolved = w.steered(c).walls_resolved(nudge).contacts_refreshed();
    let fell = resolved.advanced(dt).with_gravity(dt);
    let p = fell.player;
    assert(travel(GRAVITY as int, dt) >= 0);
    lemma_landing_keeps_cap(
        p,
        landing_probe(p),
        fell.blocks,
        p.pos_x as int,
        fell.cumulative_horizontal_movement as int,
    );
}

} // verus!
