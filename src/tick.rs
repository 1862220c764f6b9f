//! One whole tick, composed of the phases of the other modules.
use vstd::prelude::*;
use crate::geometry::Rectangle;
use crate::spawn::Rolls;
use crate::units::{COORD_LIMIT, MAX_DELTA_MICROS, MICROS_PER_SECOND, UNIT, scale_toward_zero};
use crate::world::{
    lemma_collections_within_mono, lemma_restarted_bounded, rect_within, Controls, Timeless, World,
};
use crate::kinematics::travel;

verus! {

impl World {
    /// The player's probe after this tick's wall pass: the box that pickups
    /// and enemy bullets are tested against.
    pub open spec fn tick_probe(self, c: Controls, dt: int) -> Rectangle {
        self.steered(c).wall_pass(travel(UNIT as int, dt)).1
    }

    /// The first part of a tick: input, wall pass, flag refresh, horizontal
    /// travel, gravity, landing, support, vertical travel, pursuing wall and
    /// spawning, in this order.
    pub open spec fn moved_and_spawned(self, c: Controls, dt: int, rolls: Rolls) -> World {
        let nudge = travel(UNIT as int, dt);
        let resolved = self.steered(c).walls_resolved(nudge).contacts_refreshed();
        let moved = resolved.advanced(dt).with_gravity(dt).landed().support_checked().fallen(dt);
        let grown = moved.wall_moved(dt).terrain_grown(rolls.block_percent as int);
        grown.bullets_moved(dt).populated(rolls.spawn)
    }

    /// One whole tick: the first part (`moved_and_spawned`), then pickups,
    /// slow motion expiry, enemy bullet hits, enemy fire and enemy bullet
    /// travel, in this order. `rolls` holds the random choices.
    pub open spec fn ticked(self, c: Controls, dt: int, rolls: Rolls) -> World {
        let probe = self.tick_probe(c, dt);
        let settled = self.moved_and_spawned(c, dt, rolls).pickups_collected(probe).slow_motion_expired();
        settled.shots_checked(probe, rolls.restart).enemies_fired().enemy_bullets_moved(dt)
    }
}

impl Timeless {
    /// The first part of a tick (see `World::moved_and_spawned`); returns the
    /// probe that pickups and enemy bullets are then tested against.
    pub fn move_and_spawn(&mut self, c: &Controls, dt: i128, rolls: &Rolls) -> (probe: Rectangle)
        requires
            old(self)@.wf(),
            old(self)@.bounded(COORD_LIMIT as int),
            0 <= dt <= MAX_DELTA_MICROS,
            rolls.valid(),
        ensures
            final(self)@ == old(self)@.moved_and_spawned(*c, dt as int, *rolls),
            probe == old(self)@.tick_probe(*c, dt as int),
            final(self)@.wf(),
            final(self)@.bounded(0x10_0000 * COORD_LIMIT),
            rect_within(probe, 0x10_0000 * COORD_LIMIT),
    {
        let nudge = scale_toward_zero(UNIT, dt, 1, MICROS_PER_SECOND);
        self.steer(c);
        let probe = self.resolve_walls(nudge);
        self.refresh_contacts();
        self.advance(dt);
        self.apply_gravity(dt);
        self.land();
        self.check_support();
        self.fall(dt);
        self.move_wall(dt);
        self.grow_terrain(rolls.block_percent);
        self.move_bullets(dt);
        self.populate(&rolls.spawn);
        probe
    }

    /// Advances the world by one tick of `dt` microseconds under the input
    /// snapshot `c`, with the random choices `rolls` (see `World::ticked`).
    pub fn step(&mut self, c: &Controls, dt: i128, rolls: &Rolls)
        requires
            old(self)@.wf(),
            old(self)@.bounded(COORD_LIMIT as int),
            0 <= dt <= MAX_DELTA_MICROS,
            rolls.valid(),
        ensures
            final(self)@ == old(self)@.ticked(*c, dt as int, *rolls),
            final(self)@.wf(),
            final(self)@.bounded(0x10_0000_0000 * COORD_LIMIT),
    {
        let probe = self.move_and_spawn(c, dt, rolls);
        self.collect_pickups(&probe);
        self.expire_slow_motion();
        if self.enemy_bullet_hits(&probe) {
            self.reset_with(&rolls.restart);
            proof {
                lemma_restarted_bounded(rolls.restart);
                lemma_collections_within_mono(self@, COORD_LIMIT as int, 0x10_0000 * COORD_LIMIT);
            }
        }
        self.fire_enemies();
        self.move_enemy_bullets(dt);
    }

    /// Advances the world by one tick, drawing the random choices it needs.
    pub fn update(&mut self, c: &Controls, dt: i128)
        requires
            old(self)@.wf(),
            old(self)@.bounded(COORD_LIMIT as int),
            0 <= dt <= MAX_DELTA_MICROS,
        ensures
            exists|rolls: Rolls| rolls.valid() && final(self)@ == old(self)@.ticked(*c, dt as int, rolls),
            final(self)@.wf(),
            final(self)@.bounded(0x10_0000_0000 * COORD_LIMIT),
    {
        let rolls = Rolls::draw();
        self.step(c, dt, &rolls);
    }
}

} // verus!
