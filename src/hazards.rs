//! Hazards and pickups: the pursuing wall, slow motion pickups, enemy fire and
//! enemy bullets.
use vstd::prelude::*;
use crate::entities::{ENEMY_COOLDOWN, Enemy, EnemyBullet, Powerup};
use crate::geometry::Rectangle;
use crate::spawn::Generated;
use crate::units::{
    COORD_LIMIT, MAX_DELTA_MICROS, MICROS_PER_SECOND, UNIT, camera_x, div_toward_zero,
    fold_x, lemma_scaled_bound, scale_toward_zero,
};
use crate::world::{
    NORMAL_SPEED, SLOW_MOTION_DURATION, SLOW_SPEED, Timeless, WALL_RETREAT_SPEED, WALL_SPEED,
    WALL_SPEED_ACCELERATED, World, enemy_bullets_within, lemma_collections_within_mono, rect_within,
    within,
};
use crate::kinematics::scaled_travel;

verus! {

/// Lag behind the player beyond which the wall speeds up to catch up.
pub const WALL_CATCH_UP_GAP: i128 = 1000 * UNIT;

/// Lag behind the player beyond which the wall stops for good.
pub const WALL_STOP_GAP: i128 = 3000 * UNIT;

/// Edge of the square box of a pickup or an enemy bullet.
pub const SMALL_BOX: i128 = 32 * UNIT;

/// Offset along x from an enemy to the bullet it fires.
pub const SHOT_DX: i128 = -64 * UNIT;

/// Offset along y from an enemy to the bullet it fires.
pub const SHOT_DY: i128 = 4 * UNIT;

/// Divisor of an enemy bullet's aim: the aim covers one ninth of itself per second.
pub const SHOT_SLOWNESS: i128 = 9;

/// Box of a pickup as collision tests see it: camera-folded like every entity.
pub open spec fn powerup_seen(p: Powerup, player_x: int, scroll: int) -> Rectangle {
    Rectangle {
        x: fold_x(p.x as int, player_x, scroll) as i128,
        y: p.y,
        width: SMALL_BOX,
        height: SMALL_BOX,
    }
}

/// Box of an enemy bullet as collision tests see it: camera-folded like every entity.
pub open spec fn shot_seen(b: EnemyBullet, player_x: int, scroll: int) -> Rectangle {
    Rectangle {
        x: fold_x(b.x as int, player_x, scroll) as i128,
        y: b.y,
        width: SMALL_BOX,
        height: SMALL_BOX,
    }
}

/// The bullet that enemy `e` fires at the player's absolute position
/// (`target_x`, `target_y`): its aim is fixed when it is fired.
pub open spec fn shot_from(e: Enemy, target_x: int, target_y: int) -> EnemyBullet {
    EnemyBullet {
        x: (e.x + SHOT_DX) as i128,
        y: (e.y + SHOT_DY) as i128,
        dx: (target_x - e.x + SHOT_DX) as i128,
        dy: (target_y - e.y + SHOT_DY) as i128,
    }
}

/// The bullets fired by the enemies whose cooldown has run out, in order.
pub open spec fn shots_fired(enemies: Seq<Enemy>, target_x: int, target_y: int) -> Seq<EnemyBullet>
    decreases enemies.len(),
{
    if enemies.len() == 0 {
        Seq::empty()
    } else {
        let e = enemies.last();
        let earlier = shots_fired(enemies.drop_last(), target_x, target_y);
        if e.cooldown <= 0 {
            earlier.push(shot_from(e, target_x, target_y))
        } else {
            earlier
        }
    }
}

/// Enemy whose cooldown has run out, ready to wait again.
pub open spec fn rearmed(e: Enemy) -> Enemy {
    if e.cooldown <= 0 {
        Enemy { cooldown: ENEMY_COOLDOWN, ..e }
    } else {
        e
    }
}

/// Distance an enemy bullet covers along an axis with aim `aim` in `dt`
/// microseconds at world speed `mult`.
pub open spec fn shot_travel(aim: int, dt: int, mult: int) -> int {
    div_toward_zero(aim * dt * mult, SHOT_SLOWNESS * MICROS_PER_SECOND * NORMAL_SPEED)
}

/// Enemy bullet moved along its aim.
pub open spec fn shot_moved(b: EnemyBullet, dt: int, mult: int) -> EnemyBullet {
    EnemyBullet {
        x: (b.x + shot_travel(b.dx as int, dt, mult)) as i128,
        y: (b.y + shot_travel(b.dy as int, dt, mult)) as i128,
        ..b
    }
}

impl World {
    /// Distance by which the pursuing wall lags behind the player.
    pub open spec fn wall_lag(self) -> int {
        self.player.pos_x - self.wall_x
    }

    /// Pursuing wall moved: fast while it lags more than `WALL_CATCH_UP_GAP`
    /// behind the player, else at its normal pace; falling back during slow
    /// motion; stopped, and left where it is, once it lags more than
    /// `WALL_STOP_GAP` behind.
    pub open spec fn wall_moved(self, dt: int) -> World {
        let lag = self.wall_lag();
        let pace = if lag > WALL_CATCH_UP_GAP { WALL_SPEED_ACCELERATED } else { WALL_SPEED };
        let pace = if self.speed < NORMAL_SPEED { WALL_RETREAT_SPEED } else { pace };
        if lag > WALL_STOP_GAP {
            World { wall_speed: 0, ..self }
        } else {
            World {
                wall_speed: pace,
                wall_x: (self.wall_x + scaled_travel(pace as int, dt, self.speed as int)) as i128,
                ..self
            }
        }
    }

    /// Some pickup overlaps `probe`.
    pub open spec fn touches_powerup(self, probe: Rectangle) -> bool {
        exists|i: int|
            0 <= i < self.powerups.len() && probe.overlaps(
                powerup_seen(
                    #[trigger] self.powerups[i],
                    self.player.pos_x as int,
                    self.cumulative_horizontal_movement as int,
                ),
            )
    }

    /// On touching a pickup: slow motion starts, its counter is full, and all
    /// pickups are gone.
    pub open spec fn pickups_collected(self, probe: Rectangle) -> World {
        if self.touches_powerup(probe) {
            World {
                speed: SLOW_SPEED,
                speed_counter: SLOW_MOTION_DURATION,
                powerups: Seq::empty(),
                ..self
            }
        } else {
            self
        }
    }

    /// Normal speed restored once the slow motion counter has run out.
    pub open spec fn slow_motion_expired(self) -> World {
        if self.speed_counter <= 0 {
            World { speed_counter: 0, speed: NORMAL_SPEED, ..self }
        } else {
            self
        }
    }

    /// Some enemy bullet overlaps `probe`.
    pub open spec fn touches_enemy_bullet(self, probe: Rectangle) -> bool {
        exists|i: int|
            0 <= i < self.enemy_bullets.len() && probe.overlaps(
                shot_seen(
                    #[trigger] self.enemy_bullets[i],
                    self.player.pos_x as int,
                    self.cumulative_horizontal_movement as int,
                ),
            )
    }

    /// A full reset when an enemy bullet touches `probe`.
    pub open spec fn shots_checked(self, probe: Rectangle, g: Generated) -> World {
        if self.touches_enemy_bullet(probe) {
            World::restarted(g)
        } else {
            self
        }
    }

    /// Every enemy whose cooldown has run out fires at the player and rearms.
    pub open spec fn enemies_fired(self) -> World {
        World {
            enemies: self.enemies.map_values(|e: Enemy| rearmed(e)),
            enemy_bullets: self.enemy_bullets + shots_fired(
                self.enemies,
                self.travelled(),
                self.player.pos_y as int,
            ),
            ..self
        }
    }

    /// Every enemy bullet moved along its aim.
    pub open spec fn enemy_bullets_moved(self, dt: int) -> World {
        World {
            enemy_bullets: self.enemy_bullets.map_values(
                |b: EnemyBullet| shot_moved(b, dt, self.speed as int),
            ),
            ..self
        }
    }
}

impl Timeless {
    /// Moves the pursuing wall (see `World::wall_moved`).
    pub fn move_wall(&mut self, dt: i128)
        requires
            old(self)@.bounded(0x8000 * COORD_LIMIT),
            old(self)@.wf(),
            0 <= dt <= MAX_DELTA_MICROS,
        ensures
            final(self)@ == old(self)@.wall_moved(dt as int),
            final(self)@.bounded(0x1_0000 * COORD_LIMIT),
    {
        let lag = self.player.pos_x - self.wall_x;
        let mut pace = if lag > WALL_CATCH_UP_GAP { WALL_SPEED_ACCELERATED } else { WALL_SPEED };
        if self.speed < NORMAL_SPEED {
            pace = WALL_RETREAT_SPEED;
        }
        if lag > WALL_STOP_GAP {
            self.wall_speed = 0;
        } else {
            self.wall_speed = pace;
            let d = scale_toward_zero(pace, dt, self.speed, MICROS_PER_SECOND * NORMAL_SPEED);
            self.wall_x = self.wall_x + d;
        }
        proof {
            lemma_collections_within_mono(self@, 0x8000 * COORD_LIMIT, 0x1_0000 * COORD_LIMIT);
        }
    }

    /// Starts slow motion and removes every pickup when one touches `probe`
    /// (see `World::pickups_collected`).
    pub fn collect_pickups(&mut self, probe: &Rectangle)
        requires
            old(self)@.bounded(0x10_0000 * COORD_LIMIT),
            rect_within(*probe, 0x10_0000 * COORD_LIMIT),
        ensures
            final(self)@ == old(self)@.pickups_collected(*probe),
            final(self)@.bounded(0x10_0000 * COORD_LIMIT),
    {
        let ghost w0 = self@;
        let px = self.player.pos_x;
        let scroll = self.cumulative_horizontal_movement;
        let mut hit = false;
        let mut i: usize = 0;
        while i < self.powerups.len()
            invariant
                0 <= i <= self.powerups@.len(),
                self@ == w0,
                w0.bounded(0x10_0000 * COORD_LIMIT),
                rect_within(*probe, 0x10_0000 * COORD_LIMIT),
                px == w0.player.pos_x,
                scroll == w0.cumulative_horizontal_movement,
                hit == exists|j: int|
                    0 <= j < i && probe.overlaps(
                        powerup_seen(#[trigger] w0.powerups[j], px as int, scroll as int),
                    ),
            decreases self.powerups@.len() - i,
        {
            let p = self.powerups[i];
            assert(within(w0.powerups[i as int].x as int, 0x10_0000 * COORD_LIMIT));
            assert(within(w0.powerups[i as int].y as int, 0x10_0000 * COORD_LIMIT));
            let x = camera_x(p.x, px, scroll);
            let rect = Rectangle { x, y: p.y, width: SMALL_BOX, height: SMALL_BOX };
            if probe.intersects_horizontally(&rect) {
                hit = true;
            }
            i = i + 1;
        }
        if hit {
            self.speed = SLOW_SPEED;
            self.speed_counter = SLOW_MOTION_DURATION;
            self.powerups = Vec::new();
            assert(self.powerups@ =~= Seq::empty());
        }
    }

    /// Restores normal speed once the slow motion counter has run out (see
    /// `World::slow_motion_expired`).
    pub fn expire_slow_motion(&mut self)
        ensures
            final(self)@ == old(self)@.slow_motion_expired(),
    {
        if self.speed_counter <= 0 {
            self.speed_counter = 0;
            self.speed = NORMAL_SPEED;
        }
    }

    /// Whether some enemy bullet touches `probe`.
    pub fn enemy_bullet_hits(&self, probe: &Rectangle) -> (hit: bool)
        requires
            self@.bounded(0x10_0000 * COORD_LIMIT),
            rect_within(*probe, 0x10_0000 * COORD_LIMIT),
        ensures
            hit == self@.touches_enemy_bullet(*probe),
    {
        let px = self.player.pos_x;
        let scroll = self.cumulative_horizontal_movement;
        let mut hit = false;
        let mut i: usize = 0;
        while i < self.enemy_bullets.len()
            invariant
                0 <= i <= self.enemy_bullets@.len(),
                self@.bounded(0x10_0000 * COORD_LIMIT),
                rect_within(*probe, 0x10_0000 * COORD_LIMIT),
                px == self.player.pos_x,
                scroll == self.cumulative_horizontal_movement,
                hit == exists|j: int|
                    0 <= j < i && probe.overlaps(
                        shot_seen(#[trigger] self.enemy_bullets@[j], px as int, scroll as int),
                    ),
            decreases self.enemy_bullets@.len() - i,
        {
            let b = self.enemy_bullets[i];
            assert(within(self.enemy_bullets@[i as int].x as int, 0x10_0000 * COORD_LIMIT));
            assert(within(self.enemy_bullets@[i as int].y as int, 0x10_0000 * COORD_LIMIT));
            let x = camera_x(b.x, px, scroll);
            let rect = Rectangle { x, y: b.y, width: SMALL_BOX, height: SMALL_BOX };
            if probe.intersects_horizontally(&rect) {
                hit = true;
            }
            i = i + 1;
        }
        hit
    }

    /// Every enemy whose cooldown has run out fires at the player (see
    /// `World::enemies_fired`).
    pub fn fire_enemies(&mut self)
        requires
            old(self)@.bounded(0x10_0000 * COORD_LIMIT),
        ensures
            final(self)@ == old(self)@.enemies_fired(),
            final(self)@.bounded(0x40_0000 * COORD_LIMIT),
    {
        let ghost w0 = self@;
        let ghost m: int = 0x10_0000 * COORD_LIMIT;
        let target_x = self.player.pos_x + self.cumulative_horizontal_movement;
        let target_y = self.player.pos_y;
        proof {
            lemma_collections_within_mono(w0, m, 4 * m);
        }
        let mut i: usize = 0;
        while i < self.enemies.len()
            invariant
                0 <= i <= self.enemies@.len(),
                self@ == (World { enemies: self.enemies@, enemy_bullets: self.enemy_bullets@, ..w0 }),
                self.enemies@.len() == w0.enemies.len(),
                w0.bounded(m),
                m == 0x10_0000 * COORD_LIMIT,
                target_x == w0.travelled(),
                target_y == w0.player.pos_y,
                forall|j: int| 0 <= j < i ==> #[trigger] self.enemies@[j] == rearmed(w0.enemies[j]),
                forall|j: int| i <= j < w0.enemies.len() ==> #[trigger] self.enemies@[j] == w0.enemies[j],
                self.enemy_bullets@ == w0.enemy_bullets + shots_fired(
                    w0.enemies.take(i as int),
                    target_x as int,
                    target_y as int,
                ),
                enemy_bullets_within(self.enemy_bullets@, 4 * m),
            decreases self.enemies@.len() - i,
        {
            let mut e = self.enemies[i];
            assert(w0.enemies.take(i as int + 1).drop_last() =~= w0.enemies.take(i as int));
            assert(w0.enemies.take(i as int + 1).last() == e);
            assert(within(e.x as int, m) && within(e.y as int, m));
            if e.cooldown <= 0 {
                let ghost before = self.enemy_bullets@;
                let shot = EnemyBullet {
                    x: e.x + SHOT_DX,
                    y: e.y + SHOT_DY,
                    dx: target_x - e.x + SHOT_DX,
                    dy: target_y - e.y + SHOT_DY,
                };
                self.enemy_bullets.push(shot);
                assert forall|j: int| 0 <= j < self.enemy_bullets@.len() implies {
                    let b = #[trigger] self.enemy_bullets@[j];
                    within(b.x as int, 4 * m) && within(b.y as int, 4 * m) && within(b.dx as int, 4 * m)
                        && within(b.dy as int, 4 * m)
                } by {
                    if j < before.len() {
                        assert(self.enemy_bullets@[j] == before[j]);
                    }
                }
                e.cooldown = ENEMY_COOLDOWN;
                self.enemies.set(i, e);
            }
            i = i + 1;
        }
        assert(w0.enemies.take(i as int) =~= w0.enemies);
        assert(self.enemies@ =~= w0.enemies.map_values(|e: Enemy| rearmed(e)));
        assert forall|j: int| 0 <= j < self.enemies@.len() implies {
            let e = #[trigger] self.enemies@[j];
            within(e.x as int, 4 * m) && within(e.y as int, 4 * m) && within(e.cooldown as int, 4 * m)
        } by {
            let e0 = w0.enemies[j];
            assert(within(e0.x as int, m) && within(e0.y as int, m) && within(e0.cooldown as int, m));
        }
    }

    /// Moves every enemy bullet along its aim (see `World::enemy_bullets_moved`).
    pub fn move_enemy_bullets(&mut self, dt: i128)
        requires
            old(self)@.bounded(0x40_0000 * COORD_LIMIT),
            old(self)@.wf(),
            0 <= dt <= MAX_DELTA_MICROS,
        ensures
            final(self)@ == old(self)@.enemy_bullets_moved(dt as int),
            final(self)@.bounded(0x10_0000_0000 * COORD_LIMIT),
    {
        let ghost w0 = self@;
        let ghost m: int = 0x40_0000 * COORD_LIMIT;
        let mult = self.speed;
        let den = SHOT_SLOWNESS * MICROS_PER_SECOND * NORMAL_SPEED;
        let mut i: usize = 0;
        while i < self.enemy_bullets.len()
            invariant
                0 <= i <= self.enemy_bullets@.len(),
                self@ == (World { enemy_bullets: self.enemy_bullets@, ..w0 }),
                self.enemy_bullets@.len() == w0.enemy_bullets.len(),
                enemy_bullets_within(w0.enemy_bullets, m),
                m == 0x40_0000 * COORD_LIMIT,
                mult == w0.speed,
                w0.wf(),
                den == SHOT_SLOWNESS * MICROS_PER_SECOND * NORMAL_SPEED,
                0 <= dt <= MAX_DELTA_MICROS,
                forall|j: int|
                    0 <= j < i ==> #[trigger] self.enemy_bullets@[j] == shot_moved(
                        w0.enemy_bullets[j],
                        dt as int,
                        mult as int,
                    ),
                forall|j: int| i <= j < w0.enemy_bullets.len() ==> #[trigger] self.enemy_bullets@[j] == w0.enemy_bullets[j],
            decreases self.enemy_bullets@.len() - i,
        {
            let mut b = self.enemy_bullets[i];
            let ghost b0 = w0.enemy_bullets[i as int];
            assert(within(b0.x as int, m) && within(b0.y as int, m) && within(b0.dx as int, m) && within(b0.dy as int, m));
            let ddx = scale_toward_zero(b.dx, dt, mult, den);
            let ddy = scale_toward_zero(b.dy, dt, mult, den);
            b.x = b.x + ddx;
            b.y = b.y + ddy;
            self.enemy_bullets.set(i, b);
            i = i + 1;
        }
        assert(self.enemy_bullets@ =~= w0.enemy_bullets.map_values(
            |b: EnemyBullet| shot_moved(b, dt as int, w0.speed as int),
        ));
        proof {
            lemma_collections_within_mono(w0, m, 0x10_0000_0000 * COORD_LIMIT);
            assert forall|j: int| 0 <= j < self.enemy_bullets@.len() implies {
                let b = #[trigger] self.enemy_bullets@[j];
                within(b.x as int, 0x10_0000_0000 * COORD_LIMIT) && within(b.y as int, 0x10_0000_0000 * COORD_LIMIT)
                    && within(b.dx as int, 0x10_0000_0000 * COORD_LIMIT) && within(b.dy as int, 0x10_0000_0000 * COORD_LIMIT)
            } by {
                let b0 = w0.enemy_bullets[j];
                assert(within(b0.x as int, m) && within(b0.y as int, m) && within(b0.dx as int, m) && within(b0.dy as int, m));
                lemma_scaled_bound(b0.dx as int, dt as int, mult as int, den as int);
                lemma_scaled_bound(b0.dy as int, dt as int, mult as int, den as int);
            }
        }
    }
}

} // verus!
