//! Kinematics: input, horizontal and vertical travel, gravity, and player bullets.
use vstd::prelude::*;
use crate::entities::{
    BULLET_SPEED, Bullet, Enemy, Facing, GRAVITY, JUMP_SPEED, MAX_FALL_SPEED, MUZZLE_DX, MUZZLE_DY,
    Player, RUN_SPEED, WALK_SPEED,
};
use crate::units::{
    COORD_LIMIT, FOLLOW_THRESHOLD, MAX_DELTA_MICROS, MICROS_PER_SECOND, div_toward_zero,
    lemma_scaled_bound, scale_toward_zero,
};
use crate::world::{
    Controls, NORMAL_SPEED, Timeless, World, bullets_within, enemies_within,
    lemma_collections_within_mono, within,
};

verus! {

/// Distance covered in `dt` microseconds at `speed` per second, rounded toward zero.
pub open spec fn travel(speed: int, dt: int) -> int {
    div_toward_zero(speed * dt, MICROS_PER_SECOND as int)
}

/// Distance covered in `dt` microseconds at `speed` per second, scaled by the
/// world speed multiplier `mult` (in thousandths), rounded toward zero.
pub open spec fn scaled_travel(speed: int, dt: int, mult: int) -> int {
    div_toward_zero(speed * dt * mult, MICROS_PER_SECOND * NORMAL_SPEED)
}

/// Enemy with its cooldown shortened by `d`.
pub open spec fn cooled(e: Enemy, d: int) -> Enemy {
    Enemy { cooldown: (e.cooldown - d) as i128, ..e }
}

/// Bullet moved by its speed along its direction for `dt` microseconds.
pub open spec fn bullet_moved(b: Bullet, dt: int) -> Bullet {
    Bullet { x: (b.x + travel(b.speed * b.direction.sign(), dt)) as i128, ..b }
}

impl World {
    /// Input applied: direction and horizontal speed from the movement keys
    /// (right first, each unless blocked on that side), a jump from standing,
    /// and a new bullet at the muzzle on fire.
    pub open spec fn steered(self, c: Controls) -> World {
        let p = self.player;
        let pace = if c.run { RUN_SPEED } else { WALK_SPEED };
        let walking = if c.right && !p.collides_right {
            Player { direction: Facing::Right, horizontal_speed: pace, ..p }
        } else if c.left && !p.collides_left {
            Player { direction: Facing::Left, horizontal_speed: (-pace) as i128, ..p }
        } else {
            p
        };
        let jumping = if c.jump && walking.standing {
            Player { vertical_speed: JUMP_SPEED, standing: false, ..walking }
        } else {
            walking
        };
        let bullets = if c.fire {
            self.bullets.push(
                Bullet {
                    speed: BULLET_SPEED,
                    x: (jumping.pos_x + MUZZLE_DX + self.cumulative_horizontal_movement) as i128,
                    y: (jumping.pos_y + MUZZLE_DY) as i128,
                    direction: jumping.direction,
                },
            )
        } else {
            self.bullets
        };
        World { player: jumping, bullets, ..self }
    }

    /// Horizontal travel applied: to the player's x while left of the follow
    /// threshold, else to the scroll; every spawn counter and enemy cooldown
    /// shortened by the same travel; horizontal speed spent.
    pub open spec fn advanced(self, dt: int) -> World {
        let p = self.player;
        let d = travel(p.horizontal_speed as int, dt);
        let moves_player = p.pos_x < FOLLOW_THRESHOLD;
        World {
            player: Player {
                pos_x: if moves_player { (p.pos_x + d) as i128 } else { p.pos_x },
                horizontal_speed: 0,
                ..p
            },
            cumulative_horizontal_movement: if moves_player {
                self.cumulative_horizontal_movement
            } else {
                (self.cumulative_horizontal_movement + d) as i128
            },
            block_counter: (self.block_counter - d) as i128,
            background_counter: (self.background_counter - d) as i128,
            enemy_counter: (self.enemy_counter - d) as i128,
            powerup_counter: (self.powerup_counter - d) as i128,
            speed_counter: (self.speed_counter - d) as i128,
            enemies: self.enemies.map_values(|e: Enemy| cooled(e, d)),
            ..self
        }
    }

    /// Gravity applied to a player who is not standing, then the fall speed capped.
    pub open spec fn with_gravity(self, dt: int) -> World {
        let p = self.player;
        let v1 = if !p.standing {
            p.vertical_speed + travel(GRAVITY as int, dt)
        } else {
            p.vertical_speed as int
        };
        let v2 = if v1 > MAX_FALL_SPEED { MAX_FALL_SPEED as int } else { v1 };
        World { player: Player { vertical_speed: v2 as i128, ..p }, ..self }
    }

    /// Vertical travel applied, scaled by the world speed multiplier.
    pub open spec fn fallen(self, dt: int) -> World {
        let p = self.player;
        World {
            player: Player {
                pos_y: (p.pos_y + scaled_travel(p.vertical_speed as int, dt, self.speed as int)) as i128,
                ..p
            },
            ..self
        }
    }

    /// Every player bullet moved.
    pub open spec fn bullets_moved(self, dt: int) -> World {
        World { bullets: self.bullets.map_values(|b: Bullet| bullet_moved(b, dt)), ..self }
    }
}

impl Timeless {
    /// Applies the input snapshot (see `World::steered`).
    pub fn steer(&mut self, c: &Controls)
        requires
            old(self)@.bounded(COORD_LIMIT as int),
        ensures
            final(self)@ == old(self)@.steered(*c),
            final(self)@.bounded(4 * COORD_LIMIT),
    {
        if c.right && !self.player.collides_right {
            self.player.direction = Facing::Right;
            self.player.horizontal_speed = if c.run { RUN_SPEED } else { WALK_SPEED };
        } else if c.left && !self.player.collides_left {
            self.player.direction = Facing::Left;
            self.player.horizontal_speed = if c.run { -RUN_SPEED } else { -WALK_SPEED };
        }
        if c.jump && self.player.standing {
            self.player.vertical_speed = JUMP_SPEED;
            self.player.standing = false;
        }
        if c.fire {
            let ghost before = self.bullets@;
            self.bullets.push(
                Bullet {
                    speed: BULLET_SPEED,
                    x: self.player.pos_x + MUZZLE_DX + self.cumulative_horizontal_movement,
                    y: self.player.pos_y + MUZZLE_DY,
                    direction: self.player.direction,
                },
            );
            assert forall|i: int| 0 <= i < self.bullets@.len() implies {
                let b = #[trigger] self.bullets@[i];
                within(b.x as int, 4 * COORD_LIMIT) && within(
                    b.y as int,
                    4 * COORD_LIMIT,
                ) && within(b.speed as int, COORD_LIMIT as int)
            } by {
                if i < before.len() {
                    assert(before[i] == self.bullets@[i]);
                }
            }
        }
    }

    /// Spends the player's horizontal speed (see `World::advanced`).
    pub fn advance(&mut self, dt: i128)
        requires
            old(self)@.bounded(32 * COORD_LIMIT),
            0 <= dt <= MAX_DELTA_MICROS,
        ensures
            final(self)@ == old(self)@.advanced(dt as int),
            final(self)@.bounded(0x4000 * COORD_LIMIT),
    {
        let ghost w0 = self@;
        let d = scale_toward_zero(self.player.horizontal_speed, dt, 1, MICROS_PER_SECOND);
        assert(d == travel(w0.player.horizontal_speed as int, dt as int));
        if self.player.pos_x < FOLLOW_THRESHOLD {
            self.player.move_horizontally(d);
        } else {
            self.cumulative_horizontal_movement = self.cumulative_horizontal_movement + d;
        }
        self.block_counter = self.block_counter - d;
        self.background_counter = self.background_counter - d;
        self.enemy_counter = self.enemy_counter - d;
        self.powerup_counter = self.powerup_counter - d;
        self.speed_counter = self.speed_counter - d;
        let ghost w1 = self@;
        let mut i: usize = 0;
        while i < self.enemies.len()
            invariant
                0 <= i <= self.enemies@.len(),
                self@ == (World { enemies: self.enemies@, ..w1 }),
                self.enemies@.len() == w0.enemies.len(),
                enemies_within(w0.enemies, 32 * COORD_LIMIT),
                -4295 * COORD_LIMIT <= d <= 4295 * COORD_LIMIT,
                forall|j: int| 0 <= j < i ==> #[trigger] self.enemies@[j] == cooled(w0.enemies[j], d as int),
                forall|j: int| i <= j < w0.enemies.len() ==> #[trigger] self.enemies@[j] == w0.enemies[j],
            decreases self.enemies@.len() - i,
        {
            let mut e = self.enemies[i];
            assert(within(w0.enemies[i as int].cooldown as int, 32 * COORD_LIMIT));
            e.cooldown = e.cooldown - d;
            self.enemies.set(i, e);
            i = i + 1;
        }
        self.player.horizontal_speed = 0;
        assert(self.enemies@ =~= w0.enemies.map_values(|e: Enemy| cooled(e, d as int)));
        assert(enemies_within(self.enemies@, 0x4000 * COORD_LIMIT)) by {
            assert forall|j: int| 0 <= j < self.enemies@.len() implies {
                let e = #[trigger] self.enemies@[j];
                within(e.x as int, 0x4000 * COORD_LIMIT) && within(e.y as int, 0x4000 * COORD_LIMIT)
                    && within(e.cooldown as int, 0x4000 * COORD_LIMIT)
            } by {
                assert(within(w0.enemies[j].cooldown as int, 32 * COORD_LIMIT));
            }
        }
        proof {
            lemma_collections_within_mono(w0, 32 * COORD_LIMIT, 0x4000 * COORD_LIMIT);
        }
    }

    /// Applies gravity and caps the fall speed (see `World::with_gravity`).
    pub fn apply_gravity(&mut self, dt: i128)
        requires
            old(self)@.bounded(0x4000 * COORD_LIMIT),
            0 <= dt <= MAX_DELTA_MICROS,
        ensures
            final(self)@ == old(self)@.with_gravity(dt as int),
            final(self)@.bounded(0x4000 * COORD_LIMIT),
            final(self).player.vertical_speed <= MAX_FALL_SPEED,
    {
        if !self.player.standing {
            let g = scale_toward_zero(GRAVITY, dt, 1, MICROS_PER_SECOND);
            self.player.vertical_speed = self.player.vertical_speed + g;
        }
        if self.player.vertical_speed > MAX_FALL_SPEED {
            self.player.vertical_speed = MAX_FALL_SPEED;
        }
    }

    /// Applies vertical travel (see `World::fallen`).
    pub fn fall(&mut self, dt: i128)
        requires
            old(self)@.bounded(0x4000 * COORD_LIMIT),
            old(self)@.wf(),
            0 <= dt <= MAX_DELTA_MICROS,
        ensures
            final(self)@ == old(self)@.fallen(dt as int),
            final(self)@.bounded(0x8000 * COORD_LIMIT),
    {
        let d = scale_toward_zero(
            self.player.vertical_speed,
            dt,
            self.speed,
            MICROS_PER_SECOND * NORMAL_SPEED,
        );
        self.player.pos_y = self.player.pos_y + d;
        proof {
            lemma_collections_within_mono(self@, 0x4000 * COORD_LIMIT, 0x8000 * COORD_LIMIT);
        }
    }

    /// Moves every player bullet (see `World::bullets_moved`).
    pub fn move_bullets(&mut self, dt: i128)
        requires
            old(self)@.bounded(0x2_0000 * COORD_LIMIT),
            0 <= dt <= MAX_DELTA_MICROS,
        ensures
            final(self)@ == old(self)@.bullets_moved(dt as int),
            final(self)@.bounded(0x4_0000 * COORD_LIMIT),
    {
        let ghost w0 = self@;
        let mut i: usize = 0;
        while i < self.bullets.len()
            invariant
                0 <= i <= self.bullets@.len(),
                self@ == (World { bullets: self.bullets@, ..w0 }),
                self.bullets@.len() == w0.bullets.len(),
                bullets_within(w0.bullets, 0x2_0000 * COORD_LIMIT),
                0 <= dt <= MAX_DELTA_MICROS,
                forall|j: int| 0 <= j < i ==> #[trigger] self.bullets@[j] == bullet_moved(w0.bullets[j], dt as int),
                forall|j: int| i <= j < w0.bullets.len() ==> #[trigger] self.bullets@[j] == w0.bullets[j],
            decreases self.bullets@.len() - i,
        {
            let mut b = self.bullets[i];
            assert(within(w0.bullets[i as int].speed as int, COORD_LIMIT as int));
            assert(within(w0.bullets[i as int].x as int, 0x2_0000 * COORD_LIMIT));
            let v = match b.direction {
                Facing::Left => -b.speed,
                Facing::Right => b.speed,
            };
            let d = scale_toward_zero(v, dt, 1, MICROS_PER_SECOND);
            b.x = b.x + d;
            self.bullets.set(i, b);
            i = i + 1;
        }
        assert(self.bullets@ =~= w0.bullets.map_values(|b: Bullet| bullet_moved(b, dt as int)));
        proof {
            lemma_collections_within_mono(w0, 0x2_0000 * COORD_LIMIT, 0x4_0000 * COORD_LIMIT);
            assert forall|j: int| 0 <= j < self.bullets@.len() implies {
                let b = #[trigger] self.bullets@[j];
                within(b.x as int, 0x4_0000 * COORD_LIMIT) && within(b.y as int, 0x4_0000 * COORD_LIMIT)
                    && within(b.speed as int, COORD_LIMIT as int)
            } by {
                let b0 = w0.bullets[j];
                assert(within(b0.x as int, 0x2_0000 * COORD_LIMIT) && within(b0.y as int, 0x2_0000 * COORD_LIMIT));
                assert(within(b0.speed as int, COORD_LIMIT as int));
                assert(self.bullets@[j] == bullet_moved(b0, dt as int));
                lemma_scaled_bound(b0.speed * b0.direction.sign(), dt as int, 1, MICROS_PER_SECOND as int);
            }
        }
    }
}

} // verus!
