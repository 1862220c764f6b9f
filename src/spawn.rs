use vstd::prelude::*;
use vstd::arithmetic::div_mod::lemma_mod_multiples_basic;
use crate::entities::{
    Background, BackgroundKind, Block, ENEMY_COOLDOWN, ENEMY_Y, Enemy, Powerup, TILE,
};
use crate::geometry::Rectangle;
use crate::units::{COORD_LIMIT, UNIT, WIDE_LIMIT};
use crate::world::{
    BACKGROUND_SPACING, BLOCK_SPACING, ENEMY_SPACING, POWERUP_SPACING, Timeless, World,
    lemma_collections_within_mono, rect_within, within,
};

verus! {

/// Height of a platform on the ground row.
pub const GROUND_Y: i128 = 320 * UNIT;
/// Height of a platform half a tile below the ground row.
pub const LOW_Y: i128 = GROUND_Y + 64 * UNIT;
/// Height of a platform a third of a tile below the ground row, rounded down.
pub const MIDDLE_Y: i128 = GROUND_Y + 42_666;

/// Start of the window ahead of the player in which things spawn.
pub const SPAWN_AHEAD_MIN: i64 = 640;
/// End (exclusive) of the window ahead of the player in which things spawn.
pub const SPAWN_AHEAD_MAX: i64 = 1280;

/// Draws an integer in `lo..hi`.
///
/// Relies on rand's `thread_rng().gen_range(lo..hi)`: a value inside the
/// half-open range, which it requires to be non-empty.
#[verifier::external_body]
fn roll(lo: i64, hi: i64) -> (r: i64)
    requires
        lo < hi,
    ensures
        lo <= r < hi,
{
    rand::Rng::gen_range(&mut rand::thread_rng(), lo..hi)
}

/// Picture of a decoration for a percentile roll: three bands of about a third.
pub open spec fn background_kind_for(percent: int) -> BackgroundKind {
    if percent < 33 {
        BackgroundKind::First
    } else if percent < 66 {
        BackgroundKind::Second
    } else {
        BackgroundKind::Third
    }
}

/// Quarter turns of a decoration for a percentile roll: four equal bands.
pub open spec fn quarter_turns_for(percent: int) -> u8 {
    if percent < 25 {
        0
    } else if percent < 50 {
        1
    } else if percent < 75 {
        2
    } else {
        3
    }
}

/// Height of a new platform for a percentile roll: three bands of about a third.
pub open spec fn block_y_for(percent: int) -> i128 {
    if percent < 33 {
        LOW_Y
    } else if percent < 66 {
        GROUND_Y
    } else {
        MIDDLE_Y
    }
}

/// `v` is a whole number of world units in `lo..hi` (given in world units).
pub open spec fn on_grid(v: int, lo: int, hi: int) -> bool {
    &&& v % (UNIT as int) == 0
    &&& lo * UNIT <= v < hi * UNIT
}

/// `x` lies a whole number of world units into the spawn window past `offset_x`.
pub open spec fn spawned_ahead(x: int, offset_x: int) -> bool {
    on_grid(x - offset_x, SPAWN_AHEAD_MIN as int, SPAWN_AHEAD_MAX as int)
}

/// A decoration that `randomly_generate_background` may return for `offset_x`.
pub open spec fn is_spawned_background(b: Background, offset_x: int) -> bool {
    &&& spawned_ahead(b.x as int, offset_x)
    &&& on_grid(b.y as int, -120, 240)
    &&& b.quarter_turns <= 3
}

/// A pickup that `randomly_generate_powerups` may return for `offset_x`.
pub open spec fn is_spawned_powerup(p: Powerup, offset_x: int) -> bool {
    &&& spawned_ahead(p.x as int, offset_x)
    &&& on_grid(p.y as int, 220, 300)
}

/// An enemy that `randomly_generate_enemy` may return for `offset_x`.
pub open spec fn is_spawned_enemy(e: Enemy, offset_x: int) -> bool {
    &&& spawned_ahead(e.x as int, offset_x)
    &&& e.y == ENEMY_Y
    &&& e.cooldown == ENEMY_COOLDOWN
}

/// The platform tile placed at column `column` for a percentile roll.
pub open spec fn spawned_block(column: int, percent: int) -> Block {
    Block {
        rect: Rectangle {
            x: (TILE * column) as i128,
            y: block_y_for(percent),
            width: TILE,
            height: TILE,
        },
    }
}

/// Picture of a decoration for a percentile roll.
pub fn background_kind_from_roll(percent: i64) -> (k: BackgroundKind)
    ensures
        k == background_kind_for(percent as int),
{
    if percent < 33 {
        BackgroundKind::First
    } else if percent < 66 {
        BackgroundKind::Second
    } else {
        BackgroundKind::Third
    }
}

/// Quarter turns of a decoration for a percentile roll.
pub fn quarter_turns_from_roll(percent: i64) -> (t: u8)
    ensures
        t == quarter_turns_for(percent as int),
{
    if percent < 25 {
        0
    } else if percent < 50 {
        1
    } else if percent < 75 {
        2
    } else {
        3
    }
}

/// The platform tile placed at column `column` for a percentile roll.
pub fn block_from_roll(column: i128, percent: i64) -> (b: Block)
    requires
        -WIDE_LIMIT <= TILE * column <= WIDE_LIMIT,
    ensures
        b == spawned_block(column as int, percent as int),
{
    let y: i128 = if percent < 33 {
        LOW_Y
    } else if percent < 66 {
        GROUND_Y
    } else {
        MIDDLE_Y
    };
    Block { rect: Rectangle { x: TILE * column, y, width: TILE, height: TILE } }
}

/// One draw of each random generator, made at offset zero.
#[derive(Clone, Copy, Debug, PartialEq, Eq, Structural)]
pub struct Generated {
    pub background: Background,
    pub powerup: Powerup,
    pub enemy: Enemy,
}

impl Generated {
    /// Each entity is one that its generator may return at offset zero.
    pub open spec fn valid(self) -> bool {
        &&& is_spawned_background(self.background, 0)
        &&& is_spawned_powerup(self.powerup, 0)
        &&& is_spawned_enemy(self.enemy, 0)
    }

    /// Draws one entity from each generator.
    pub fn draw() -> (g: Generated)
        ensures
            g.valid(),
    {
        Generated {
            background: Timeless::randomly_generate_background(0),
            powerup: Timeless::randomly_generate_powerups(0),
            enemy: Timeless::randomly_generate_enemy(0),
        }
    }
}

/// The random choices that one tick may need, drawn in advance.
#[derive(Clone, Copy, Debug, PartialEq, Eq, Structural)]
pub struct Rolls {
    /// Percentile roll that picks the height of a new platform.
    pub block_percent: i64,
    /// Entities for the spawners, placed relative to the player when used.
    pub spawn: Generated,
    /// Entities for a world reset.
    pub restart: Generated,
}

impl Rolls {
    /// Every choice is one that its generator may make.
    pub open spec fn valid(self) -> bool {
        &&& 0 <= self.block_percent < 100
        &&& self.spawn.valid()
        &&& self.restart.valid()
    }

    /// Draws every choice that a tick may need.
    pub fn draw() -> (r: Rolls)
        ensures
            r.valid(),
    {
        Rolls { block_percent: roll(0, 100), spawn: Generated::draw(), restart: Generated::draw() }
    }
}

impl Timeless {
    /// A decoration from a picture roll, a rotation roll, a column `ahead` units
    /// past `offset_x` and a row, all in world units.
    pub fn background_from_rolls(
        offset_x: i128,
        kind_percent: i64,
        turn_percent: i64,
        ahead: i64,
        row: i64,
    ) -> (b: Background)
        requires
            -WIDE_LIMIT <= offset_x <= WIDE_LIMIT,
            -WIDE_LIMIT <= ahead <= WIDE_LIMIT,
            -WIDE_LIMIT <= row <= WIDE_LIMIT,
        ensures
            b == (Background {
                x: (offset_x + ahead * UNIT) as i128,
                y: (row * UNIT) as i128,
                kind: background_kind_for(kind_percent as int),
                quarter_turns: quarter_turns_for(turn_percent as int),
            }),
    {
        let kind = background_kind_from_roll(kind_percent);
        let quarter_turns = quarter_turns_from_roll(turn_percent);
        Background {
            x: offset_x + (ahead as i128) * UNIT,
            y: (row as i128) * UNIT,
            kind,
            quarter_turns,
        }
    }

    /// A decoration at a random place in the spawn window past `offset_x`, with
    /// a random picture and rotation.
    pub fn randomly_generate_background(offset_x: i128) -> (b: Background)
        requires
            -WIDE_LIMIT <= offset_x <= WIDE_LIMIT,
        ensures
            is_spawned_background(b, offset_x as int),
    {
        let kind_percent = roll(0, 100);
        let turn_percent = roll(0, 100);
        let ahead = roll(SPAWN_AHEAD_MIN, SPAWN_AHEAD_MAX);
        let row = roll(-120, 240);
        let b = Self::background_from_rolls(offset_x, kind_percent, turn_percent, ahead, row);
        proof {
            lemma_mod_multiples_basic(ahead as int, UNIT as int);
            lemma_mod_multiples_basic(row as int, UNIT as int);
        }
        b
    }

    /// A pickup at a column `ahead` units past `offset_x` and a row, in world units.
    pub fn powerup_from_rolls(offset_x: i128, ahead: i64, row: i64) -> (p: Powerup)
        requires
            -WIDE_LIMIT <= offset_x <= WIDE_LIMIT,
            -WIDE_LIMIT <= ahead <= WIDE_LIMIT,
            -WIDE_LIMIT <= row <= WIDE_LIMIT,
        ensures
            p == (Powerup { x: (offset_x + ahead * UNIT) as i128, y: (row * UNIT) as i128 }),
    {
        Powerup { x: offset_x + (ahead as i128) * UNIT, y: (row as i128) * UNIT }
    }

    /// A pickup at a random place in the spawn window past `offset_x`.
    pub fn randomly_generate_powerups(offset_x: i128) -> (p: Powerup)
        requires
            -WIDE_LIMIT <= offset_x <= WIDE_LIMIT,
        ensures
            is_spawned_powerup(p, offset_x as int),
    {
        let ahead = roll(SPAWN_AHEAD_MIN, SPAWN_AHEAD_MAX);
        let row = roll(220, 300);
        let p = Self::powerup_from_rolls(offset_x, ahead, row);
        proof {
            lemma_mod_multiples_basic(ahead as int, UNIT as int);
            lemma_mod_multiples_basic(row as int, UNIT as int);
        }
        p
    }

    /// An enemy at a column `ahead` units past `offset_x`, ready to wait out a
    /// full cooldown.
    pub fn enemy_from_roll(offset_x: i128, ahead: i64) -> (e: Enemy)
        requires
            -WIDE_LIMIT <= offset_x <= WIDE_LIMIT,
            -WIDE_LIMIT <= ahead <= WIDE_LIMIT,
        ensures
            e == (Enemy {
                x: (offset_x + ahead * UNIT) as i128,
                y: ENEMY_Y,
                cooldown: ENEMY_COOLDOWN,
            }),
    {
        Enemy { x: offset_x + (ahead as i128) * UNIT, y: ENEMY_Y, cooldown: ENEMY_COOLDOWN }
    }

    /// An enemy at a random column of the spawn window past `offset_x`.
    pub fn randomly_generate_enemy(offset_x: i128) -> (e: Enemy)
        requires
            -WIDE_LIMIT <= offset_x <= WIDE_LIMIT,
        ensures
            is_spawned_enemy(e, offset_x as int),
    {
        let ahead = roll(SPAWN_AHEAD_MIN, SPAWN_AHEAD_MAX);
        let e = Self::enemy_from_roll(offset_x, ahead);
        proof {
            lemma_mod_multiples_basic(ahead as int, UNIT as int);
        }
        e
    }
}

/// A freshly generated entity placed `offset` further along x.
pub open spec fn background_shifted(b: Background, offset: int) -> Background {
    Background { x: (b.x + offset) as i128, ..b }
}

/// A freshly generated pickup placed `offset` further along x.
pub open spec fn powerup_shifted(p: Powerup, offset: int) -> Powerup {
    Powerup { x: (p.x + offset) as i128, ..p }
}

/// A freshly generated enemy placed `offset` further along x.
pub open spec fn enemy_shifted(e: Enemy, offset: int) -> Enemy {
    Enemy { x: (e.x + offset) as i128, ..e }
}

impl World {
    /// A platform tile added at the next column when its counter has run out.
    pub open spec fn terrain_grown(self, percent: int) -> World {
        if self.block_counter <= 0 {
            World {
                blocks: self.blocks.push(spawned_block(self.block_id as int, percent)),
                block_id: (self.block_id + 1) as i128,
                block_counter: BLOCK_SPACING,
                ..self
            }
        } else {
            self
        }
    }

    /// Player's total travel: position plus scroll.
    pub open spec fn travelled(self) -> int {
        self.player.pos_x + self.cumulative_horizontal_movement
    }

    /// A decoration, then an enemy, then a pickup spawned past the player's
    /// total travel, each when its counter has run out.
    pub open spec fn populated(self, g: Generated) -> World {
        let offset = self.travelled();
        let w1 = if self.background_counter <= 0 {
            World {
                backgrounds: self.backgrounds.push(background_shifted(g.background, offset)),
                background_counter: BACKGROUND_SPACING,
                ..self
            }
        } else {
            self
        };
        let w2 = if w1.enemy_counter <= 0 {
            World {
                enemies: w1.enemies.push(enemy_shifted(g.enemy, offset)),
                enemy_counter: ENEMY_SPACING,
                ..w1
            }
        } else {
            w1
        };
        if w2.powerup_counter <= 0 {
            World {
                powerups: w2.powerups.push(powerup_shifted(g.powerup, offset)),
                powerup_counter: POWERUP_SPACING,
                ..w2
            }
        } else {
            w2
        }
    }
}

impl Timeless {
    /// Adds a platform tile when its counter has run out (see `World::terrain_grown`).
    pub fn grow_terrain(&mut self, percent: i64)
        requires
            old(self)@.bounded(0x1_0000 * COORD_LIMIT),
        ensures
            final(self)@ == old(self)@.terrain_grown(percent as int),
            final(self)@.bounded(0x2_0000 * COORD_LIMIT),
    {
        let ghost w0 = self@;
        proof {
            lemma_collections_within_mono(w0, 0x1_0000 * COORD_LIMIT, 0x2_0000 * COORD_LIMIT);
        }
        if self.block_counter <= 0 {
            let b = block_from_roll(self.block_id, percent);
            self.blocks.push(b);
            self.block_id = self.block_id + 1;
            self.block_counter = BLOCK_SPACING;
            assert forall|i: int| 0 <= i < self.blocks@.len() implies rect_within(
                #[trigger] self.blocks@[i].rect,
                0x2_0000 * COORD_LIMIT,
            ) by {
                if i < w0.blocks.len() {
                    assert(self.blocks@[i] == w0.blocks[i]);
                }
            }
        }
    }

    /// Spawns a decoration, an enemy and a pickup from `g` as their counters
    /// run out (see `World::populated`).
    pub fn populate(&mut self, g: &Generated)
        requires
            old(self)@.bounded(0x4_0000 * COORD_LIMIT),
            g.valid(),
        ensures
            final(self)@ == old(self)@.populated(*g),
            final(self)@.bounded(0x10_0000 * COORD_LIMIT),
    {
        let ghost w0 = self@;
        let ghost m: int = 0x10_0000 * COORD_LIMIT;
        proof {
            lemma_collections_within_mono(w0, 0x4_0000 * COORD_LIMIT, m);
        }
        let offset = self.player.pos_x + self.cumulative_horizontal_movement;
        if self.background_counter <= 0 {
            self.backgrounds.push(Background { x: g.background.x + offset, ..g.background });
            self.background_counter = BACKGROUND_SPACING;
            assert forall|i: int| 0 <= i < self.backgrounds@.len() implies {
                let b = #[trigger] self.backgrounds@[i];
                within(b.x as int, m) && within(b.y as int, m)
            } by {
                if i < w0.backgrounds.len() {
                    assert(self.backgrounds@[i] == w0.backgrounds[i]);
                }
            }
        }
        let ghost w1 = self@;
        if self.enemy_counter <= 0 {
            self.enemies.push(Enemy { x: g.enemy.x + offset, ..g.enemy });
            self.enemy_counter = ENEMY_SPACING;
            assert forall|i: int| 0 <= i < self.enemies@.len() implies {
                let e = #[trigger] self.enemies@[i];
                within(e.x as int, m) && within(e.y as int, m) && within(e.cooldown as int, m)
            } by {
                if i < w1.enemies.len() {
                    assert(self.enemies@[i] == w1.enemies[i]);
                }
            }
        }
        let ghost w2 = self@;
        if self.powerup_counter <= 0 {
            self.powerups.push(Powerup { x: g.powerup.x + offset, ..g.powerup });
            self.powerup_counter = POWERUP_SPACING;
            assert forall|i: int| 0 <= i < self.powerups@.len() implies {
                let p = #[trigger] self.powerups@[i];
                within(p.x as int, m) && within(p.y as int, m)
            } by {
                if i < w2.powerups.len() {
                    assert(self.powerups@[i] == w2.powerups[i]);
                }
            }
        }
    }
}

} // verus!
