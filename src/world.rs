use vstd::prelude::*;
use crate::entities::{
    Background, Block, Bullet, Enemy, EnemyBullet, Facing, Player, Powerup, PLAYER_INITIAL_X,
    PLAYER_INITIAL_Y, TILE,
};
use crate::geometry::Rectangle;
use crate::spawn::{Generated, GROUND_Y, LOW_Y};
use crate::units::{COORD_LIMIT, UNIT, WIDE_LIMIT};

verus! {

/// World speed multiplier, in thousandths, while time runs normally.
pub const NORMAL_SPEED: i128 = 1000;
/// World speed multiplier, in thousandths, while slow motion lasts.
pub const SLOW_SPEED: i128 = 250;
/// Player travel that one slow motion lasts.
pub const SLOW_MOTION_DURATION: i128 = 1000 * UNIT;

/// Player travel between two platform tiles.
pub const BLOCK_SPACING: i128 = 128 * UNIT;
/// Player travel between two decorations.
pub const BACKGROUND_SPACING: i128 = 480 * UNIT;
/// Player travel between two pickups.
pub const POWERUP_SPACING: i128 = 2300 * UNIT;
/// Player travel between two enemies.
pub const ENEMY_SPACING: i128 = 3600 * UNIT;
/// Column of the first platform tile placed after the starting layout.
pub const INITIAL_BLOCK_ID: i128 = 9;

/// Pursuing wall's x when a run starts.
pub const INITIAL_WALL_X: i128 = -1200 * UNIT;
/// Pursuing wall's normal speed, per second.
pub const WALL_SPEED: i128 = 60 * UNIT;
/// Pursuing wall's speed while it lags far behind, per second.
pub const WALL_SPEED_ACCELERATED: i128 = 1800 * UNIT;
/// Pursuing wall's speed during slow motion, per second: it falls back.
pub const WALL_RETREAT_SPEED: i128 = -300 * UNIT;

/// Input snapshot of one tick.
#[derive(Clone, Copy, Debug, PartialEq, Eq, Structural)]
pub struct Controls {
    /// Move-right held.
    pub right: bool,
    /// Move-left held.
    pub left: bool,
    /// Run modifier held.
    pub run: bool,
    /// Jump held.
    pub jump: bool,
    /// Fire newly pressed this tick.
    pub fire: bool,
}

/// The whole simulation state.
pub struct Timeless {
    pub player: Player,
    /// World speed multiplier, in thousandths.
    pub speed: i128,
    pub blocks: Vec<Block>,
    /// Player travel that went into scrolling once the player was pinned at
    /// the follow threshold.
    pub cumulative_horizontal_movement: i128,
    pub wall_x: i128,
    /// Player travel left before the next platform tile.
    pub block_counter: i128,
    /// Column of the next platform tile.
    pub block_id: i128,
    /// Per second.
    pub wall_speed: i128,
    pub bullets: Vec<Bullet>,
    pub backgrounds: Vec<Background>,
    /// Player travel left before the next decoration.
    pub background_counter: i128,
    pub powerups: Vec<Powerup>,
    pub enemies: Vec<Enemy>,
    /// Player travel left before the next pickup.
    pub powerup_counter: i128,
    /// Player travel left before the next enemy.
    pub enemy_counter: i128,
    /// Player travel left before slow motion ends.
    pub speed_counter: i128,
    pub enemy_bullets: Vec<EnemyBullet>,
}

/// Mathematical model of `Timeless`: the same state with sequences for vectors.
pub struct World {
    pub player: Player,
    pub speed: i128,
    pub blocks: Seq<Block>,
    pub cumulative_horizontal_movement: i128,
    pub wall_x: i128,
    pub block_counter: i128,
    pub block_id: i128,
    pub wall_speed: i128,
    pub bullets: Seq<Bullet>,
    pub backgrounds: Seq<Background>,
    pub background_counter: i128,
    pub powerups: Seq<Powerup>,
    pub enemies: Seq<Enemy>,
    pub powerup_counter: i128,
    pub enemy_counter: i128,
    pub speed_counter: i128,
    pub enemy_bullets: Seq<EnemyBullet>,
}

impl View for Timeless {
    type V = World;

    open spec fn view(&self) -> World {
        World {
            player: self.player,
            speed: self.speed,
            blocks: self.blocks@,
            cumulative_horizontal_movement: self.cumulative_horizontal_movement,
            wall_x: self.wall_x,
            block_counter: self.block_counter,
            block_id: self.block_id,
            wall_speed: self.wall_speed,
            bullets: self.bullets@,
            backgrounds: self.backgrounds@,
            background_counter: self.background_counter,
            powerups: self.powerups@,
            enemies: self.enemies@,
            powerup_counter: self.powerup_counter,
            enemy_counter: self.enemy_counter,
            speed_counter: self.speed_counter,
            enemy_bullets: self.enemy_bullets@,
        }
    }
}

/// `a` lies in `-m..=m`.
pub open spec fn within(a: int, m: int) -> bool {
    -m <= a <= m
}

/// Corner within `m`, extents between zero and `m`.
pub open spec fn rect_within(r: Rectangle, m: int) -> bool {
    &&& within(r.x as int, m)
    &&& within(r.y as int, m)
    &&& 0 <= r.width <= m
    &&& 0 <= r.height <= m
}

/// Every block of `blocks` lies within `m`.
pub open spec fn blocks_within(blocks: Seq<Block>, m: int) -> bool {
    forall|i: int| 0 <= i < blocks.len() ==> rect_within(#[trigger] blocks[i].rect, m)
}

/// Every bullet lies within `m`, with a speed within the velocity limit.
pub open spec fn bullets_within(bullets: Seq<Bullet>, m: int) -> bool {
    forall|i: int|
        0 <= i < bullets.len() ==> {
            let b = #[trigger] bullets[i];
            within(b.x as int, m) && within(b.y as int, m) && within(b.speed as int, COORD_LIMIT as int)
        }
}

/// Every decoration lies within `m`.
pub open spec fn backgrounds_within(backgrounds: Seq<Background>, m: int) -> bool {
    forall|i: int|
        0 <= i < backgrounds.len() ==> {
            let b = #[trigger] backgrounds[i];
            within(b.x as int, m) && within(b.y as int, m)
        }
}

/// Every pickup lies within `m`.
pub open spec fn powerups_within(powerups: Seq<Powerup>, m: int) -> bool {
    forall|i: int|
        0 <= i < powerups.len() ==> {
            let p = #[trigger] powerups[i];
            within(p.x as int, m) && within(p.y as int, m)
        }
}

/// Every enemy lies within `m`, with a cooldown within `m`.
pub open spec fn enemies_within(enemies: Seq<Enemy>, m: int) -> bool {
    forall|i: int|
        0 <= i < enemies.len() ==> {
            let e = #[trigger] enemies[i];
            within(e.x as int, m) && within(e.y as int, m) && within(e.cooldown as int, m)
        }
}

/// Every enemy bullet lies within `m`, with an aim within `m`.
pub open spec fn enemy_bullets_within(bullets: Seq<EnemyBullet>, m: int) -> bool {
    forall|i: int|
        0 <= i < bullets.len() ==> {
            let b = #[trigger] bullets[i];
            within(b.x as int, m) && within(b.y as int, m) && within(b.dx as int, m)
                && within(b.dy as int, m)
        }
}

/// A bound on the collections' entries holds of every larger bound too.
pub proof fn lemma_collections_within_mono(w: World, m1: int, m2: int)
    requires
        m1 <= m2,
        blocks_within(w.blocks, m1),
        bullets_within(w.bullets, m1),
        backgrounds_within(w.backgrounds, m1),
        powerups_within(w.powerups, m1),
        enemies_within(w.enemies, m1),
        enemy_bullets_within(w.enemy_bullets, m1),
    ensures
        blocks_within(w.blocks, m2),
        bullets_within(w.bullets, m2),
        backgrounds_within(w.backgrounds, m2),
        powerups_within(w.powerups, m2),
        enemies_within(w.enemies, m2),
        enemy_bullets_within(w.enemy_bullets, m2),
{
    assert forall|i: int| 0 <= i < w.blocks.len() implies rect_within(#[trigger] w.blocks[i].rect, m2) by {
        assert(rect_within(w.blocks[i].rect, m1));
    }
    assert forall|i: int| 0 <= i < w.bullets.len() implies {
        let b = #[trigger] w.bullets[i];
        within(b.x as int, m2) && within(b.y as int, m2) && within(b.speed as int, COORD_LIMIT as int)
    } by {
        let b = w.bullets[i];
        assert(within(b.x as int, m1) && within(b.y as int, m1));
    }
    assert forall|i: int| 0 <= i < w.backgrounds.len() implies {
        let b = #[trigger] w.backgrounds[i];
        within(b.x as int, m2) && within(b.y as int, m2)
    } by {
        let b = w.backgrounds[i];
        assert(within(b.x as int, m1) && within(b.y as int, m1));
    }
    assert forall|i: int| 0 <= i < w.powerups.len() implies {
        let b = #[trigger] w.powerups[i];
        within(b.x as int, m2) && within(b.y as int, m2)
    } by {
        let b = w.powerups[i];
        assert(within(b.x as int, m1) && within(b.y as int, m1));
    }
    assert forall|i: int| 0 <= i < w.enemies.len() implies {
        let e = #[trigger] w.enemies[i];
        within(e.x as int, m2) && within(e.y as int, m2) && within(e.cooldown as int, m2)
    } by {
        let e = w.enemies[i];
        assert(within(e.x as int, m1) && within(e.y as int, m1) && within(e.cooldown as int, m1));
    }
    assert forall|i: int| 0 <= i < w.enemy_bullets.len() implies {
        let b = #[trigger] w.enemy_bullets[i];
        within(b.x as int, m2) && within(b.y as int, m2) && within(b.dx as int, m2) && within(b.dy as int, m2)
    } by {
        let b = w.enemy_bullets[i];
        assert(within(b.x as int, m1) && within(b.y as int, m1) && within(b.dx as int, m1) && within(b.dy as int, m1));
    }
}

/// The starting platform layout: tiles side by side from x = 0, alternating
/// between the ground row and half a tile lower.
pub open spec fn initial_block(column: int) -> Block {
    Block {
        rect: Rectangle {
            x: (TILE * column) as i128,
            y: if column % 2 == 0 { GROUND_Y } else { LOW_Y },
            width: TILE,
            height: TILE,
        },
    }
}

/// The nine tiles of the starting layout.
pub open spec fn initial_blocks() -> Seq<Block> {
    Seq::new(INITIAL_BLOCK_ID as nat, |k: int| initial_block(k))
}

/// A reset world, built from valid generated entities, lies within `COORD_LIMIT`.
pub proof fn lemma_restarted_bounded(g: Generated)
    requires
        g.valid(),
    ensures
        World::restarted(g).bounded(COORD_LIMIT as int),
{
    let w = World::restarted(g);
    assert forall|i: int| 0 <= i < w.blocks.len() implies rect_within(
        #[trigger] w.blocks[i].rect,
        COORD_LIMIT as int,
    ) by {
        assert(w.blocks[i] == initial_block(i));
    }
    assert forall|i: int| 0 <= i < w.backgrounds.len() implies {
        let b = #[trigger] w.backgrounds[i];
        within(b.x as int, COORD_LIMIT as int) && within(b.y as int, COORD_LIMIT as int)
    } by {
        assert(w.backgrounds[i] == g.background);
    }
    assert forall|i: int| 0 <= i < w.powerups.len() implies {
        let p = #[trigger] w.powerups[i];
        within(p.x as int, COORD_LIMIT as int) && within(p.y as int, COORD_LIMIT as int)
    } by {
        assert(w.powerups[i] == g.powerup);
    }
    assert forall|i: int| 0 <= i < w.enemies.len() implies {
        let e = #[trigger] w.enemies[i];
        within(e.x as int, COORD_LIMIT as int) && within(e.y as int, COORD_LIMIT as int)
            && within(e.cooldown as int, COORD_LIMIT as int)
    } by {
        assert(w.enemies[i] == g.enemy);
    }
}

impl World {
    /// Positions, counters, aims, extents and the next tile's x lie within
    /// `m`; velocities lie within `COORD_LIMIT`.
    pub open spec fn bounded(self, m: int) -> bool {
        &&& within(self.player.pos_x as int, m)
        &&& within(self.player.pos_y as int, m)
        &&& within(self.player.horizontal_speed as int, COORD_LIMIT as int)
        &&& within(self.player.vertical_speed as int, COORD_LIMIT as int)
        &&& within(self.cumulative_horizontal_movement as int, m)
        &&& within(self.wall_x as int, m)
        &&& within(self.wall_speed as int, COORD_LIMIT as int)
        &&& within(self.block_counter as int, m)
        &&& within(TILE * self.block_id, m)
        &&& within(self.background_counter as int, m)
        &&& within(self.powerup_counter as int, m)
        &&& within(self.enemy_counter as int, m)
        &&& within(self.speed_counter as int, m)
        &&& blocks_within(self.blocks, m)
        &&& bullets_within(self.bullets, m)
        &&& backgrounds_within(self.backgrounds, m)
        &&& powerups_within(self.powerups, m)
        &&& enemies_within(self.enemies, m)
        &&& enemy_bullets_within(self.enemy_bullets, m)
    }

    /// The world speed multiplier is normal or slow, nothing in between.
    pub open spec fn wf(self) -> bool {
        self.speed == NORMAL_SPEED || self.speed == SLOW_SPEED
    }

    /// The world at the start of every run, when the game starts and after
    /// each reset: every counter at its initial constant, with `g` as the
    /// freshly generated decoration, pickup and enemy.
    pub open spec fn restarted(g: Generated) -> World {
        World {
            player: Player::initial(),
            speed: NORMAL_SPEED,
            blocks: initial_blocks(),
            cumulative_horizontal_movement: 0,
            wall_x: INITIAL_WALL_X,
            block_counter: BLOCK_SPACING,
            block_id: INITIAL_BLOCK_ID,
            wall_speed: WALL_SPEED,
            bullets: Seq::empty(),
            backgrounds: seq![g.background],
            background_counter: BACKGROUND_SPACING,
            powerups: seq![g.powerup],
            enemies: seq![g.enemy],
            powerup_counter: POWERUP_SPACING,
            enemy_counter: ENEMY_SPACING,
            speed_counter: SLOW_MOTION_DURATION,
            enemy_bullets: Seq::empty(),
        }
    }
}

/// The starting platform layout.
pub fn initial_blocks_vec() -> (v: Vec<Block>)
    ensures
        v@ == initial_blocks(),
{
    let mut v: Vec<Block> = Vec::new();
    let mut k: i128 = 0;
    while k < INITIAL_BLOCK_ID
        invariant
            0 <= k <= INITIAL_BLOCK_ID,
            v@ == Seq::new(k as nat, |j: int| initial_block(j)),
        decreases INITIAL_BLOCK_ID - k,
    {
        let y: i128 = if k % 2 == 0 { GROUND_Y } else { LOW_Y };
        v.push(Block { rect: Rectangle { x: TILE * k, y, width: TILE, height: TILE } });
        k = k + 1;
        assert(v@ =~= Seq::new(k as nat, |j: int| initial_block(j)));
    }
    v
}

impl Timeless {
    /// The world when the game starts, with `g` as its first decoration,
    /// pickup and enemy.
    pub fn from_generated(g: &Generated) -> (w: Timeless)
        ensures
            w@ == World::restarted(*g),
    {
        let w = Timeless {
            player: Player::new(
                PLAYER_INITIAL_X,
                PLAYER_INITIAL_Y,
                Facing::Right,
                false,
                0,
                0,
                false,
                false,
            ),
            speed: NORMAL_SPEED,
            blocks: initial_blocks_vec(),
            cumulative_horizontal_movement: 0,
            wall_x: INITIAL_WALL_X,
            block_counter: BLOCK_SPACING,
            block_id: INITIAL_BLOCK_ID,
            wall_speed: WALL_SPEED,
            bullets: Vec::new(),
            backgrounds: vec![g.background],
            background_counter: BACKGROUND_SPACING,
            powerups: vec![g.powerup],
            enemies: vec![g.enemy],
            powerup_counter: POWERUP_SPACING,
            enemy_counter: ENEMY_SPACING,
            speed_counter: SLOW_MOTION_DURATION,
            enemy_bullets: Vec::new(),
        };
        assert(w.bullets@ =~= Seq::empty());
        assert(w.enemy_bullets@ =~= Seq::empty());
        assert(w.backgrounds@ =~= seq![g.background]);
        assert(w.powerups@ =~= seq![g.powerup]);
        assert(w.enemies@ =~= seq![g.enemy]);
        w
    }

    /// The world when the game starts, with a random first decoration, pickup
    /// and enemy.
    pub fn new() -> (w: Timeless)
        ensures
            exists|g: Generated| g.valid() && w@ == World::restarted(g),
    {
        let g = Generated::draw();
        Self::from_generated(&g)
    }

    /// Resets the whole world, with `g` as the freshly generated decoration,
    /// pickup and enemy.
    pub fn reset_with(&mut self, g: &Generated)
        ensures
            final(self)@ == World::restarted(*g),
    {
        self.player.reset();
        self.speed = NORMAL_SPEED;
        self.blocks = initial_blocks_vec();
        self.wall_x = INITIAL_WALL_X;
        self.wall_speed = WALL_SPEED;
        self.cumulative_horizontal_movement = 0;
        self.block_id = INITIAL_BLOCK_ID;
        self.block_counter = BLOCK_SPACING;
        self.background_counter = BACKGROUND_SPACING;
        self.backgrounds = vec![g.background];
        self.bullets = Vec::new();
        self.powerup_counter = POWERUP_SPACING;
        self.enemy_counter = ENEMY_SPACING;
        self.speed_counter = SLOW_MOTION_DURATION;
        self.powerups = vec![g.powerup];
        self.enemies = vec![g.enemy];
        self.enemy_bullets = Vec::new();
        assert(self.bullets@ =~= Seq::empty());
        assert(self.enemy_bullets@ =~= Seq::empty());
        assert(self.backgrounds@ =~= seq![g.background]);
        assert(self.powerups@ =~= seq![g.powerup]);
        assert(self.enemies@ =~= seq![g.enemy]);
    }

    /// Resets the whole world, with a random decoration, pickup and enemy.
    pub fn reset(&mut self)
        ensures
            exists|g: Generated| g.valid() && final(self)@ == World::restarted(g),
    {
        let g = Generated::draw();
        self.reset_with(&g);
    }
}

/// `-m <= a <= m`.
fn fits(a: i128, m: i128) -> (r: bool)
    requires
        m >= 0,
    ensures
        r == within(a as int, m as int),
{
    -m <= a && a <= m
}

/// Whether every block lies within `m`.
fn blocks_fit(v: &Vec<Block>, m: i128) -> (r: bool)
    requires
        m >= 0,
    ensures
        r == blocks_within(v@, m as int),
{
    let mut i: usize = 0;
    while i < v.len()
        invariant
            0 <= i <= v@.len(),
            m >= 0,
            blocks_within(v@.take(i as int), m as int),
        decreases v@.len() - i,
    {
        let r = v[i].rect;
        if !(fits(r.x, m) && fits(r.y, m) && 0 <= r.width && r.width <= m && 0 <= r.height
            && r.height <= m) {
            assert(!rect_within(v@[i as int].rect, m as int));
            return false;
        }
        assert(v@.take(i as int + 1) =~= v@.take(i as int).push(v@[i as int]));
        i = i + 1;
    }
    assert(v@.take(i as int) =~= v@);
    true
}

/// Whether every bullet lies within `m` with a speed within `COORD_LIMIT`.
fn bullets_fit(v: &Vec<Bullet>, m: i128) -> (r: bool)
    requires
        m >= 0,
    ensures
        r == bullets_within(v@, m as int),
{
    let mut i: usize = 0;
    while i < v.len()
        invariant
            0 <= i <= v@.len(),
            m >= 0,
            bullets_within(v@.take(i as int), m as int),
        decreases v@.len() - i,
    {
        let b = v[i];
        if !(fits(b.x, m) && fits(b.y, m) && fits(b.speed, COORD_LIMIT)) {
            return false;
        }
        assert(v@.take(i as int + 1) =~= v@.take(i as int).push(v@[i as int]));
        i = i + 1;
    }
    assert(v@.take(i as int) =~= v@);
    true
}

/// Whether every decoration lies within `m`.
fn backgrounds_fit(v: &Vec<Background>, m: i128) -> (r: bool)
    requires
        m >= 0,
    ensures
        r == backgrounds_within(v@, m as int),
{
    let mut i: usize = 0;
    while i < v.len()
        invariant
            0 <= i <= v@.len(),
            m >= 0,
            backgrounds_within(v@.take(i as int), m as int),
        decreases v@.len() - i,
    {
        let b = v[i];
        if !(fits(b.x, m) && fits(b.y, m)) {
            return false;
        }
        assert(v@.take(i as int + 1) =~= v@.take(i as int).push(v@[i as int]));
        i = i + 1;
    }
    assert(v@.take(i as int) =~= v@);
    true
}

/// Whether every pickup lies within `m`.
fn powerups_fit(v: &Vec<Powerup>, m: i128) -> (r: bool)
    requires
        m >= 0,
    ensures
        r == powerups_within(v@, m as int),
{
    let mut i: usize = 0;
    while i < v.len()
        invariant
            0 <= i <= v@.len(),
            m >= 0,
            powerups_within(v@.take(i as int), m as int),
        decreases v@.len() - i,
    {
        let p = v[i];
        if !(fits(p.x, m) && fits(p.y, m)) {
            return false;
        }
        assert(v@.take(i as int + 1) =~= v@.take(i as int).push(v@[i as int]));
        i = i + 1;
    }
    assert(v@.take(i as int) =~= v@);
    true
}

/// Whether every enemy lies within `m`, with its cooldown.
fn enemies_fit(v: &Vec<Enemy>, m: i128) -> (r: bool)
    requires
        m >= 0,
    ensures
        r == enemies_within(v@, m as int),
{
    let mut i: usize = 0;
    while i < v.len()
        invariant
            0 <= i <= v@.len(),
            m >= 0,
            enemies_within(v@.take(i as int), m as int),
        decreases v@.len() - i,
    {
        let e = v[i];
        if !(fits(e.x, m) && fits(e.y, m) && fits(e.cooldown, m)) {
            return false;
        }
        assert(v@.take(i as int + 1) =~= v@.take(i as int).push(v@[i as int]));
        i = i + 1;
    }
    assert(v@.take(i as int) =~= v@);
    true
}

/// Whether every enemy bullet lies within `m`, with its aim.
fn enemy_bullets_fit(v: &Vec<EnemyBullet>, m: i128) -> (r: bool)
    requires
        m >= 0,
    ensures
        r == enemy_bullets_within(v@, m as int),
{
    let mut i: usize = 0;
    while i < v.len()
        invariant
            0 <= i <= v@.len(),
            m >= 0,
            enemy_bullets_within(v@.take(i as int), m as int),
        decreases v@.len() - i,
    {
        let b = v[i];
        if !(fits(b.x, m) && fits(b.y, m) && fits(b.dx, m) && fits(b.dy, m)) {
            return false;
        }
        assert(v@.take(i as int + 1) =~= v@.take(i as int).push(v@[i as int]));
        i = i + 1;
    }
    assert(v@.take(i as int) =~= v@);
    true
}

impl Timeless {
    /// Whether every coordinate, counter and extent lies within `m`, and every
    /// velocity within `COORD_LIMIT`.
    pub fn fits_within(&self, m: i128) -> (r: bool)
        requires
            0 <= m <= WIDE_LIMIT,
        ensures
            r == self@.bounded(m as int),
    {
        let v = COORD_LIMIT;
        let p = self.player;
        fits(p.pos_x, m) && fits(p.pos_y, m) && fits(p.horizontal_speed, v) && fits(
            p.vertical_speed,
            v,
        ) && fits(self.cumulative_horizontal_movement, m) && fits(self.wall_x, m) && fits(
            self.wall_speed,
            v,
        ) && fits(self.block_counter, m) && -WIDE_LIMIT <= self.block_id && self.block_id <= WIDE_LIMIT && fits(
            TILE * self.block_id,
            m,
        ) && fits(self.background_counter, m) && fits(self.powerup_counter, m) && fits(
            self.enemy_counter,
            m,
        ) && fits(self.speed_counter, m) && blocks_fit(&self.blocks, m) && bullets_fit(
            &self.bullets,
            m,
        ) && backgrounds_fit(&self.backgrounds, m) && powerups_fit(&self.powerups, m)
            && enemies_fit(&self.enemies, m) && enemy_bullets_fit(&self.enemy_bullets, m)
    }

    /// Whether every coordinate, velocity and counter lies within
    /// `COORD_LIMIT`, as a tick requires.
    pub fn within_limits(&self) -> (r: bool)
        ensures
            r == self@.bounded(COORD_LIMIT as int),
    {
        self.fits_within(COORD_LIMIT)
    }

    /// Whether the world speed multiplier is normal or slow, as a tick requires.
    pub fn is_well_formed(&self) -> (r: bool)
        ensures
            r == self@.wf(),
    {
        self.speed == NORMAL_SPEED || self.speed == SLOW_SPEED
    }
}

} // verus!
