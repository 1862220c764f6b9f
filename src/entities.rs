use vstd::prelude::*;
use crate::units::UNIT;

verus! {

/// Player's x when a run starts.
pub const PLAYER_INITIAL_X: i128 = 45 * UNIT;
/// Player's y when a run starts.
pub const PLAYER_INITIAL_Y: i128 = 0;

/// Horizontal speed while walking, per second.
pub const WALK_SPEED: i128 = 160 * UNIT;
/// Horizontal speed while running (two and a half times walking), per second.
pub const RUN_SPEED: i128 = 400 * UNIT;
/// Vertical speed right after a jump, per second (negative is upward).
pub const JUMP_SPEED: i128 = -280 * UNIT;
/// Largest downward speed, per second.
pub const MAX_FALL_SPEED: i128 = 250 * UNIT;
/// Downward acceleration, per second per second.
pub const GRAVITY: i128 = 420 * UNIT;

/// Edge of one square platform tile.
pub const TILE: i128 = 128 * UNIT;

/// Speed of a fired bullet, per second.
pub const BULLET_SPEED: i128 = 800 * UNIT;
/// Offset from the player's corner at which a bullet appears, along x.
pub const MUZZLE_DX: i128 = 32 * UNIT;
/// Offset from the player's corner at which a bullet appears, along y.
pub const MUZZLE_DY: i128 = 16 * UNIT;

/// Travel between two shots of one enemy.
pub const ENEMY_COOLDOWN: i128 = 300 * UNIT;
/// Height at which enemies hover.
pub const ENEMY_Y: i128 = 64 * UNIT;

/// Way the player faces.
#[derive(Clone, Copy, Debug, PartialEq, Eq, Structural)]
pub enum Facing {
    Left,
    Right,
}

impl Facing {
    /// -1 for left, +1 for right.
    pub open spec fn sign(self) -> int {
        match self {
            Facing::Left => -1,
            Facing::Right => 1,
        }
    }
}

/// Kinematic state of the player.
#[derive(Clone, Copy, Debug, PartialEq, Eq, Structural)]
pub struct Player {
    pub pos_x: i128,
    pub pos_y: i128,
    pub direction: Facing,
    /// Resting on a platform.
    pub standing: bool,
    /// Per second; positive is downward.
    pub vertical_speed: i128,
    /// Per second; set by input and spent within one tick.
    pub horizontal_speed: i128,
    /// Blocked by a wall on the right; cleared once no block overlaps the player.
    pub collides_right: bool,
    /// Blocked by a wall on the left; cleared once no block overlaps the player.
    pub collides_left: bool,
}

impl Player {
    /// The player at the start of a run.
    pub open spec fn initial() -> Player {
        Player {
            pos_x: PLAYER_INITIAL_X,
            pos_y: PLAYER_INITIAL_Y,
            direction: Facing::Right,
            standing: false,
            vertical_speed: 0,
            horizontal_speed: 0,
            collides_right: false,
            collides_left: false,
        }
    }

    /// A player with the given state.
    pub fn new(
        pos_x: i128,
        pos_y: i128,
        direction: Facing,
        standing: bool,
        vertical_speed: i128,
        horizontal_speed: i128,
        collides_right: bool,
        collides_left: bool,
    ) -> (p: Player)
        ensures
            p == (Player {
                pos_x,
                pos_y,
                direction,
                standing,
                vertical_speed,
                horizontal_speed,
                collides_right,
                collides_left,
            }),
    {
        Player {
            pos_x,
            pos_y,
            direction,
            standing,
            vertical_speed,
            horizontal_speed,
            collides_right,
            collides_left,
        }
    }

    /// Shifts the player along x by `distance`.
    pub fn move_horizontally(&mut self, distance: i128)
        requires
            i128::MIN <= old(self).pos_x + distance <= i128::MAX,
        ensures
            *final(self) == (Player { pos_x: (old(self).pos_x + distance) as i128, ..*old(self) }),
    {
        self.pos_x = self.pos_x + distance;
    }

    /// Puts the player back to the start of a run.
    pub fn reset(&mut self)
        ensures
            *final(self) == Player::initial(),
    {
        self.pos_x = PLAYER_INITIAL_X;
        self.pos_y = PLAYER_INITIAL_Y;
        self.direction = Facing::Right;
        self.standing = false;
        self.horizontal_speed = 0;
        self.vertical_speed = 0;
        self.collides_left = false;
        self.collides_right = false;
    }
}

/// A platform tile of the terrain.
#[derive(Clone, Copy, Debug, PartialEq, Eq, Structural)]
pub struct Block {
    /// Bounds in absolute world coordinates.
    pub rect: crate::geometry::Rectangle,
}

impl Block {
    /// A block occupying `rect`.
    pub fn new(rect: crate::geometry::Rectangle) -> (b: Block)
        ensures
            b.rect == rect,
    {
        Block { rect }
    }
}

/// Picture of a background decoration.
#[derive(Clone, Copy, Debug, PartialEq, Eq, Structural)]
pub enum BackgroundKind {
    First,
    Second,
    Third,
}

/// Cosmetic decoration behind the terrain.
#[derive(Clone, Copy, Debug, PartialEq, Eq, Structural)]
pub struct Background {
    pub x: i128,
    pub y: i128,
    pub kind: BackgroundKind,
    /// Rotation in quarter turns, 0 to 3.
    pub quarter_turns: u8,
}

impl Background {
    /// A decoration with the given placement, picture and rotation.
    pub fn new(x: i128, y: i128, kind: BackgroundKind, quarter_turns: u8) -> (b: Background)
        ensures
            b == (Background { x, y, kind, quarter_turns }),
    {
        Background { x, y, kind, quarter_turns }
    }
}

/// A shot fired by the player; it flies straight and hits nothing.
#[derive(Clone, Copy, Debug, PartialEq, Eq, Structural)]
pub struct Bullet {
    /// Per second.
    pub speed: i128,
    pub x: i128,
    pub y: i128,
    pub direction: Facing,
}

/// A pickup that slows the world down when collected.
#[derive(Clone, Copy, Debug, PartialEq, Eq, Structural)]
pub struct Powerup {
    pub x: i128,
    pub y: i128,
}

/// A hovering enemy that fires at the player.
#[derive(Clone, Copy, Debug, PartialEq, Eq, Structural)]
pub struct Enemy {
    pub x: i128,
    pub y: i128,
    /// Player travel left before the next shot.
    pub cooldown: i128,
}

/// A shot fired by an enemy; touching it ends the run.
#[derive(Clone, Copy, Debug, PartialEq, Eq, Structural)]
pub struct EnemyBullet {
    pub x: i128,
    pub y: i128,
    /// Aim along x, nine times the distance covered per second at normal speed.
    pub dx: i128,
    /// Aim along y, nine times the distance covered per second at normal speed.
    pub dy: i128,
}

} // verus!
