use vstd::prelude::*;
use crate::entities::{Background, BackgroundKind, Block, Bullet, Enemy, EnemyBullet, Facing, Powerup};
use crate::units::{camera_x, fold_x, UNIT, WIDE_LIMIT};
use crate::world::{rect_within, within, Timeless, World};

verus! {

/// Distance past the player at which the pursuing wall hides the whole screen.
pub const OBSCURE_GAP: i128 = 600 * UNIT;

/// Picture that a sprite shows.
#[derive(Clone, Copy, Debug, PartialEq, Eq, Structural)]
pub enum SpriteKind {
    PlayerRight,
    PlayerLeft,
    Block,
    Background(BackgroundKind),
    Bullet,
    EnemyBullet,
    Enemy,
    Powerup,
    Wall,
}

/// One picture to draw at a screen position, rotated by quarter turns.
#[derive(Clone, Copy, Debug, PartialEq, Eq, Structural)]
pub struct Sprite {
    pub kind: SpriteKind,
    pub x: i128,
    pub y: i128,
    pub quarter_turns: u8,
}

/// Sprite of a decoration.
pub open spec fn background_sprite(b: Background, player_x: int, scroll: int) -> Sprite {
    Sprite {
        kind: SpriteKind::Background(b.kind),
        x: fold_x(b.x as int, player_x, scroll) as i128,
        y: b.y,
        quarter_turns: b.quarter_turns,
    }
}

/// Sprite of a platform tile.
pub open spec fn block_sprite(b: Block, player_x: int, scroll: int) -> Sprite {
    Sprite {
        kind: SpriteKind::Block,
        x: fold_x(b.rect.x as int, player_x, scroll) as i128,
        y: b.rect.y,
        quarter_turns: 0,
    }
}

/// Sprite of a player bullet.
pub open spec fn bullet_sprite(b: Bullet, player_x: int, scroll: int) -> Sprite {
    Sprite { kind: SpriteKind::Bullet, x: fold_x(b.x as int, player_x, scroll) as i128, y: b.y, quarter_turns: 0 }
}

/// Sprite of an enemy bullet.
pub open spec fn enemy_bullet_sprite(b: EnemyBullet, player_x: int, scroll: int) -> Sprite {
    Sprite {
        kind: SpriteKind::EnemyBullet,
        x: fold_x(b.x as int, player_x, scroll) as i128,
        y: b.y,
        quarter_turns: 0,
    }
}

/// Sprite of an enemy, drawn upside down.
pub open spec fn enemy_sprite(e: Enemy, player_x: int, scroll: int) -> Sprite {
    Sprite { kind: SpriteKind::Enemy, x: fold_x(e.x as int, player_x, scroll) as i128, y: e.y, quarter_turns: 2 }
}

/// Sprite of a pickup.
pub open spec fn powerup_sprite(p: Powerup, player_x: int, scroll: int) -> Sprite {
    Sprite { kind: SpriteKind::Powerup, x: fold_x(p.x as int, player_x, scroll) as i128, y: p.y, quarter_turns: 0 }
}

impl World {
    /// Sprite of the player, at its own position, facing its way.
    pub open spec fn player_sprite(self) -> Sprite {
        Sprite {
            kind: match self.player.direction {
                Facing::Right => SpriteKind::PlayerRight,
                Facing::Left => SpriteKind::PlayerLeft,
            },
            x: self.player.pos_x,
            y: self.player.pos_y,
            quarter_turns: 0,
        }
    }

    /// Everything to draw, back to front: decorations, the player, tiles,
    /// player bullets, enemy bullets, enemies, pickups and the pursuing wall.
    pub open spec fn sprites(self) -> Seq<Sprite> {
        let px = self.player.pos_x as int;
        let s = self.cumulative_horizontal_movement as int;
        self.backgrounds.map_values(|b: Background| background_sprite(b, px, s)) + seq![
            self.player_sprite(),
        ] + self.blocks.map_values(|b: Block| block_sprite(b, px, s)) + self.bullets.map_values(
            |b: Bullet| bullet_sprite(b, px, s),
        ) + self.enemy_bullets.map_values(|b: EnemyBullet| enemy_bullet_sprite(b, px, s))
            + self.enemies.map_values(|e: Enemy| enemy_sprite(e, px, s)) + self.powerups.map_values(
            |p: Powerup| powerup_sprite(p, px, s),
        ) + seq![Sprite { kind: SpriteKind::Wall, x: self.wall_x, y: 0, quarter_turns: 0 }]
    }

    /// The pursuing wall is far enough past the player to hide the screen.
    pub open spec fn obscured(self) -> bool {
        self.wall_x - self.player.pos_x + OBSCURE_GAP > 0
    }
}

impl Timeless {
    /// Everything to draw this frame (see `World::sprites`).
    pub fn render_list(&self) -> (out: Vec<Sprite>)
        requires
            self@.bounded(WIDE_LIMIT as int),
        ensures
            out@ == self@.sprites(),
    {
        let ghost w = self@;
        let ghost m = WIDE_LIMIT as int;
        let px = self.player.pos_x;
        let s = self.cumulative_horizontal_movement;
        let mut out: Vec<Sprite> = Vec::new();

        let mut i: usize = 0;
        while i < self.backgrounds.len()
            invariant
                0 <= i <= w.backgrounds.len(),
                self@ == w,
                w.bounded(m),
                m == WIDE_LIMIT,
                px == w.player.pos_x,
                s == w.cumulative_horizontal_movement,
                out@ == w.backgrounds.take(i as int).map_values(
                    |b: Background| background_sprite(b, px as int, s as int),
                ),
            decreases w.backgrounds.len() - i,
        {
            let b = self.backgrounds[i];
            assert(within(w.backgrounds[i as int].x as int, m));
            out.push(Sprite { kind: SpriteKind::Background(b.kind), x: camera_x(b.x, px, s), y: b.y, quarter_turns: b.quarter_turns });
            assert(w.backgrounds.take(i as int + 1) =~= w.backgrounds.take(i as int).push(b));
            i = i + 1;
        }
        assert(w.backgrounds.take(i as int) =~= w.backgrounds);
        let ghost seen = out@;

        let kind = match self.player.direction {
            Facing::Right => SpriteKind::PlayerRight,
            Facing::Left => SpriteKind::PlayerLeft,
        };
        out.push(Sprite { kind, x: px, y: self.player.pos_y, quarter_turns: 0 });
        let ghost seen = out@;
        assert(seen == w.backgrounds.map_values(|b: Background| background_sprite(b, px as int, s as int)) + seq![w.player_sprite()]);

        let mut i: usize = 0;
        while i < self.blocks.len()
            invariant
                0 <= i <= w.blocks.len(),
                self@ == w,
                w.bounded(m),
                m == WIDE_LIMIT,
                px == w.player.pos_x,
                s == w.cumulative_horizontal_movement,
                out@ == seen + w.blocks.take(i as int).map_values(|b: Block| block_sprite(b, px as int, s as int)),
            decreases w.blocks.len() - i,
        {
            let b = self.blocks[i];
            assert(rect_within(w.blocks[i as int].rect, m));
            out.push(Sprite { kind: SpriteKind::Block, x: camera_x(b.rect.x, px, s), y: b.rect.y, quarter_turns: 0 });
            assert(w.blocks.take(i as int + 1) =~= w.blocks.take(i as int).push(b));
            i = i + 1;
        }
        assert(w.blocks.take(i as int) =~= w.blocks);
        let ghost seen = out@;

        let mut i: usize = 0;
        while i < self.bullets.len()
            invariant
                0 <= i <= w.bullets.len(),
                self@ == w,
                w.bounded(m),
                m == WIDE_LIMIT,
                px == w.player.pos_x,
                s == w.cumulative_horizontal_movement,
                out@ == seen + w.bullets.take(i as int).map_values(|b: Bullet| bullet_sprite(b, px as int, s as int)),
            decreases w.bullets.len() - i,
        {
            let b = self.bullets[i];
            assert(within(w.bullets[i as int].x as int, m));
            out.push(Sprite { kind: SpriteKind::Bullet, x: camera_x(b.x, px, s), y: b.y, quarter_turns: 0 });
            assert(w.bullets.take(i as int + 1) =~= w.bullets.take(i as int).push(b));
            i = i + 1;
        }
        assert(w.bullets.take(i as int) =~= w.bullets);
        let ghost seen = out@;

        let mut i: usize = 0;
        while i < self.enemy_bullets.len()
            invariant
                0 <= i <= w.enemy_bullets.len(),
                self@ == w,
                w.bounded(m),
                m == WIDE_LIMIT,
                px == w.player.pos_x,
                s == w.cumulative_horizontal_movement,
                out@ == seen + w.enemy_bullets.take(i as int).map_values(
                    |b: EnemyBullet| enemy_bullet_sprite(b, px as int, s as int),
                ),
            decreases w.enemy_bullets.len() - i,
        {
            let b = self.enemy_bullets[i];
            assert(within(w.enemy_bullets[i as int].x as int, m));
            out.push(Sprite { kind: SpriteKind::EnemyBullet, x: camera_x(b.x, px, s), y: b.y, quarter_turns: 0 });
            assert(w.enemy_bullets.take(i as int + 1) =~= w.enemy_bullets.take(i as int).push(b));
            i = i + 1;
        }
        assert(w.enemy_bullets.take(i as int) =~= w.enemy_bullets);
        let ghost seen = out@;

        let mut i: usize = 0;
        while i < self.enemies.len()
            invariant
                0 <= i <= w.enemies.len(),
                self@ == w,
                w.bounded(m),
                m == WIDE_LIMIT,
                px == w.player.pos_x,
                s == w.cumulative_horizontal_movement,
                out@ == seen + w.enemies.take(i as int).map_values(|e: Enemy| enemy_sprite(e, px as int, s as int)),
            decreases w.enemies.len() - i,
        {
            let e = self.enemies[i];
            assert(within(w.enemies[i as int].x as int, m));
            out.push(Sprite { kind: SpriteKind::Enemy, x: camera_x(e.x, px, s), y: e.y, quarter_turns: 2 });
            assert(w.enemies.take(i as int + 1) =~= w.enemies.take(i as int).push(e));
            i = i + 1;
        }
        assert(w.enemies.take(i as int) =~= w.enemies);
        let ghost seen = out@;

        let mut i: usize = 0;
        while i < self.powerups.len()
            invariant
                0 <= i <= w.powerups.len(),
                self@ == w,
                w.bounded(m),
                m == WIDE_LIMIT,
                px == w.player.pos_x,
                s == w.cumulative_horizontal_movement,
                out@ == seen + w.powerups.take(i as int).map_values(|p: Powerup| powerup_sprite(p, px as int, s as int)),
            decreases w.powerups.len() - i,
        {
            let p = self.powerups[i];
            assert(within(w.powerups[i as int].x as int, m));
            out.push(Sprite { kind: SpriteKind::Powerup, x: camera_x(p.x, px, s), y: p.y, quarter_turns: 0 });
            assert(w.powerups.take(i as int + 1) =~= w.powerups.take(i as int).push(p));
            i = i + 1;
        }
        assert(w.powerups.take(i as int) =~= w.powerups);

        out.push(Sprite { kind: SpriteKind::Wall, x: self.wall_x, y: 0, quarter_turns: 0 });
        assert(out@ =~= w.sprites());
        out
    }

    /// Whether the pursuing wall hides the whole screen this frame.
    pub fn is_obscured(&self) -> (r: bool)
        requires
            self@.bounded(WIDE_LIMIT as int),
        ensures
            r == self@.obscured(),
    {
        self.wall_x - self.player.pos_x + OBSCURE_GAP > 0
    }
}

} // verus!
