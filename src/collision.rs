//! Collision resolution between the player and the platform tiles: the wall pass,
//! the sticky flag refresh, the landing pass and the support pass.
use vstd::prelude::*;
use crate::entities::{Block, Player};
use crate::geometry::{CollisionDirection, Rectangle};
use crate::units::{COORD_LIMIT, UNIT, camera_x, fold_x};
use crate::world::{Timeless, World, rect_within, within};

verus! {

/// Width of the player's body probe.
pub const PROBE_WIDTH: i128 = 64 * UNIT;

/// Height of the probe used against walls, pickups and enemy bullets.
pub const PROBE_HEIGHT: i128 = 56 * UNIT;

/// Height of the player's body.
pub const BODY_HEIGHT: i128 = 64 * UNIT;

/// Inset of the landing probe from the player's left edge.
pub const LANDING_INSET: i128 = 11 * UNIT;

/// Width of the landing probe.
pub const LANDING_WIDTH: i128 = 42 * UNIT;

/// Probe of the player's body used against walls, pickups and enemy bullets.
pub open spec fn player_probe(p: Player) -> Rectangle {
    Rectangle { x: p.pos_x, y: p.pos_y, width: PROBE_WIDTH, height: PROBE_HEIGHT }
}

/// Block rectangle as collision tests see it: camera-folded like every entity.
pub open spec fn block_seen(b: Block, player_x: int, scroll: int) -> Rectangle {
    Rectangle { x: fold_x(b.rect.x as int, player_x, scroll) as i128, ..b.rect }
}

/// One block of the wall pass: where the probe overlaps it, the probe is
/// pushed out sideways, the player is put just beside it with speed into it
/// dropped, and the flag of the side that is now blocked is set (a push to
/// the block's left blocks the player's right).
pub open spec fn wall_contact(p: Player, probe: Rectangle, b: Block, scroll: int, nudge: int) -> (
    Player,
    Rectangle,
) {
    let rect = block_seen(b, p.pos_x as int, scroll);
    if probe.overlaps(rect) {
        let moved = probe.pushed_out_horizontally(rect);
        match probe.horizontal_side(rect) {
            CollisionDirection::Left => (
                Player {
                    horizontal_speed: if p.horizontal_speed > 0 { 0 } else { p.horizontal_speed },
                    pos_x: (moved.x - nudge) as i128,
                    collides_right: true,
                    ..p
                },
                moved,
            ),
            CollisionDirection::Right => (
                Player {
                    horizontal_speed: if p.horizontal_speed < 0 { 0 } else { p.horizontal_speed },
                    pos_x: (moved.x + nudge) as i128,
                    collides_left: true,
                    ..p
                },
                moved,
            ),
        }
    } else {
        (p, probe)
    }
}

/// The wall pass over `blocks` in order, one sweep.
pub open spec fn wall_contacts(
    p: Player,
    probe: Rectangle,
    blocks: Seq<Block>,
    scroll: int,
    nudge: int,
) -> (Player, Rectangle)
    decreases blocks.len(),
{
    if blocks.len() == 0 {
        (p, probe)
    } else {
        let (before, probe_before) = wall_contacts(p, probe, blocks.drop_last(), scroll, nudge);
        wall_contact(before, probe_before, blocks.last(), scroll, nudge)
    }
}

/// Some block, folded for the player at `player_x`, overlaps `probe`.
pub open spec fn any_block_overlaps(blocks: Seq<Block>, probe: Rectangle, player_x: int, scroll: int) -> bool {
    exists|i: int|
        0 <= i < blocks.len() && probe.overlaps(block_seen(#[trigger] blocks[i], player_x, scroll))
}

/// Probe of the player's lower body used to detect landing.
pub open spec fn landing_probe(p: Player) -> Rectangle {
    Rectangle { x: (p.pos_x + LANDING_INSET) as i128, y: p.pos_y, width: LANDING_WIDTH, height: BODY_HEIGHT }
}

/// Probe of the player's whole body used to detect losing support.
pub open spec fn support_probe(p: Player) -> Rectangle {
    Rectangle { x: p.pos_x, y: p.pos_y, width: PROBE_WIDTH, height: BODY_HEIGHT }
}

/// One block of the landing pass: where the probe overlaps it, a falling
/// player stops and stands, and the probe is pushed out of the block.
pub open spec fn landing_contact(p: Player, probe: Rectangle, b: Block, player_x: int, scroll: int) -> (
    Player,
    Rectangle,
) {
    let rect = block_seen(b, player_x, scroll);
    if probe.overlaps(rect) {
        let stopped = if p.vertical_speed > 0 {
            Player { vertical_speed: 0, standing: true, ..p }
        } else {
            p
        };
        (stopped, probe.pushed_out_of(rect))
    } else {
        (p, probe)
    }
}

/// The landing pass over `blocks` in order, one sweep.
pub open spec fn landing_contacts(
    p: Player,
    probe: Rectangle,
    blocks: Seq<Block>,
    player_x: int,
    scroll: int,
) -> (Player, Rectangle)
    decreases blocks.len(),
{
    if blocks.len() == 0 {
        (p, probe)
    } else {
        let (before, probe_before) = landing_contacts(p, probe, blocks.drop_last(), player_x, scroll);
        landing_contact(before, probe_before, blocks.last(), player_x, scroll)
    }
}

/// One block of the support pass: an overlap is recorded and the probe is
/// pushed out of the block.
pub open spec fn support_contact(found: bool, probe: Rectangle, b: Block, player_x: int, scroll: int) -> (
    bool,
    Rectangle,
) {
    let rect = block_seen(b, player_x, scroll);
    if probe.overlaps(rect) {
        (true, probe.pushed_out_of(rect))
    } else {
        (found, probe)
    }
}

/// The support pass over `blocks` in order, one sweep.
pub open spec fn support_contacts(
    found: bool,
    probe: Rectangle,
    blocks: Seq<Block>,
    player_x: int,
    scroll: int,
) -> (bool, Rectangle)
    decreases blocks.len(),
{
    if blocks.len() == 0 {
        (found, probe)
    } else {
        let (found_before, probe_before) = support_contacts(found, probe, blocks.drop_last(), player_x, scroll);
        support_contact(found_before, probe_before, blocks.last(), player_x, scroll)
    }
}

impl World {
    /// The landing pass, made only while the player is airborne.
    pub open spec fn landed(self) -> World {
        let p = self.player;
        if !p.standing {
            World {
                player: landing_contacts(
                    p,
                    landing_probe(p),
                    self.blocks,
                    p.pos_x as int,
                    self.cumulative_horizontal_movement as int,
                ).0,
                ..self
            }
        } else {
            self
        }
    }

    /// The support pass, made only while the player stands: with no block
    /// under the player, the player becomes airborne.
    pub open spec fn support_checked(self) -> World {
        let p = self.player;
        if p.standing && !support_contacts(
            false,
            support_probe(p),
            self.blocks,
            p.pos_x as int,
            self.cumulative_horizontal_movement as int,
        ).0 {
            World { player: Player { standing: false, ..p }, ..self }
        } else {
            self
        }
    }

    /// Result of the wall pass: the player, and the probe where it ended.
    pub open spec fn wall_pass(self, nudge: int) -> (Player, Rectangle) {
        wall_contacts(
            self.player,
            player_probe(self.player),
            self.blocks,
            self.cumulative_horizontal_movement as int,
            nudge,
        )
    }

    /// The world after the wall pass.
    pub open spec fn walls_resolved(self, nudge: int) -> World {
        World { player: self.wall_pass(nudge).0, ..self }
    }

    /// Sticky flags cleared when set while no block overlaps the player's probe.
    pub open spec fn contacts_refreshed(self) -> World {
        let p = self.player;
        if (p.collides_left || p.collides_right) && !any_block_overlaps(
            self.blocks,
            player_probe(p),
            p.pos_x as int,
            self.cumulative_horizontal_movement as int,
        ) {
            World { player: Player { collides_left: false, collides_right: false, ..p }, ..self }
        } else {
            self
        }
    }
}

impl Timeless {
    /// The wall pass (see `wall_contacts`): returns the probe where it ended.
    pub fn resolve_walls(&mut self, nudge: i128) -> (probe: Rectangle)
        requires
            old(self)@.bounded(4 * COORD_LIMIT),
            0 <= nudge <= COORD_LIMIT,
        ensures
            (final(self)@.player, probe) == old(self)@.wall_pass(nudge as int),
            final(self)@ == old(self)@.walls_resolved(nudge as int),
            final(self)@.bounded(32 * COORD_LIMIT),
            probe.y == old(self).player.pos_y,
            probe.width == PROBE_WIDTH,
            probe.height == PROBE_HEIGHT,
            -32 * COORD_LIMIT <= probe.x <= 32 * COORD_LIMIT,
    {
        let ghost w0 = self@;
        let ghost m: int = 4 * COORD_LIMIT;
        let mut probe = Rectangle {
            x: self.player.pos_x,
            y: self.player.pos_y,
            width: PROBE_WIDTH,
            height: PROBE_HEIGHT,
        };
        let scroll = self.cumulative_horizontal_movement;
        let mut i: usize = 0;
        while i < self.blocks.len()
            invariant
                0 <= i <= self.blocks@.len(),
                self.blocks@ == w0.blocks,
                scroll == w0.cumulative_horizontal_movement,
                self@ == (World { player: self.player, ..w0 }),
                w0.bounded(m),
                m == 4 * COORD_LIMIT,
                0 <= nudge <= COORD_LIMIT,
                (self.player, probe) == wall_contacts(
                    w0.player,
                    player_probe(w0.player),
                    w0.blocks.take(i as int),
                    scroll as int,
                    nudge as int,
                ),
                -4 * m <= probe.x <= 4 * m,
                probe.x - nudge <= self.player.pos_x <= probe.x + nudge,
                probe.y == w0.player.pos_y,
                probe.width == PROBE_WIDTH,
                probe.height == PROBE_HEIGHT,
                self.player.pos_y == w0.player.pos_y,
                self.player.vertical_speed == w0.player.vertical_speed,
                within(self.player.horizontal_speed as int, COORD_LIMIT as int),
            decreases self.blocks@.len() - i,
        {
            let b = self.blocks[i];
            assert(w0.blocks.take(i as int + 1).drop_last() =~= w0.blocks.take(i as int));
            assert(w0.blocks.take(i as int + 1).last() == b);
            assert(crate::world::rect_within(w0.blocks[i as int].rect, m));
            let x = camera_x(b.rect.x, self.player.pos_x, scroll);
            let rect = Rectangle { x, ..b.rect };
            if probe.intersects_horizontally(&rect) {
                let side = probe.resolve_horizontal_collision(&rect);
                match side {
                    CollisionDirection::Left => {
                        if self.player.horizontal_speed > 0 {
                            self.player.horizontal_speed = 0;
                        }
                        self.player.pos_x = probe.x - nudge;
                        self.player.collides_right = true;
                    },
                    CollisionDirection::Right => {
                        if self.player.horizontal_speed < 0 {
                            self.player.horizontal_speed = 0;
                        }
                        self.player.pos_x = probe.x + nudge;
                        self.player.collides_left = true;
                    },
                }
            }
            i = i + 1;
        }
        assert(w0.blocks.take(i as int) =~= w0.blocks);
        probe
    }

    /// Clears both sticky flags when set while no block overlaps the player's
    /// probe (see `World::contacts_refreshed`).
    pub fn refresh_contacts(&mut self)
        requires
            old(self)@.bounded(32 * COORD_LIMIT),
        ensures
            final(self)@ == old(self)@.contacts_refreshed(),
            !any_block_overlaps(
                old(self)@.blocks,
                player_probe(old(self).player),
                old(self).player.pos_x as int,
                old(self).cumulative_horizontal_movement as int,
            ) ==> !final(self).player.collides_left && !final(self).player.collides_right,
    {
        if self.player.collides_left || self.player.collides_right {
            let ghost w0 = self@;
            let probe = Rectangle {
                x: self.player.pos_x,
                y: self.player.pos_y,
                width: PROBE_WIDTH,
                height: PROBE_HEIGHT,
            };
            let px = self.player.pos_x;
            let scroll = self.cumulative_horizontal_movement;
            let mut collision = false;
            let mut i: usize = 0;
            while i < self.blocks.len()
                invariant
                    0 <= i <= self.blocks@.len(),
                    self@ == w0,
                    w0.bounded(32 * COORD_LIMIT),
                    probe == player_probe(w0.player),
                    px == w0.player.pos_x,
                    scroll == w0.cumulative_horizontal_movement,
                    collision == exists|j: int|
                        0 <= j < i && probe.overlaps(
                            block_seen(#[trigger] w0.blocks[j], px as int, scroll as int),
                        ),
                decreases self.blocks@.len() - i,
            {
                let b = self.blocks[i];
                assert(crate::world::rect_within(w0.blocks[i as int].rect, 32 * COORD_LIMIT));
                let x = camera_x(b.rect.x, px, scroll);
                let rect = Rectangle { x, ..b.rect };
                if probe.intersects_horizontally(&rect) {
                    collision = true;
                }
                i = i + 1;
            }
            if !collision {
                self.player.collides_left = false;
                self.player.collides_right = false;
            }
        }
    }

    /// The landing pass while airborne (see `World::landed`).
    pub fn land(&mut self)
        requires
            old(self)@.bounded(0x4000 * COORD_LIMIT),
        ensures
            final(self)@ == old(self)@.landed(),
            final(self)@.bounded(0x4000 * COORD_LIMIT),
    {
        if !self.player.standing {
            let ghost w0 = self@;
            let ghost m: int = 0x4000 * COORD_LIMIT;
            let px = self.player.pos_x;
            let scroll = self.cumulative_horizontal_movement;
            let mut probe = Rectangle {
                x: px + LANDING_INSET,
                y: self.player.pos_y,
                width: LANDING_WIDTH,
                height: BODY_HEIGHT,
            };
            let mut i: usize = 0;
            while i < self.blocks.len()
                invariant
                    0 <= i <= self.blocks@.len(),
                    self.blocks@ == w0.blocks,
                    self@ == (World { player: self.player, ..w0 }),
                    w0.bounded(m),
                    m == 0x4000 * COORD_LIMIT,
                    px == w0.player.pos_x,
                    scroll == w0.cumulative_horizontal_movement,
                    (self.player, probe) == landing_contacts(
                        w0.player,
                        landing_probe(w0.player),
                        w0.blocks.take(i as int),
                        px as int,
                        scroll as int,
                    ),
                    self.player == (Player {
                        vertical_speed: self.player.vertical_speed,
                        standing: self.player.standing,
                        ..w0.player
                    }),
                    within(self.player.vertical_speed as int, COORD_LIMIT as int),
                    -5 * m <= probe.x <= 5 * m,
                    -3 * m <= probe.y <= 3 * m,
                    probe.width == LANDING_WIDTH,
                    probe.height == BODY_HEIGHT,
                decreases self.blocks@.len() - i,
            {
                let b = self.blocks[i];
                assert(w0.blocks.take(i as int + 1).drop_last() =~= w0.blocks.take(i as int));
                assert(w0.blocks.take(i as int + 1).last() == b);
                assert(rect_within(w0.blocks[i as int].rect, m));
                let x = camera_x(b.rect.x, px, scroll);
                let rect = Rectangle { x, ..b.rect };
                if probe.intersects(&rect) {
                    if self.player.vertical_speed > 0 {
                        self.player.vertical_speed = 0;
                        self.player.standing = true;
                    }
                    probe.resolve_collision(&rect);
                }
                i = i + 1;
            }
            assert(w0.blocks.take(i as int) =~= w0.blocks);
        }
    }

    /// The support pass while standing (see `World::support_checked`).
    pub fn check_support(&mut self)
        requires
            old(self)@.bounded(0x4000 * COORD_LIMIT),
        ensures
            final(self)@ == old(self)@.support_checked(),
            final(self)@.bounded(0x4000 * COORD_LIMIT),
    {
        if self.player.standing {
            let ghost w0 = self@;
            let ghost m: int = 0x4000 * COORD_LIMIT;
            let px = self.player.pos_x;
            let scroll = self.cumulative_horizontal_movement;
            let mut probe = Rectangle {
                x: px,
                y: self.player.pos_y,
                width: PROBE_WIDTH,
                height: BODY_HEIGHT,
            };
            let mut found = false;
            let mut i: usize = 0;
            while i < self.blocks.len()
                invariant
                    0 <= i <= self.blocks@.len(),
                    self@ == w0,
                    w0.bounded(m),
                    m == 0x4000 * COORD_LIMIT,
                    px == w0.player.pos_x,
                    scroll == w0.cumulative_horizontal_movement,
                    (found, probe) == support_contacts(
                        false,
                        support_probe(w0.player),
                        w0.blocks.take(i as int),
                        px as int,
                        scroll as int,
                    ),
                    -5 * m <= probe.x <= 5 * m,
                    -3 * m <= probe.y <= 3 * m,
                    probe.width == PROBE_WIDTH,
                    probe.height == BODY_HEIGHT,
                decreases self.blocks@.len() - i,
            {
                let b = self.blocks[i];
                assert(w0.blocks.take(i as int + 1).drop_last() =~= w0.blocks.take(i as int));
                assert(w0.blocks.take(i as int + 1).last() == b);
                assert(rect_within(w0.blocks[i as int].rect, m));
                let x = camera_x(b.rect.x, px, scroll);
                let rect = Rectangle { x, ..b.rect };
                if probe.intersects(&rect) {
                    found = true;
                    probe.resolve_collision(&rect);
                }
                i = i + 1;
            }
            assert(w0.blocks.take(i as int) =~= w0.blocks);
            if !found {
                self.player.standing = false;
            }
        }
    }
}

} // verus!
