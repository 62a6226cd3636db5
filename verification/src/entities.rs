//! The three entity kinds of the game — paddle, block, ball — with their
//! fixed dimensions, movement rules and creation.
//!
//! Units: positions and sizes in micropixels (1 pixel = 1_000_000), velocity
//! directions in thousandths of a unit vector, frame times in milliseconds.

use vstd::prelude::*;
use crate::geom::{Rect, Vec2};
use crate::collide::speed_sq;
use crate::rng::gen_signed;

verus! {

/// One pixel, in micropixels.
pub const PX: i64 = 1_000_000;

/// Side length of a ball's square, 50 px.
pub const BALL_SIZE: i64 = 50_000_000;

/// Ball speed, in pixels per second.
pub const BALL_SPEED: i64 = 400;

/// Block extent, 100 px by 40 px.
pub const BLOCK_W: i64 = 100_000_000;

pub const BLOCK_H: i64 = 40_000_000;

/// Paddle extent, 150 px by 40 px.
pub const PLAYER_W: i64 = 150_000_000;

pub const PLAYER_H: i64 = 40_000_000;

/// Paddle speed: 700 px per second is 700_000 micropixels per millisecond.
pub const PLAYER_STEP: i64 = 700_000;

/// Length of a unit direction vector, in thousandths.
pub const VEL_UNIT: i64 = 1_000;

/// Squared length of a unit direction vector.
pub const VEL_UNIT_SQ: i64 = 1_000_000;

/// Longest frame the simulation accepts, in milliseconds. One frame's travel
/// must stay below the narrowest play field, so that a ball crossing the
/// field cannot jump over it in a single frame.
pub const DT_MAX: i64 = 1_000;

/// Farthest a ball can travel in one frame: VEL_UNIT * BALL_SPEED * DT_MAX.
pub const STEP_MAX: i64 = 400_000_000;

/// Screen extents the simulation accepts: wide enough for the block grid and
/// tall enough for the paddle row, at most a million pixels on a side.
pub const SCREEN_W_MIN: i64 = 630_000_000;

pub const SCREEN_H_MIN: i64 = 200_000_000;

pub const SCREEN_MAX: i64 = 1_000_000_000_000;

/// Once a ball's top edge is within 100 px of the screen bottom it has fallen
/// past the paddle and is removed.
pub const LOSS_MARGIN: i64 = 100_000_000;

/// The paddle sits 100 px above the screen bottom.
pub const PLAYER_Y_OFFSET: i64 = 100_000_000;

/// A resting ball coordinate never exceeds this above or to either side of
/// the play field: walls turn the velocity back and collisions happen only
/// near on-screen bodies.
pub const POS_GUARD: i64 = 10_000_000_000_000;

/// Hard bound on any ball coordinate, mid-frame positions included.
pub const POS_LIMIT: i64 = 20_000_000_000_000;

/// A ball can sit at most this far beyond a vertical wall: one collision push
/// plus one frame of travel.
pub const X_SLACK: i64 = 1_000_000_000;

/// Right after a collision the ball is within half this of the body it hit.
pub const BODY_ANCHOR: i64 = 500_000_000;

/// How far above the top wall a ball can climb while hugging a vertical wall
/// (where the top-wall check is skipped) near the play field.
pub const DRIFT_NEAR: i64 = 5_000_000_000;

/// The same while recovering from beyond the left wall.
pub const DRIFT_LEFT: i64 = 6_000_000_000;

/// The narrowest play field a ball can fly over; below this x a leftward ball
/// is inside every admissible screen.
pub const CROSS_MIN: i64 = 580_000_000;

/// A leftward ball far to the right may climb while it crosses back over a
/// shrunken screen: at most one screen width plus slack.
pub const DRIFT_FAR: i64 = 1_008_000_000_000;

/// Absolute floor on a ball's y coordinate.
pub const Y_FLOOR: i64 = 1_010_000_000_000;

pub open spec fn screen_ok(screen_w: i64, screen_h: i64) -> bool {
    SCREEN_W_MIN <= screen_w <= SCREEN_MAX && SCREEN_H_MIN <= screen_h <= SCREEN_MAX
}

pub open spec fn dt_ok(dt: i64) -> bool {
    0 <= dt <= DT_MAX
}

/// A unit direction: squared length exactly one unit.
pub open spec fn is_unit(v: Vec2) -> bool {
    speed_sq(v) == VEL_UNIT_SQ
}

/// The paddle. Owns its rectangle; moved horizontally by input, clamped to
/// the screen.
#[derive(Clone, Copy, PartialEq, Eq, Structural, Debug)]
pub struct Player {
    pub rect: Rect,
}

/// What a block does when destroyed.
#[derive(Clone, Copy, PartialEq, Eq, Structural, Debug)]
pub enum BlockType {
    Regular,
    SpawnBallOnDeath,
}

/// One block of the grid: fixed rectangle, remaining lives, kind.
#[derive(Clone, Copy, PartialEq, Eq, Structural, Debug)]
pub struct Block {
    pub rect: Rect,
    pub lives: i64,
    pub block_type: BlockType,
}

/// A ball: a square rectangle and a velocity direction.
#[derive(Clone, Copy, PartialEq, Eq, Structural, Debug)]
pub struct Ball {
    pub rect: Rect,
    pub vel: Vec2,
}

pub open spec fn player_wf(p: Player) -> bool {
    &&& p.rect.w == PLAYER_W
    &&& p.rect.h == PLAYER_H
    &&& 0 <= p.rect.x <= SCREEN_MAX
    &&& 0 <= p.rect.y <= SCREEN_MAX
}

pub open spec fn block_wf(b: Block) -> bool {
    &&& b.rect.w == BLOCK_W
    &&& b.rect.h == BLOCK_H
    &&& 0 <= b.rect.x <= SCREEN_MAX
    &&& 0 <= b.rect.y <= SCREEN_MAX
    &&& 0 <= b.lives
}

/// Velocity components never exceed one unit in magnitude: creation yields a
/// unit vector, bounces flip signs, and the walls force full units.
pub open spec fn ball_vel_ok(b: Ball) -> bool {
    &&& -VEL_UNIT <= b.vel.x <= VEL_UNIT
    &&& -VEL_UNIT <= b.vel.y <= VEL_UNIT
}

/// Where a ball can be, given its velocity. Horizontally: only a ball forced
/// to a full unit by a wall can be far beyond that wall. Vertically: a ball
/// can climb past the top only while a vertical-wall correction is
/// outstanding (the wall checks take precedence over the top check), and how
/// far is bounded by how long that correction can last — a short recovery
/// near the left wall, or at most one crossing of a shrunken screen for a
/// leftward ball far to the right. Every bound is re-established by the walls,
/// by the fallen-ball removal, or by a collision (which happens only within
/// half a `BODY_ANCHOR` of an on-screen body).
pub open spec fn ball_bounds(b: Ball) -> bool {
    let x = b.rect.x as int;
    let y = b.rect.y as int;
    let vx = b.vel.x as int;
    let vy = b.vel.y as int;
    &&& (vx < VEL_UNIT ==> x >= -X_SLACK)
    &&& (vx > -VEL_UNIT ==> x <= SCREEN_MAX + X_SLACK)
    &&& -X_SLACK - STEP_MAX <= x <= SCREEN_MAX + X_SLACK + STEP_MAX
    &&& (vy < 0 && x < 0 ==> (vx == VEL_UNIT && x + y >= -DRIFT_LEFT)
        || (y >= -BODY_ANCHOR && x >= -BODY_ANCHOR))
    &&& (vy < 0 && vx == -VEL_UNIT && x >= CROSS_MIN ==> y >= x - DRIFT_FAR)
    &&& (vy < 0 && vx == -VEL_UNIT && 0 <= x < CROSS_MIN ==> y >= -DRIFT_NEAR)
    &&& (vy < 0 && vx != -VEL_UNIT && x >= 0 ==> y >= -DRIFT_NEAR)
    &&& (vy == 0 ==> y >= -DRIFT_NEAR)
    &&& y >= -Y_FLOOR
}

/// A ball mid-frame: after its movement but before the fallen-ball pass its
/// y coordinate may exceed the resting bound by one frame's travel.
pub open spec fn ball_mid(b: Ball) -> bool {
    &&& b.rect.w == BALL_SIZE
    &&& b.rect.h == BALL_SIZE
    &&& ball_vel_ok(b)
    &&& ball_bounds(b)
    &&& b.rect.y <= POS_LIMIT
}

/// A ball at a frame boundary: additionally its top edge is at most a resting
/// bound below the top (fallen balls have been removed).
pub open spec fn ball_wf(b: Ball) -> bool {
    ball_mid(b) && b.rect.y <= POS_GUARD
}

/// The exact movement rule of a ball over one frame: the position advances by
/// velocity times speed times elapsed time; then the first wall check that
/// fires forces its velocity component back toward the play field — past the
/// left wall: +1 unit; else past the right wall: -1 unit; else past the top
/// wall: +1 unit. The checks form one chain, so at most one fires per frame,
/// and the top check runs only when neither vertical wall was crossed. There
/// is no bottom wall — falling out below is how a ball is lost.
pub open spec fn ball_updated(b: Ball, dt: i64, screen_w: i64) -> Ball {
    let x = b.rect.x + b.vel.x * BALL_SPEED * dt;
    let y = b.rect.y + b.vel.y * BALL_SPEED * dt;
    let vx = if x < 0 { VEL_UNIT as int } else if x > screen_w - BALL_SIZE { -VEL_UNIT as int } else { b.vel.x as int };
    let vy = if 0 <= x <= screen_w - BALL_SIZE && y < 0 { VEL_UNIT as int } else { b.vel.y as int };
    Ball {
        rect: Rect { x: x as i64, y: y as i64, w: b.rect.w, h: b.rect.h },
        vel: Vec2 { x: vx as i64, y: vy as i64 },
    }
}

impl Ball {
    /// A new ball at `pos`, its heading drawn at random: always an exact
    /// unit direction, downward, within about 37 degrees of vertical (the
    /// steepest heading is the exact integer unit vector (600, 800)).
    pub fn new(pos: Vec2) -> (b: Ball)
        requires
            -X_SLACK <= pos.x <= SCREEN_MAX + X_SLACK,
            -X_SLACK <= pos.y <= POS_GUARD,
        ensures
            b.rect == (Rect { x: pos.x, y: pos.y, w: BALL_SIZE, h: BALL_SIZE }),
            is_unit(b.vel),
            800 <= b.vel.y <= VEL_UNIT,
            -600 <= b.vel.x <= 600,
            ball_wf(b),
    {
        let k = gen_signed(-1000, 1000);
        Ball::new_with_heading(pos, k)
    }

    /// A new ball at `pos` whose heading is chosen by `k` as a discretized
    /// downward unit direction: `k` near zero maps to straight down, larger
    /// magnitudes to ever steeper diagonals, the sign of `k` giving the
    /// horizontal sign.
    pub fn new_with_heading(pos: Vec2, k: i64) -> (b: Ball)
        requires
            -X_SLACK <= pos.x <= SCREEN_MAX + X_SLACK,
            -X_SLACK <= pos.y <= POS_GUARD,
            -1000 <= k <= 1000,
        ensures
            b.rect == (Rect { x: pos.x, y: pos.y, w: BALL_SIZE, h: BALL_SIZE }),
            is_unit(b.vel),
            800 <= b.vel.y <= VEL_UNIT,
            -600 <= b.vel.x <= 600,
            k <= -750 ==> b.vel == (Vec2 { x: -600i64, y: 800 }),
            -750 < k <= -450 ==> b.vel == (Vec2 { x: -352i64, y: 936 }),
            -450 < k <= -150 ==> b.vel == (Vec2 { x: -280i64, y: 960 }),
            -150 < k < 150 ==> b.vel == (Vec2 { x: 0, y: 1000 }),
            150 <= k < 450 ==> b.vel == (Vec2 { x: 280, y: 960 }),
            450 <= k < 750 ==> b.vel == (Vec2 { x: 352, y: 936 }),
            k >= 750 ==> b.vel == (Vec2 { x: 600, y: 800 }),
            ball_wf(b),
    {
        let vel = if k <= -750 {
            Vec2 { x: -600, y: 800 }
        } else if k <= -450 {
            Vec2 { x: -352, y: 936 }
        } else if k <= -150 {
            Vec2 { x: -280, y: 960 }
        } else if k < 150 {
            Vec2 { x: 0, y: 1000 }
        } else if k < 450 {
            Vec2 { x: 280, y: 960 }
        } else if k < 750 {
            Vec2 { x: 352, y: 936 }
        } else {
            Vec2 { x: 600, y: 800 }
        };
        proof {
            let vx = vel.x;
            let vy = vel.y;
            assert(vx * vx + vy * vy == VEL_UNIT_SQ) by (nonlinear_arith)
                requires
                    ((vx == -600 || vx == 600) && vy == 800)
                    || ((vx == -352 || vx == 352) && vy == 936)
                    || ((vx == -280 || vx == 280) && vy == 960)
                    || (vx == 0 && vy == 1000),
            ;
        }
        Ball { rect: Rect { x: pos.x, y: pos.y, w: BALL_SIZE, h: BALL_SIZE }, vel }
    }

    /// Advances the ball by one frame, exactly as `ball_updated` says.
    pub fn update(&mut self, dt: i64, screen_w: i64)
        requires
            ball_wf(*old(self)),
            dt_ok(dt),
            SCREEN_W_MIN <= screen_w <= SCREEN_MAX,
        ensures
            *final(self) == ball_updated(*old(self), dt, screen_w),
            ball_mid(*final(self)),
    {
        proof {
            let vx = self.vel.x;
            let vy = self.vel.y;
            assert(-STEP_MAX <= vx * BALL_SPEED * dt <= STEP_MAX
                && -STEP_MAX <= vy * BALL_SPEED * dt <= STEP_MAX)
                by (nonlinear_arith)
                requires
                    -VEL_UNIT <= vx <= VEL_UNIT,
                    -VEL_UNIT <= vy <= VEL_UNIT,
                    0 <= dt <= DT_MAX,
            ;
        }
        let dx = self.vel.x * BALL_SPEED * dt;
        let dy = self.vel.y * BALL_SPEED * dt;
        proof {
            let vx = self.vel.x;
            let vy = self.vel.y;
            assert((vx > 0 ==> dx >= 0) && (vx < 0 ==> dx <= 0) && (vx == 0 ==> dx == 0)
                && (vy > 0 ==> dy >= 0) && (vy < 0 ==> dy <= 0) && (vy == 0 ==> dy == 0)
                && (vx == VEL_UNIT ==> dx == 400_000 * dt)
                && (vx == -VEL_UNIT ==> dx == -400_000 * dt)
                && -400_000 * dt <= dx <= 400_000 * dt
                && -400_000 * dt <= dy <= 400_000 * dt)
                by (nonlinear_arith)
                requires
                    dx == vx * BALL_SPEED * dt,
                    dy == vy * BALL_SPEED * dt,
                    0 <= dt,
                    -VEL_UNIT <= vx <= VEL_UNIT,
                    -VEL_UNIT <= vy <= VEL_UNIT,
            ;
        }
        self.rect.x = self.rect.x + dx;
        self.rect.y = self.rect.y + dy;
        if self.rect.x < 0 {
            self.vel.x = VEL_UNIT;
        } else if self.rect.x > screen_w - BALL_SIZE {
            self.vel.x = -VEL_UNIT;
        } else if self.rect.y < 0 {
            self.vel.y = VEL_UNIT;
        }
    }
}

/// A frame's movement keeps a ball's velocity a unit vector — indeed keeps it
/// untouched — as long as the ball stays inside the walls. (Crossing a wall
/// forces a full-unit component instead, which can change the length; a ball
/// that leaves the left wall moving diagonally is the witness.)
pub proof fn lemma_update_keeps_unit_inside(b: Ball, dt: i64, screen_w: i64)
    requires
        is_unit(b.vel),
        0 <= b.rect.x + b.vel.x * BALL_SPEED * dt <= screen_w - BALL_SIZE,
        0 <= b.rect.y + b.vel.y * BALL_SPEED * dt,
    ensures
        ball_updated(b, dt, screen_w).vel == b.vel,
        is_unit(ball_updated(b, dt, screen_w).vel),
{
}

/// The exact movement rule of the paddle over one frame: one of the two held
/// directions moves it at paddle speed, both or neither leave it in place;
/// afterwards it is clamped inside the horizontal screen bounds.
pub open spec fn player_step_x(x: i64, dt: i64, left: bool, right: bool, screen_w: i64) -> int {
    let moved = if left && !right {
        x - PLAYER_STEP * dt
    } else if right && !left {
        x + PLAYER_STEP * dt
    } else {
        x as int
    };
    if moved < 0 {
        0
    } else if moved > screen_w - PLAYER_W {
        screen_w - PLAYER_W
    } else {
        moved
    }
}

impl Player {
    /// A new paddle, horizontally centered, 100 px above the screen bottom.
    pub fn new(screen_w: i64, screen_h: i64) -> (p: Player)
        requires
            screen_ok(screen_w, screen_h),
        ensures
            p.rect.w == PLAYER_W,
            p.rect.h == PLAYER_H,
            p.rect.x == (screen_w - PLAYER_W) as int / 2,
            p.rect.y == screen_h - PLAYER_Y_OFFSET,
            player_wf(p),
    {
        let free = (screen_w - PLAYER_W) as u64;
        let x = (free / 2) as i64;
        Player {
            rect: Rect { x, y: screen_h - PLAYER_Y_OFFSET, w: PLAYER_W, h: PLAYER_H },
        }
    }

    /// Moves the paddle by one frame of held input, exactly as
    /// `player_step_x` says.
    pub fn update(&mut self, dt: i64, left: bool, right: bool, screen_w: i64)
        requires
            player_wf(*old(self)),
            dt_ok(dt),
            SCREEN_W_MIN <= screen_w <= SCREEN_MAX,
        ensures
            final(self).rect.x == player_step_x(old(self).rect.x, dt, left, right, screen_w),
            final(self).rect.y == old(self).rect.y,
            final(self).rect.w == old(self).rect.w,
            final(self).rect.h == old(self).rect.h,
            player_wf(*final(self)),
            0 <= final(self).rect.x <= screen_w - PLAYER_W,
    {
        let moved = if left && !right {
            self.rect.x - PLAYER_STEP * dt
        } else if right && !left {
            self.rect.x + PLAYER_STEP * dt
        } else {
            self.rect.x
        };
        self.rect.x = if moved < 0 {
            0
        } else if moved > screen_w - PLAYER_W {
            screen_w - PLAYER_W
        } else {
            moved
        };
    }
}

impl Block {
    /// A new block at `pos` with one life.
    pub fn new(pos: Vec2, block_type: BlockType) -> (b: Block)
        requires
            0 <= pos.x <= SCREEN_MAX,
            0 <= pos.y <= SCREEN_MAX,
        ensures
            b == (Block {
                rect: Rect { x: pos.x, y: pos.y, w: BLOCK_W, h: BLOCK_H },
                lives: 1,
                block_type,
            }),
            block_wf(b),
    {
        Block { rect: Rect { x: pos.x, y: pos.y, w: BLOCK_W, h: BLOCK_H }, lives: 1, block_type }
    }
}

} // verus!
