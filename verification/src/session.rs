//! One play-through: score, lives, the paddle, the block grid and the active
//! balls, driven by a four-state machine (menu, game, level completed, dead).
//!
//! The per-frame simulation step follows a fixed order: move the paddle, move
//! every ball, resolve every ball against the paddle and then against every
//! block in grid order (buffering spawned balls), merge the buffer, remove
//! fallen balls (losing a life and respawning when none remain), remove
//! destroyed blocks, and take the win/lose transitions.

use vstd::prelude::*;
use crate::geom::{Rect, Vec2, intersects};
use crate::collide::{resolve_collision, resolved_rect, resolved_vel};
use crate::entities::{
    Player, Block, BlockType, Ball, ball_updated, player_step_x, player_wf, block_wf, ball_wf,
    ball_mid, is_unit, screen_ok, dt_ok, BALL_SIZE, BLOCK_W, BLOCK_H, PLAYER_W, PLAYER_Y_OFFSET,
    SCREEN_W_MIN, SCREEN_MAX, LOSS_MARGIN, POS_GUARD, VEL_UNIT,
};
use crate::counts::{cnt, alivef, specialf, special_alivef, regularf, special, vec_set, lemma_cnt_push, lemma_cnt_le_len,
    lemma_cnt_update, lemma_cnt_none, lemma_cnt_all, lemma_cnt_agree};
use crate::rng::gen_index;

verus! {

/// The four states of the game.
#[derive(Clone, Copy, PartialEq, Eq, Structural, Debug)]
pub enum GameState {
    Menu,
    Game,
    LevelCompleted,
    Dead,
}

/// Grid cell extent: a block plus 5 px of padding on each axis.
pub const CELL_W: i64 = 105_000_000;

pub const CELL_H: i64 = 45_000_000;

/// Width of the six-column grid.
pub const GRID_W: i64 = 630_000_000;

/// The grid starts 50 px below the screen top.
pub const GRID_TOP: i64 = 50_000_000;

pub const GRID_COLS: usize = 6;

pub const BLOCK_COUNT: usize = 36;

pub const SPECIAL_COUNT: usize = 3;

/// Points scored per destroyed block.
pub const BLOCK_SCORE: i64 = 10;

pub const START_LIVES: i64 = 3;

/// A respawned ball sits centered on the paddle, 50 px above it.
pub const RESPAWN_DX: i64 = 50_000_000;

pub const RESPAWN_UP: i64 = 50_000_000;

/// Where block `i` of the grid sits: the grid is centered horizontally, six
/// blocks per row, filling row-major from the top left.
pub open spec fn grid_rect(i: int, screen_w: i64) -> Rect {
    Rect {
        x: ((screen_w - GRID_W) / 2 + (i % 6) * CELL_W) as i64,
        y: (GRID_TOP + (i / 6) * CELL_H) as i64,
        w: BLOCK_W,
        h: BLOCK_H,
    }
}

/// A freshly laid grid: 36 blocks in place, each with one life, exactly three
/// of them of the spawning kind.
pub open spec fn grid_fresh(s: Seq<Block>, screen_w: i64) -> bool {
    &&& s.len() == BLOCK_COUNT
    &&& forall|k: int| 0 <= k < s.len() ==> {
        &&& (#[trigger] s[k]).rect == grid_rect(k, screen_w)
        &&& s[k].lives == 1
        &&& block_wf(s[k])
    }
    &&& cnt(s, specialf()) == SPECIAL_COUNT
}

/// Lays the fresh block grid into the empty `blocks`: 36 regular blocks in
/// grid order, then three distinct ones drawn at random become the spawning
/// kind.
pub fn init_blocks(blocks: &mut Vec<Block>, screen_w: i64)
    requires
        old(blocks)@.len() == 0,
        SCREEN_W_MIN <= screen_w <= SCREEN_MAX,
    ensures
        grid_fresh(final(blocks)@, screen_w),
{
    let start_x = ((screen_w - GRID_W) as u64 / 2) as i64;
    let mut i: usize = 0;
    while i < BLOCK_COUNT
        invariant
            SCREEN_W_MIN <= screen_w <= SCREEN_MAX,
            start_x == (screen_w - GRID_W) as int / 2,
            0 <= start_x <= SCREEN_MAX,
            i <= BLOCK_COUNT,
            blocks@.len() == i,
            forall|k: int| 0 <= k < i ==> {
                &&& (#[trigger] blocks@[k]).rect == grid_rect(k, screen_w)
                &&& blocks@[k].lives == 1
                &&& blocks@[k].block_type == BlockType::Regular
                &&& block_wf(blocks@[k])
            },
        decreases BLOCK_COUNT - i,
    {
        let col = (i % GRID_COLS) as i64;
        let row = (i / GRID_COLS) as i64;
        let x = start_x + col * CELL_W;
        let y = GRID_TOP + row * CELL_H;
        blocks.push(Block::new(Vec2 { x, y }, BlockType::Regular));
        i += 1;
    }
    proof {
        lemma_cnt_none(blocks@, specialf());
        lemma_cnt_all(blocks@, regularf());
    }
    let mut made: usize = 0;
    while made < SPECIAL_COUNT
        invariant
            made <= SPECIAL_COUNT,
            blocks@.len() == BLOCK_COUNT,
            cnt(blocks@, specialf()) == made,
            cnt(blocks@, regularf()) == BLOCK_COUNT - made,
            forall|k: int| 0 <= k < blocks@.len() ==> {
                &&& (#[trigger] blocks@[k]).rect == grid_rect(k, screen_w)
                &&& blocks@[k].lives == 1
                &&& block_wf(blocks@[k])
            },
        decreases SPECIAL_COUNT - made,
    {
        // Draw a rank among the blocks still of the regular kind, then walk
        // the grid to the block of that rank; this picks three distinct
        // blocks over the three rounds.
        let r = gen_index(0, BLOCK_COUNT - made);
        let mut j: usize = 0;
        let mut seen: usize = 0;
        let mut found: usize = BLOCK_COUNT;
        while j < BLOCK_COUNT
            invariant
                j <= BLOCK_COUNT,
                found <= BLOCK_COUNT,
                blocks@.len() == BLOCK_COUNT,
                r < cnt(blocks@, regularf()),
                found == BLOCK_COUNT ==> {
                    &&& seen == cnt(blocks@.take(j as int), regularf())
                    &&& seen <= r
                },
                found < BLOCK_COUNT ==> !special(blocks@[found as int]),
            decreases BLOCK_COUNT - j,
        {
            let blk = blocks[j];
            if found == BLOCK_COUNT {
                proof {
                    assert(blocks@.take(j as int + 1).drop_last() =~= blocks@.take(j as int));
                    assert(blocks@.take(j as int + 1).last() == blocks@[j as int]);
                }
                if matches!(blk.block_type, BlockType::Regular) {
                    if seen == r {
                        found = j;
                    } else {
                        seen = seen + 1;
                    }
                }
            }
            j += 1;
        }
        proof {
            if found == BLOCK_COUNT {
                assert(blocks@.take(BLOCK_COUNT as int) =~= blocks@);
                assert(seen == cnt(blocks@, regularf()));
                assert(false);
            }
        }
        let blk = blocks[found];
        let nblk = Block { rect: blk.rect, lives: blk.lives, block_type: BlockType::SpawnBallOnDeath };
        proof {
            lemma_cnt_update(blocks@, specialf(), found as int, nblk);
            lemma_cnt_update(blocks@, regularf(), found as int, nblk);
        }
        vec_set(blocks, found, nblk);
        made += 1;
    }
}

/// Resets a session's parts to a fresh round: no score, three lives, the
/// paddle recentered, no balls, and a freshly regenerated block grid. (The
/// state machine pushes the round's first ball separately.)
pub fn reset_game(
    score: &mut i64,
    player_lives: &mut i64,
    blocks: &mut Vec<Block>,
    balls: &mut Vec<Ball>,
    player: &mut Player,
    screen_w: i64,
    screen_h: i64,
)
    requires
        screen_ok(screen_w, screen_h),
    ensures
        *final(score) == 0,
        *final(player_lives) == START_LIVES,
        final(balls)@.len() == 0,
        final(player).rect.x == (screen_w - PLAYER_W) as int / 2,
        final(player).rect.y == screen_h - PLAYER_Y_OFFSET,
        player_wf(*final(player)),
        grid_fresh(final(blocks)@, screen_w),
{
    *player = Player::new(screen_w, screen_h);
    *score = 0;
    *player_lives = START_LIVES;
    balls.clear();
    blocks.clear();
    init_blocks(blocks, screen_w);
}

/// The full mutable state of one play-through.
pub struct Session {
    pub score: i64,
    pub player_lives: i64,
    pub player: Player,
    pub blocks: Vec<Block>,
    pub balls: Vec<Ball>,
    pub state: GameState,
}

impl Session {
    /// The session invariant: every entity is well-formed, every standing
    /// block has exactly one life, the score plus the score still owed by
    /// standing blocks never exceeds one full grid's worth, at least one ball
    /// is in play, and balls plus standing spawner blocks never exceed the
    /// one starting ball plus three spawners.
    pub open spec fn wf(self) -> bool {
        &&& 0 <= self.score
        &&& self.score + BLOCK_SCORE * cnt(self.blocks@, alivef()) <= BLOCK_SCORE * BLOCK_COUNT
        &&& 0 <= self.player_lives <= START_LIVES
        &&& (self.state is Game || self.state is Menu ==> self.player_lives >= 1)
        &&& player_wf(self.player)
        &&& self.blocks@.len() <= BLOCK_COUNT
        &&& forall|i: int| 0 <= i < self.blocks@.len() ==> {
            &&& block_wf(#[trigger] self.blocks@[i])
            &&& self.blocks@[i].lives == 1
        }
        &&& forall|i: int| 0 <= i < self.balls@.len() ==> ball_wf(#[trigger] self.balls@[i])
        &&& self.balls@.len() >= 1
        &&& self.balls@.len() + cnt(self.blocks@, specialf()) <= 4
    }

    /// A fresh session: menu state, no score, three lives, the paddle
    /// centered, a fresh grid, and one ball in the middle of the screen.
    pub fn new(screen_w: i64, screen_h: i64) -> (s: Session)
        requires
            screen_ok(screen_w, screen_h),
        ensures
            s.wf(),
            s.state is Menu,
            s.score == 0,
            s.player_lives == START_LIVES,
            grid_fresh(s.blocks@, screen_w),
            s.balls@.len() == 1,
            s.balls@[0].rect.x == (screen_w - BALL_SIZE) as int / 2,
            s.balls@[0].rect.y == screen_h as int / 2 + 100_000_000,
            is_unit(s.balls@[0].vel),
            800 <= s.balls@[0].vel.y <= VEL_UNIT,
    {
        let player = Player::new(screen_w, screen_h);
        let mut blocks: Vec<Block> = Vec::new();
        init_blocks(&mut blocks, screen_w);
        let mut balls: Vec<Ball> = Vec::new();
        let ball_x = ((screen_w - BALL_SIZE) as u64 / 2) as i64;
        let ball_y = (screen_h as u64 / 2) as i64 + 100_000_000;
        balls.push(Ball::new(Vec2 { x: ball_x, y: ball_y }));
        proof {
            lemma_cnt_le_len(blocks@, alivef());
        }
        Session {
            score: 0,
            player_lives: START_LIVES,
            player,
            blocks,
            balls,
            state: GameState::Menu,
        }
    }
}

} // verus!

verus! {

/// Blocks mid-frame: well-formed, each with at most one life left (a hit
/// block keeps lives zero until the removal pass).
pub open spec fn blocks_mid(s: Seq<Block>) -> bool {
    forall|i: int| 0 <= i < s.len() ==> block_wf(#[trigger] s[i]) && s[i].lives <= 1
}

/// The state threaded through one ball's pass over the block list.
pub struct Sweep {
    pub ball: Ball,
    pub blocks: Seq<Block>,
    pub score_add: int,
    pub spawns: Seq<Vec2>,
}

/// One step of the pass: resolve the ball against block `j`; on contact with
/// a standing block its lives drop by one, a block thereby destroyed scores
/// ten points, and a destroyed spawner block queues a ball at the bouncing
/// ball's position.
pub open spec fn sweep_step(st: Sweep, j: int) -> Sweep {
    let blk = st.blocks[j];
    let nball = Ball {
        rect: resolved_rect(st.ball.rect, blk.rect),
        vel: resolved_vel(st.ball.rect, st.ball.vel, blk.rect),
    };
    if intersects(st.ball.rect, blk.rect) && blk.lives > 0 {
        let nblk = Block { rect: blk.rect, lives: (blk.lives - 1) as i64, block_type: blk.block_type };
        Sweep {
            ball: nball,
            blocks: st.blocks.update(j, nblk),
            score_add: st.score_add + if blk.lives == 1 { 10int } else { 0int },
            spawns: if blk.lives == 1 && blk.block_type is SpawnBallOnDeath {
                st.spawns.push(Vec2 { x: nball.rect.x, y: nball.rect.y })
            } else {
                st.spawns
            },
        }
    } else {
        Sweep { ball: nball, blocks: st.blocks, score_add: st.score_add, spawns: st.spawns }
    }
}

/// The pass after the first `j` blocks.
pub open spec fn sweep_upto(ball: Ball, blocks: Seq<Block>, j: int) -> Sweep
    decreases j,
{
    if j <= 0 {
        Sweep { ball, blocks, score_add: 0, spawns: Seq::empty() }
    } else {
        sweep_step(sweep_upto(ball, blocks, j - 1), j - 1)
    }
}

/// One ball's full pass over the block list.
pub open spec fn sweep(ball: Ball, blocks: Seq<Block>) -> Sweep {
    sweep_upto(ball, blocks, blocks.len() as int)
}

/// A ball after resolving against the paddle.
pub open spec fn paddle_bounced(b: Ball, paddle: Rect) -> Ball {
    Ball {
        rect: resolved_rect(b.rect, paddle),
        vel: resolved_vel(b.rect, b.vel, paddle),
    }
}

/// The state threaded through the collision phase over the whole ball list:
/// the balls with the processed prefix replaced by their post-collision
/// selves, the block state they left behind, and the accumulated score and
/// queued spawn positions.
pub struct Pass {
    pub balls: Seq<Ball>,
    pub blocks: Seq<Block>,
    pub score_add: int,
    pub spawns: Seq<Vec2>,
}

/// One ball's turn: ball `k` bounces off the paddle, then sweeps the block
/// state left by the balls before it.
pub open spec fn pass_step(st: Pass, k: int, paddle: Rect) -> Pass {
    let sw = sweep(paddle_bounced(st.balls[k], paddle), st.blocks);
    Pass {
        balls: st.balls.update(k, sw.ball),
        blocks: sw.blocks,
        score_add: st.score_add + sw.score_add,
        spawns: st.spawns + sw.spawns,
    }
}

/// The collision phase after the first `k` balls.
pub open spec fn pass_upto(balls: Seq<Ball>, blocks: Seq<Block>, paddle: Rect, k: int) -> Pass
    decreases k,
{
    if k <= 0 {
        Pass { balls, blocks, score_add: 0, spawns: Seq::empty() }
    } else {
        pass_step(pass_upto(balls, blocks, paddle, k - 1), k - 1, paddle)
    }
}

/// The pass never changes the ball count, and balls not yet processed are
/// untouched.
pub proof fn lemma_pass_prefix(balls: Seq<Ball>, blocks: Seq<Block>, paddle: Rect, j: int)
    requires
        0 <= j <= balls.len(),
    ensures
        pass_upto(balls, blocks, paddle, j).balls.len() == balls.len(),
        forall|k: int| j <= k < balls.len() ==> pass_upto(balls, blocks, paddle, j).balls[k] == balls[k],
    decreases j,
{
    if j > 0 {
        lemma_pass_prefix(balls, blocks, paddle, j - 1);
    }
}

/// Every ball of the list as moved by one frame.
pub open spec fn moved_balls(balls: Seq<Ball>, dt: i64, screen_w: i64) -> Seq<Ball> {
    Seq::new(balls.len(), |i: int| ball_updated(balls[i], dt, screen_w))
}

/// A whole frame's collision outcome: every ball moved, then the pass over
/// the ball list in order against the evolving block state.
pub open spec fn frame_pass(s: Session, dt: i64, screen_w: i64, paddle: Rect) -> Pass {
    pass_upto(moved_balls(s.balls@, dt, screen_w), s.blocks@, paddle, s.balls@.len() as int)
}

/// A ball still above the loss line.
pub open spec fn abovef(screen_h: i64) -> spec_fn(Ball) -> bool {
    |b: Ball| b.rect.y < screen_h - LOSS_MARGIN
}

/// A freshly spawned ball: the square at the queued position, with a downward
/// unit heading (its horizontal part is drawn at random).
pub open spec fn spawned_ball_at(b: Ball, pos: Vec2) -> bool {
    &&& b.rect == (Rect { x: pos.x, y: pos.y, w: BALL_SIZE, h: BALL_SIZE })
    &&& is_unit(b.vel)
    &&& 800 <= b.vel.y <= VEL_UNIT
}

/// Resolving against a well-placed static body keeps a mid-frame ball
/// mid-frame, and on contact leaves it within a resting bound of the body.
pub proof fn lemma_resolve_ball_mid(b: Ball, s: Rect)
    requires
        ball_mid(b),
        0 <= s.x <= SCREEN_MAX,
        0 <= s.y <= SCREEN_MAX,
        0 < s.w <= 200_000_000,
        0 < s.h <= 200_000_000,
    ensures
        ball_mid(Ball { rect: resolved_rect(b.rect, s), vel: resolved_vel(b.rect, b.vel, s) }),
        intersects(b.rect, s) ==> {
            &&& -POS_GUARD <= resolved_rect(b.rect, s).x <= POS_GUARD
            &&& -POS_GUARD <= resolved_rect(b.rect, s).y <= POS_GUARD
        },
{
}

/// What one ball's pass guarantees: block count, places and kinds are kept,
/// lives only drop and never below zero, the ball stays mid-frame, the score
/// owed is ten points per block that went down, one ball is queued per
/// spawner block that went down, and every queued position is in reach of
/// the grid.
pub open spec fn sweep_props(ball: Ball, blocks: Seq<Block>, j: int) -> bool {
    let sw = sweep_upto(ball, blocks, j);
    &&& sw.blocks.len() == blocks.len()
    &&& forall|k: int| 0 <= k < blocks.len() ==> {
        &&& (#[trigger] sw.blocks[k]).rect == blocks[k].rect
        &&& sw.blocks[k].block_type == blocks[k].block_type
        &&& 0 <= sw.blocks[k].lives <= blocks[k].lives
    }
    &&& ball_mid(sw.ball)
    &&& 0 <= cnt(sw.blocks, alivef()) <= cnt(blocks, alivef())
    &&& 0 <= cnt(sw.blocks, special_alivef()) <= cnt(blocks, special_alivef())
    &&& sw.score_add == 10 * (cnt(blocks, alivef()) - cnt(sw.blocks, alivef()))
    &&& sw.spawns.len() == cnt(blocks, special_alivef()) - cnt(sw.blocks, special_alivef())
    &&& forall|k: int| 0 <= k < sw.spawns.len() ==> {
        &&& -POS_GUARD <= (#[trigger] sw.spawns[k]).x <= POS_GUARD
        &&& -POS_GUARD <= sw.spawns[k].y <= POS_GUARD
    }
}

pub proof fn lemma_sweep_props(ball: Ball, blocks: Seq<Block>, j: int)
    requires
        0 <= j <= blocks.len(),
        ball_mid(ball),
        blocks_mid(blocks),
    ensures
        sweep_props(ball, blocks, j),
    decreases j,
{
    lemma_cnt_le_len(blocks, alivef());
    lemma_cnt_le_len(blocks, special_alivef());
    lemma_cnt_le_len(sweep_upto(ball, blocks, j).blocks, alivef());
    lemma_cnt_le_len(sweep_upto(ball, blocks, j).blocks, special_alivef());
    if j > 0 {
        lemma_sweep_props(ball, blocks, j - 1);
        let st = sweep_upto(ball, blocks, j - 1);
        let blk = st.blocks[j - 1];
        lemma_resolve_ball_mid(st.ball, blk.rect);
        if intersects(st.ball.rect, blk.rect) && blk.lives > 0 {
            let nblk = Block { rect: blk.rect, lives: (blk.lives - 1) as i64, block_type: blk.block_type };
            lemma_cnt_update(st.blocks, alivef(), j - 1, nblk);
            lemma_cnt_update(st.blocks, special_alivef(), j - 1, nblk);
        }
    }
}

/// Resolves one ball against every block in order: a hit standing block
/// loses a life; a block thereby destroyed adds ten points, and if it is a
/// spawner, queues a new ball at the bouncing ball's position onto
/// `spawned`. Exactly the pass that `sweep` describes.
pub fn collide_ball_with_blocks(
    ball: &mut Ball,
    blocks: &mut Vec<Block>,
    score: &mut i64,
    spawned: &mut Vec<Ball>,
)
    requires
        ball_mid(*old(ball)),
        blocks_mid(old(blocks)@),
        old(blocks)@.len() <= 36,
        0 <= *old(score),
        *old(score) + 10 * cnt(old(blocks)@, alivef()) <= 360,
    ensures
        *final(ball) == sweep(*old(ball), old(blocks)@).ball,
        final(blocks)@ == sweep(*old(ball), old(blocks)@).blocks,
        *final(score) == *old(score) + sweep(*old(ball), old(blocks)@).score_add,
        final(spawned)@.len() == old(spawned)@.len() + sweep(*old(ball), old(blocks)@).spawns.len(),
        forall|k: int| 0 <= k < old(spawned)@.len() ==> final(spawned)@[k] == old(spawned)@[k],
        forall|k: int| old(spawned)@.len() <= k < final(spawned)@.len() ==> {
            &&& (#[trigger] final(spawned)@[k]).rect.x
                == sweep(*old(ball), old(blocks)@).spawns[k - old(spawned)@.len()].x
            &&& final(spawned)@[k].rect.y
                == sweep(*old(ball), old(blocks)@).spawns[k - old(spawned)@.len()].y
            &&& final(spawned)@[k].rect.w == BALL_SIZE
            &&& final(spawned)@[k].rect.h == BALL_SIZE
            &&& is_unit(final(spawned)@[k].vel)
            &&& 800 <= final(spawned)@[k].vel.y <= VEL_UNIT
            &&& ball_wf(final(spawned)@[k])
        },
{
    let ghost ball0 = *ball;
    let ghost blocks0 = blocks@;
    let ghost score0 = *score;
    let ghost spawned0 = spawned@;
    let mut j: usize = 0;
    while j < blocks.len()
        invariant
            j <= blocks0.len(),
            blocks0.len() <= 36,
            blocks@.len() == blocks0.len(),
            ball_mid(ball0),
            blocks_mid(blocks0),
            0 <= score0,
            score0 + 10 * cnt(blocks0, alivef()) <= 360,
            *ball == sweep_upto(ball0, blocks0, j as int).ball,
            blocks@ == sweep_upto(ball0, blocks0, j as int).blocks,
            *score == score0 + sweep_upto(ball0, blocks0, j as int).score_add,
            spawned@.len() == spawned0.len() + sweep_upto(ball0, blocks0, j as int).spawns.len(),
            forall|k: int| 0 <= k < spawned0.len() ==> spawned@[k] == spawned0[k],
            forall|k: int| spawned0.len() <= k < spawned@.len() ==> {
                &&& (#[trigger] spawned@[k]).rect.x
                    == sweep_upto(ball0, blocks0, j as int).spawns[k - spawned0.len()].x
                &&& spawned@[k].rect.y
                    == sweep_upto(ball0, blocks0, j as int).spawns[k - spawned0.len()].y
                &&& spawned@[k].rect.w == BALL_SIZE
                &&& spawned@[k].rect.h == BALL_SIZE
                &&& is_unit(spawned@[k].vel)
                &&& 800 <= spawned@[k].vel.y <= VEL_UNIT
                &&& ball_wf(spawned@[k])
            },
        decreases blocks0.len() - j,
    {
        proof {
            lemma_sweep_props(ball0, blocks0, j as int);
            lemma_sweep_props(ball0, blocks0, j as int + 1);
            lemma_resolve_ball_mid(
                sweep_upto(ball0, blocks0, j as int).ball,
                sweep_upto(ball0, blocks0, j as int).blocks[j as int].rect,
            );
        }
        let blk = blocks[j];
        let mut brect = ball.rect;
        let mut bvel = ball.vel;
        let contact = resolve_collision(&mut brect, &mut bvel, &blk.rect);
        ball.rect = brect;
        ball.vel = bvel;
        if contact && blk.lives > 0 {
            let nlives = blk.lives - 1;
            let nblk = Block { rect: blk.rect, lives: nlives, block_type: blk.block_type };
            vec_set(blocks, j, nblk);
            if nlives == 0 {
                *score = *score + 10;
                if matches!(blk.block_type, BlockType::SpawnBallOnDeath) {
                    spawned.push(Ball::new(Vec2 { x: ball.rect.x, y: ball.rect.y }));
                }
            }
        }
        j += 1;
    }
    proof {
        assert(sweep_upto(ball0, blocks0, blocks0.len() as int) == sweep(ball0, blocks0));
    }
}

} // verus!

verus! {

impl Session {
    /// One simulation step of the playing state: move the paddle by input,
    /// move every ball, resolve every ball against the paddle and then
    /// against every block in order (buffering spawned balls), merge the
    /// buffer, remove fallen balls — losing a life and respawning one ball
    /// centered above the paddle when none remain — remove destroyed blocks,
    /// and take the win/lose transitions.
    ///
    /// The score grows by exactly ten points per block removed this frame; at
    /// most one life is lost per frame; afterwards the state is LevelCompleted
    /// exactly when no block remains, else Dead exactly when no life remains,
    /// else still Game.
    pub fn tick(self, dt: i64, left_down: bool, right_down: bool, screen_w: i64, screen_h: i64) -> (s: Session)
        requires
            self.wf(),
            self.state is Game,
            dt_ok(dt),
            screen_ok(screen_w, screen_h),
        ensures
            s.wf(),
            s.blocks@.len() <= self.blocks@.len(),
            s.score == self.score + 10 * (self.blocks@.len() - s.blocks@.len()),
            s.player_lives == self.player_lives || s.player_lives == self.player_lives - 1,
            s.state == (if s.blocks@.len() == 0 {
                GameState::LevelCompleted
            } else if s.player_lives == 0 {
                GameState::Dead
            } else {
                GameState::Game
            }),
            s.player.rect.x == player_step_x(self.player.rect.x, dt, left_down, right_down, screen_w),
            s.player.rect.y == self.player.rect.y,
            player_wf(s.player),
            s.player_lives < self.player_lives ==> {
                &&& s.balls@.len() == 1
                &&& s.balls@[0].rect.x == s.player.rect.x + RESPAWN_DX
                &&& s.balls@[0].rect.y == s.player.rect.y - RESPAWN_UP
                &&& is_unit(s.balls@[0].vel)
                &&& 800 <= s.balls@[0].vel.y <= VEL_UNIT
            },
            s.balls@.len() <= self.balls@.len() + cnt(self.blocks@, specialf()) - cnt(s.blocks@, specialf()),
            // Every frame is fully determined up to the random headings of
            // newly created balls: the surviving blocks are exactly the
            // standing blocks of the pass over the whole ball list, in order,
            // and the score grew by exactly what that pass scored.
            s.blocks@ == frame_pass(self, dt, screen_w, s.player.rect).blocks.filter(alivef()),
            s.score == self.score + frame_pass(self, dt, screen_w, s.player.rect).score_add,
            // The resulting balls are the passed balls, followed by one
            // spawned ball per queued position, with the fallen ones removed
            // in order; when none survives, exactly one life goes and the
            // respawn clause above says what replaces the set.
            exists|sp: Seq<Ball>| {
                &&& #[trigger] sp.len() == frame_pass(self, dt, screen_w, s.player.rect).spawns.len()
                &&& (forall|k: int| 0 <= k < sp.len()
                    ==> spawned_ball_at(#[trigger] sp[k], frame_pass(self, dt, screen_w, s.player.rect).spawns[k]))
                &&& ((frame_pass(self, dt, screen_w, s.player.rect).balls + sp).filter(abovef(screen_h)).len() > 0
                    ==> {
                        &&& s.balls@ == (frame_pass(self, dt, screen_w, s.player.rect).balls + sp).filter(abovef(screen_h))
                        &&& s.player_lives == self.player_lives
                    })
                &&& ((frame_pass(self, dt, screen_w, s.player.rect).balls + sp).filter(abovef(screen_h)).len() == 0
                    ==> s.player_lives == self.player_lives - 1)
            },
    {
        let Session { mut score, mut player_lives, mut player, mut blocks, mut balls, mut state } = self;

        player.update(dt, left_down, right_down, screen_w);

        let ghost balls0 = balls@;
        let mut moved: Vec<Ball> = Vec::new();
        let mut i: usize = 0;
        while i < balls.len()
            invariant
                i <= balls@.len(),
                balls@ == balls0,
                forall|k: int| 0 <= k < balls0.len() ==> ball_wf(#[trigger] balls0[k]),
                dt_ok(dt),
                screen_ok(screen_w, screen_h),
                moved@.len() == i,
                forall|k: int| 0 <= k < i ==> {
                    &&& #[trigger] moved@[k] == ball_updated(balls0[k], dt, screen_w)
                    &&& ball_mid(moved@[k])
                },
            decreases balls@.len() - i,
        {
            let mut b = balls[i];
            b.update(dt, screen_w);
            moved.push(b);
            i += 1;
        }
        balls = moved;

        let ghost balls_m = balls@;
        let ghost blocks0 = blocks@;
        let ghost score0 = score;
        let mut spawned: Vec<Ball> = Vec::new();
        proof {
            lemma_cnt_all(blocks0, alivef());
            lemma_cnt_agree(blocks0, specialf(), special_alivef());
            lemma_cnt_le_len(blocks0, special_alivef());
        }
        let mut i: usize = 0;
        while i < balls.len()
            invariant
                i <= balls@.len(),
                balls@.len() == balls_m.len(),
                dt_ok(dt),
                screen_ok(screen_w, screen_h),
                player_wf(player),
                forall|k: int| i <= k < balls_m.len() ==> balls@[k] == balls_m[k],
                forall|k: int| 0 <= k < balls_m.len() ==> ball_mid(#[trigger] balls_m[k]),
                forall|k: int| 0 <= k < i ==> ball_mid(#[trigger] balls@[k]),
                blocks@.len() == blocks0.len(),
                blocks0.len() <= 36,
                blocks_mid(blocks@),
                forall|k: int| 0 <= k < blocks0.len() ==> {
                    &&& (#[trigger] blocks@[k]).rect == blocks0[k].rect
                    &&& blocks@[k].block_type == blocks0[k].block_type
                    &&& blocks@[k].lives <= blocks0[k].lives
                },
                0 <= score,
                score == score0 + 10 * (cnt(blocks0, alivef()) - cnt(blocks@, alivef())),
                0 <= cnt(blocks@, alivef()) <= cnt(blocks0, alivef()),
                score0 + 10 * cnt(blocks0, alivef()) <= 360,
                0 <= score0,
                0 <= cnt(blocks@, special_alivef()) <= cnt(blocks0, special_alivef()),
                spawned@.len() == cnt(blocks0, special_alivef()) - cnt(blocks@, special_alivef()),
                forall|k: int| 0 <= k < spawned@.len() ==> {
                    &&& ball_wf(#[trigger] spawned@[k])
                    &&& is_unit(spawned@[k].vel)
                },
                balls_m.len() == balls0.len(),
                balls@ == pass_upto(balls_m, blocks0, player.rect, i as int).balls,
                blocks@ == pass_upto(balls_m, blocks0, player.rect, i as int).blocks,
                score == score0 + pass_upto(balls_m, blocks0, player.rect, i as int).score_add,
                spawned@.len() == pass_upto(balls_m, blocks0, player.rect, i as int).spawns.len(),
                forall|k: int| 0 <= k < spawned@.len() ==> spawned_ball_at(
                    #[trigger] spawned@[k],
                    pass_upto(balls_m, blocks0, player.rect, i as int).spawns[k],
                ),
            decreases balls@.len() - i,
        {
            let mut b = balls[i];
            proof {
                lemma_pass_prefix(balls_m, blocks0, player.rect, i as int);
                lemma_pass_prefix(balls_m, blocks0, player.rect, i as int + 1);
                assert(balls@[i as int] == balls_m[i as int]);
                assert(ball_mid(b));
                lemma_resolve_ball_mid(b, player.rect);
            }
            let mut brect = b.rect;
            let mut bvel = b.vel;
            resolve_collision(&mut brect, &mut bvel, &player.rect);
            b.rect = brect;
            b.vel = bvel;
            proof {
                if i == 0 && balls_m.len() == 1 {
                    assert(b == paddle_bounced(balls_m[0], player.rect));
                }
                lemma_sweep_props(b, blocks@, blocks@.len() as int);
            }
            collide_ball_with_blocks(&mut b, &mut blocks, &mut score, &mut spawned);
            vec_set(&mut balls, i, b);
            i += 1;
        }

        let ghost spawned_all = spawned@;
        balls.append(&mut spawned);
        let ghost merged = balls@;
        let merged_len = balls.len();

        let mut kept: Vec<Ball> = Vec::new();
        proof {
            reveal_with_fuel(Seq::<_>::filter, 1);
            assert(merged.take(0).filter(abovef(screen_h)) =~= Seq::<Ball>::empty());
            assert(balls_m =~= moved_balls(balls0, dt, screen_w));
        }
        let mut i: usize = 0;
        while i < balls.len()
            invariant
                i <= balls@.len(),
                balls@ == merged,
                kept@ == merged.take(i as int).filter(abovef(screen_h)),
                screen_ok(screen_w, screen_h),
                forall|k: int| 0 <= k < merged.len() ==> ball_mid(#[trigger] merged[k]),
                kept@.len() <= i,
                forall|k: int| 0 <= k < kept@.len() ==> ball_wf(#[trigger] kept@[k]),
                kept@ == merged.take(i as int).filter(abovef(screen_h)),
            decreases balls@.len() - i,
        {
            let b = balls[i];
            proof {
                reveal_with_fuel(Seq::<_>::filter, 2);
                assert(merged.take(i as int + 1).drop_last() =~= merged.take(i as int));
                assert(merged.take(i as int + 1).last() == merged[i as int]);
                assert(merged.take(i as int + 1).filter(abovef(screen_h)) == (
                    if abovef(screen_h)(merged[i as int]) {
                        merged.take(i as int).filter(abovef(screen_h)).push(merged[i as int])
                    } else {
                        merged.take(i as int).filter(abovef(screen_h))
                    }
                ));
            }
            if b.rect.y < screen_h - LOSS_MARGIN {
                kept.push(b);
            }
            i += 1;
        }
        proof {
            assert(merged.take(merged.len() as int) =~= merged);
        }
        if kept.len() == 0 {
            player_lives = player_lives - 1;
            kept.push(Ball::new(Vec2 { x: player.rect.x + RESPAWN_DX, y: player.rect.y - RESPAWN_UP }));
            if player_lives <= 0 {
                state = GameState::Dead;
            }
        }
        balls = kept;

        let ghost blocks_mid_seq = blocks@;
        proof {
            reveal_with_fuel(Seq::<_>::filter, 1);
            assert(blocks_mid_seq.take(0).filter(alivef()) =~= Seq::<Block>::empty());
        }
        let mut keptb: Vec<Block> = Vec::new();
        let mut j: usize = 0;
        while j < blocks.len()
            invariant
                j <= blocks@.len(),
                blocks@ == blocks_mid_seq,
                blocks_mid(blocks_mid_seq),
                keptb@.len() == cnt(blocks_mid_seq.take(j as int), alivef()),
                cnt(keptb@, specialf()) == cnt(blocks_mid_seq.take(j as int), special_alivef()),
                keptb@ == blocks_mid_seq.take(j as int).filter(alivef()),
                forall|k: int| 0 <= k < keptb@.len() ==> {
                    &&& block_wf(#[trigger] keptb@[k])
                    &&& keptb@[k].lives == 1
                },
            decreases blocks@.len() - j,
        {
            let blk = blocks[j];
            proof {
                reveal_with_fuel(Seq::<_>::filter, 2);
                assert(blocks_mid_seq.take(j as int + 1).drop_last() =~= blocks_mid_seq.take(j as int));
                assert(blocks_mid_seq.take(j as int + 1).last() == blocks_mid_seq[j as int]);
                assert(blocks_mid_seq.take(j as int + 1).filter(alivef()) == (
                    if alivef()(blocks_mid_seq[j as int]) {
                        blocks_mid_seq.take(j as int).filter(alivef()).push(blocks_mid_seq[j as int])
                    } else {
                        blocks_mid_seq.take(j as int).filter(alivef())
                    }
                ));
                if blk.lives > 0 {
                    lemma_cnt_push(keptb@, specialf(), blk);
                }
            }
            if blk.lives > 0 {
                keptb.push(blk);
            }
            j += 1;
        }
        proof {
            assert(blocks_mid_seq.take(blocks_mid_seq.len() as int) =~= blocks_mid_seq);
            lemma_cnt_all(keptb@, alivef());
            lemma_cnt_agree(keptb@, specialf(), special_alivef());
            lemma_cnt_le_len(keptb@, alivef());
        }
        blocks = keptb;
        if blocks.len() == 0 {
            state = GameState::LevelCompleted;
        }

        Session { score, player_lives, player, blocks, balls, state }
    }
}

} // verus!

verus! {

impl Session {
    /// One frame of the state machine. In the menu, a confirm press starts
    /// the game. In the game, one simulation step runs. On the level-completed
    /// and dead screens, a confirm press returns to the menu after a full
    /// reset: score zero, three lives, the paddle recentered, a freshly
    /// regenerated grid with exactly three spawner blocks, and exactly one
    /// ball centered above the paddle. Without a confirm press those states
    /// are left untouched.
    pub fn frame(
        self,
        dt: i64,
        left_down: bool,
        right_down: bool,
        confirm_pressed: bool,
        screen_w: i64,
        screen_h: i64,
    ) -> (s: Session)
        requires
            self.wf(),
            dt_ok(dt),
            screen_ok(screen_w, screen_h),
        ensures
            s.wf(),
            self.state is Menu ==> {
                &&& s.state == (if confirm_pressed { GameState::Game } else { GameState::Menu })
                &&& s.score == self.score
                &&& s.player_lives == self.player_lives
                &&& s.balls@ == self.balls@
                &&& s.blocks@ == self.blocks@
                &&& s.player == self.player
            },
            self.state is Game ==> {
                &&& s.blocks@.len() <= self.blocks@.len()
                &&& s.score == self.score + 10 * (self.blocks@.len() - s.blocks@.len())
                &&& (s.player_lives == self.player_lives || s.player_lives == self.player_lives - 1)
                &&& s.state == (if s.blocks@.len() == 0 {
                    GameState::LevelCompleted
                } else if s.player_lives == 0 {
                    GameState::Dead
                } else {
                    GameState::Game
                })
                &&& s.player.rect.x == player_step_x(self.player.rect.x, dt, left_down, right_down, screen_w)
                &&& s.player.rect.y == self.player.rect.y
                &&& (s.player_lives < self.player_lives ==> {
                    &&& s.balls@.len() == 1
                    &&& s.balls@[0].rect.x == s.player.rect.x + RESPAWN_DX
                    &&& s.balls@[0].rect.y == s.player.rect.y - RESPAWN_UP
                    &&& is_unit(s.balls@[0].vel)
                    &&& 800 <= s.balls@[0].vel.y <= VEL_UNIT
                })
                &&& s.blocks@ == frame_pass(self, dt, screen_w, s.player.rect).blocks.filter(alivef())
                &&& s.score == self.score + frame_pass(self, dt, screen_w, s.player.rect).score_add
                &&& exists|sp: Seq<Ball>| {
                    &&& #[trigger] sp.len() == frame_pass(self, dt, screen_w, s.player.rect).spawns.len()
                    &&& (forall|k: int| 0 <= k < sp.len()
                        ==> spawned_ball_at(#[trigger] sp[k], frame_pass(self, dt, screen_w, s.player.rect).spawns[k]))
                    &&& ((frame_pass(self, dt, screen_w, s.player.rect).balls + sp).filter(abovef(screen_h)).len() > 0
                        ==> {
                            &&& s.balls@ == (frame_pass(self, dt, screen_w, s.player.rect).balls + sp).filter(abovef(screen_h))
                            &&& s.player_lives == self.player_lives
                        })
                    &&& ((frame_pass(self, dt, screen_w, s.player.rect).balls + sp).filter(abovef(screen_h)).len() == 0
                        ==> s.player_lives == self.player_lives - 1)
                }
            },
            (self.state is LevelCompleted || self.state is Dead) && confirm_pressed ==> {
                &&& s.state is Menu
                &&& s.score == 0
                &&& s.player_lives == START_LIVES
                &&& grid_fresh(s.blocks@, screen_w)
                &&& s.player.rect.x == (screen_w - PLAYER_W) as int / 2
                &&& s.player.rect.y == screen_h - PLAYER_Y_OFFSET
                &&& s.balls@.len() == 1
                &&& s.balls@[0].rect.x == s.player.rect.x + RESPAWN_DX
                &&& s.balls@[0].rect.y == s.player.rect.y - RESPAWN_UP
                &&& is_unit(s.balls@[0].vel)
                &&& 800 <= s.balls@[0].vel.y <= VEL_UNIT
            },
            (self.state is LevelCompleted || self.state is Dead) && !confirm_pressed ==> s == self,
    {
        match self.state {
            GameState::Menu => {
                if confirm_pressed {
                    Session { state: GameState::Game, ..self }
                } else {
                    self
                }
            },
            GameState::Game => self.tick(dt, left_down, right_down, screen_w, screen_h),
            GameState::LevelCompleted | GameState::Dead => {
                if confirm_pressed {
                    let Session { mut score, mut player_lives, mut player, mut blocks, mut balls, state: _ } = self;
                    reset_game(&mut score, &mut player_lives, &mut blocks, &mut balls, &mut player, screen_w, screen_h);
                    balls.push(Ball::new(Vec2 {
                        x: player.rect.x + RESPAWN_DX,
                        y: player.rect.y - RESPAWN_UP,
                    }));
                    proof {
                        lemma_cnt_le_len(blocks@, alivef());
                    }
                    Session { score, player_lives, player, blocks, balls, state: GameState::Menu }
                } else {
                    self
                }
            },
        }
    }
}

} // verus!
