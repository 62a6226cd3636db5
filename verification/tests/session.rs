use breakout::entities::{Ball, Block, BlockType, BALL_SIZE, BLOCK_H, BLOCK_W, PLAYER_W, PX};
use breakout::geom::{Rect, Vec2};
use breakout::session::{init_blocks, reset_game, GameState, Session};

const W: i64 = 800 * PX;
const H: i64 = 600 * PX;

fn count_special(blocks: &Vec<Block>) -> usize {
    blocks.iter().filter(|b| matches!(b.block_type, BlockType::SpawnBallOnDeath)).count()
}

#[test]
fn new_session_is_fresh() {
    let s = Session::new(W, H);
    assert!(matches!(s.state, GameState::Menu));
    assert_eq!(s.score, 0);
    assert_eq!(s.player_lives, 3);
    assert_eq!(s.blocks.len(), 36);
    assert_eq!(count_special(&s.blocks), 3);
    assert_eq!(s.balls.len(), 1);
    assert_eq!(s.balls[0].rect.x, (W - BALL_SIZE) / 2);
    assert_eq!(s.balls[0].rect.y, H / 2 + 100 * PX);
}

#[test]
fn grid_layout_is_exact() {
    let mut blocks: Vec<Block> = Vec::new();
    init_blocks(&mut blocks, W);
    assert_eq!(blocks.len(), 36);
    assert_eq!(count_special(&blocks), 3);
    // Grid is centered: (800 - 630) / 2 = 85 px from the left, 50 px down.
    assert_eq!(blocks[0].rect, Rect { x: 85 * PX, y: 50 * PX, w: BLOCK_W, h: BLOCK_H });
    // Block 7 sits one column and one row in: cells are 105 by 45 px.
    assert_eq!(blocks[7].rect, Rect { x: 190 * PX, y: 95 * PX, w: BLOCK_W, h: BLOCK_H });
    // Last block of the first row, first of the second.
    assert_eq!(blocks[5].rect.x, 85 * PX + 5 * 105 * PX);
    assert_eq!(blocks[6].rect.x, 85 * PX);
    assert_eq!(blocks[6].rect.y, 95 * PX);
    for b in blocks.iter() {
        assert_eq!(b.lives, 1);
    }
}

#[test]
fn menu_confirm_starts_game() {
    let s = Session::new(W, H);
    let s = s.frame(16, false, false, true, W, H);
    assert!(matches!(s.state, GameState::Game));
    let s2 = Session::new(W, H).frame(16, false, false, false, W, H);
    assert!(matches!(s2.state, GameState::Menu));
}

// A ball at the far left, just above the loss threshold, heading straight
// down, away from the centered paddle.
fn falling_ball() -> Ball {
    Ball::new_with_heading(Vec2 { x: 10 * PX, y: 480 * PX }, 0)
}

#[test]
fn losing_the_only_ball_costs_a_life_and_respawns() {
    // One ball, three lives; the ball falls past the threshold with no block
    // hit: one life gone, exactly one new ball centered above the paddle, and
    // the game goes on.
    let mut s = Session::new(W, H);
    s.state = GameState::Game;
    s.balls = vec![falling_ball()];
    let score0 = s.score;
    let mut iterations = 0;
    while s.player_lives == 3 && iterations < 100 {
        s = s.tick(100, false, false, W, H);
        iterations += 1;
    }
    assert_eq!(s.player_lives, 2);
    assert_eq!(s.balls.len(), 1);
    assert_eq!(s.balls[0].rect.x, s.player.rect.x + 50 * PX);
    assert_eq!(s.balls[0].rect.y, s.player.rect.y - 50 * PX);
    assert_eq!(s.score, score0);
    assert_eq!(s.blocks.len(), 36);
    assert!(matches!(s.state, GameState::Game));
}

#[test]
fn losing_all_lives_ends_the_game() {
    // Lose the only ball three times in a row without ever returning one:
    // lives reach zero and the state turns Dead.
    let mut s = Session::new(W, H);
    s.state = GameState::Game;
    for expected_lives in [2i64, 1, 0] {
        s.balls = vec![falling_ball()];
        let before = s.player_lives;
        let mut iterations = 0;
        while s.player_lives == before && iterations < 100 {
            s = s.tick(100, false, false, W, H);
            iterations += 1;
        }
        assert_eq!(s.player_lives, expected_lives);
    }
    assert!(matches!(s.state, GameState::Dead));
}

#[test]
fn destroying_every_block_scores_a_full_grid_and_completes_the_level() {
    // Place the ball onto the first standing block each frame (zero elapsed
    // time, so nothing moves on its own) until the grid is gone: 36 blocks at
    // ten points each.
    let mut s = Session::new(W, H);
    s.state = GameState::Game;
    let mut iterations = 0;
    while !s.blocks.is_empty() && iterations < 100 {
        let target = s.blocks[0].rect;
        let mut ball = Ball::new_with_heading(Vec2 { x: target.x, y: target.y }, 0);
        ball.vel = Vec2 { x: 0, y: 1000 };
        s.balls = vec![ball];
        s = s.tick(0, false, false, W, H);
        iterations += 1;
    }
    assert_eq!(s.blocks.len(), 0);
    assert_eq!(s.score, 360);
    assert!(matches!(s.state, GameState::LevelCompleted));
}

#[test]
fn destroying_a_spawner_block_adds_a_ball_at_the_point_of_contact() {
    let mut s = Session::new(W, H);
    s.state = GameState::Game;
    s.score = 0;
    s.blocks = vec![Block::new(Vec2 { x: 200 * PX, y: 200 * PX }, BlockType::SpawnBallOnDeath)];
    let mut ball = Ball::new_with_heading(Vec2 { x: 200 * PX, y: 200 * PX }, 0);
    ball.vel = Vec2 { x: 0, y: 1000 };
    s.balls = vec![ball];
    let s = s.tick(0, false, false, W, H);
    // Block destroyed: ten points, one extra ball appended at the destroying
    // ball's position after its bounce (pushed down by the 40 px intersection
    // height, since the ball stood on the block's top-left corner).
    assert_eq!(s.score, 10);
    assert_eq!(s.blocks.len(), 0);
    assert_eq!(s.balls.len(), 2);
    assert_eq!(s.balls[0].rect.x, 200 * PX);
    assert_eq!(s.balls[0].rect.y, 240 * PX);
    assert_eq!(s.balls[1].rect.x, s.balls[0].rect.x);
    assert_eq!(s.balls[1].rect.y, s.balls[0].rect.y);
    let v = s.balls[1].vel;
    assert_eq!(v.x * v.x + v.y * v.y, 1_000_000);
    assert!(matches!(s.state, GameState::LevelCompleted));
}

#[test]
fn confirm_after_death_resets_everything() {
    let mut s = Session::new(W, H);
    s.state = GameState::Dead;
    s.score = 250;
    s.player_lives = 0;
    s.balls = vec![falling_ball()];
    let s = s.frame(16, false, false, true, W, H);
    assert!(matches!(s.state, GameState::Menu));
    assert_eq!(s.score, 0);
    assert_eq!(s.player_lives, 3);
    assert_eq!(s.blocks.len(), 36);
    assert_eq!(count_special(&s.blocks), 3);
    assert_eq!(s.balls.len(), 1);
    assert_eq!(s.player.rect.x, (W - PLAYER_W) / 2);
    assert_eq!(s.balls[0].rect.x, s.player.rect.x + 50 * PX);
    assert_eq!(s.balls[0].rect.y, s.player.rect.y - 50 * PX);
}

#[test]
fn confirm_after_level_completed_resets_everything() {
    let mut s = Session::new(W, H);
    s.state = GameState::LevelCompleted;
    s.score = 360;
    s.blocks = Vec::new();
    let s = s.frame(16, false, false, true, W, H);
    assert!(matches!(s.state, GameState::Menu));
    assert_eq!(s.score, 0);
    assert_eq!(s.player_lives, 3);
    assert_eq!(s.blocks.len(), 36);
    assert_eq!(count_special(&s.blocks), 3);
    assert_eq!(s.balls.len(), 1);

    // Without a confirm press the terminal screen stays put.
    let mut stay = Session::new(W, H);
    stay.state = GameState::LevelCompleted;
    let stay = stay.frame(16, false, false, false, W, H);
    assert!(matches!(stay.state, GameState::LevelCompleted));
}

#[test]
fn reset_game_clears_the_round() {
    let mut score: i64 = 123;
    let mut lives: i64 = 1;
    let mut blocks: Vec<Block> = Vec::new();
    let mut balls: Vec<Ball> = vec![falling_ball(), falling_ball()];
    let mut player = breakout::entities::Player::new(W, H);
    reset_game(&mut score, &mut lives, &mut blocks, &mut balls, &mut player, W, H);
    assert_eq!(score, 0);
    assert_eq!(lives, 3);
    assert_eq!(balls.len(), 0);
    assert_eq!(blocks.len(), 36);
    assert_eq!(count_special(&blocks), 3);
    assert_eq!(player.rect.x, (W - PLAYER_W) / 2);
}

#[test]
fn paddle_bounce_returns_the_ball_upward() {
    // A ball dropped straight onto the paddle bounces up instead of being
    // lost: no life is taken and its y velocity turns negative.
    let mut s = Session::new(W, H);
    s.state = GameState::Game;
    let px = s.player.rect.x;
    let mut ball = Ball::new_with_heading(Vec2 { x: px + 50 * PX, y: 430 * PX }, 0);
    ball.vel = Vec2 { x: 0, y: 1000 };
    s.balls = vec![ball];
    let mut bounced = false;
    let mut s2 = s;
    for _ in 0..10 {
        s2 = s2.tick(100, false, false, W, H);
        if s2.balls[0].vel.y < 0 {
            bounced = true;
            break;
        }
    }
    assert!(bounced);
    assert_eq!(s2.player_lives, 3);
}

#[test]
fn a_block_scores_only_once_per_destruction() {
    // Two balls overlapping the same block in one frame: the first contact
    // destroys it (ten points); the second merely bounces off the remains
    // before the removal pass, with no further score.
    let mut s = Session::new(W, H);
    s.state = GameState::Game;
    s.blocks = vec![Block::new(Vec2 { x: 200 * PX, y: 200 * PX }, BlockType::Regular)];
    let mut ball_a = Ball::new_with_heading(Vec2 { x: 200 * PX, y: 200 * PX }, 0);
    ball_a.vel = Vec2 { x: 0, y: 1000 };
    let mut ball_b = Ball::new_with_heading(Vec2 { x: 250 * PX, y: 200 * PX }, 0);
    ball_b.vel = Vec2 { x: 0, y: 1000 };
    s.balls = vec![ball_a, ball_b];
    let s = s.tick(0, false, false, W, H);
    assert_eq!(s.score, 10);
    assert_eq!(s.blocks.len(), 0);
    assert_eq!(s.balls.len(), 2);
    assert!(matches!(s.state, GameState::LevelCompleted));
}

#[test]
fn two_balls_destroy_two_blocks_in_one_frame() {
    // Both balls act every frame: each sits on its own block, so one frame
    // scores twice and removes both blocks.
    let mut s = Session::new(W, H);
    s.state = GameState::Game;
    s.blocks = vec![
        Block::new(Vec2 { x: 100 * PX, y: 200 * PX }, BlockType::Regular),
        Block::new(Vec2 { x: 400 * PX, y: 200 * PX }, BlockType::Regular),
    ];
    let mut ball_a = Ball::new_with_heading(Vec2 { x: 100 * PX, y: 200 * PX }, 0);
    ball_a.vel = Vec2 { x: 0, y: 1000 };
    let mut ball_b = Ball::new_with_heading(Vec2 { x: 400 * PX, y: 200 * PX }, 0);
    ball_b.vel = Vec2 { x: 0, y: 1000 };
    s.balls = vec![ball_a, ball_b];
    let s = s.tick(0, false, false, W, H);
    assert_eq!(s.score, 20);
    assert_eq!(s.blocks.len(), 0);
    assert_eq!(s.balls.len(), 2);
    // Each ball was pushed down off its block's top-left corner and kept its
    // place in the list.
    assert_eq!(s.balls[0].rect.y, 240 * PX);
    assert_eq!(s.balls[1].rect.y, 240 * PX);
    assert_eq!(s.balls[0].rect.x, 100 * PX);
    assert_eq!(s.balls[1].rect.x, 400 * PX);
    assert!(matches!(s.state, GameState::LevelCompleted));
}
