use breakout::collide::resolve_collision;
use breakout::entities::{Ball, Block, BlockType, Player, BALL_SIZE, BLOCK_H, BLOCK_W, PLAYER_H, PLAYER_W, PX};
use breakout::geom::{Rect, Vec2};


#[test]
fn resolve_disjoint_is_noop() {
    let mut a = Rect { x: 0, y: 0, w: 50 * PX, h: 50 * PX };
    let mut vel = Vec2 { x: 600, y: 800 };
    let b = Rect { x: 200 * PX, y: 200 * PX, w: 100 * PX, h: 40 * PX };
    let a_before = a;
    let vel_before = vel;
    let contact = resolve_collision(&mut a, &mut vel, &b);
    assert!(!contact);
    assert_eq!(a, a_before);
    assert_eq!(vel, vel_before);
}

#[test]
fn resolve_wide_overlap_bounces_up() {
    // Ball overlapping the top of a block: the intersection is wider than it
    // is tall, so the bounce is vertical and pushes the ball up by the
    // intersection height.
    let mut a = Rect { x: 0, y: 0, w: 50 * PX, h: 50 * PX };
    let mut vel = Vec2 { x: 0, y: 1000 };
    let b = Rect { x: 0, y: 40 * PX, w: 100 * PX, h: 40 * PX };
    let contact = resolve_collision(&mut a, &mut vel, &b);
    assert!(contact);
    assert_eq!(a, Rect { x: 0, y: -10 * PX, w: 50 * PX, h: 50 * PX });
    assert_eq!(vel, Vec2 { x: 0, y: -1000 });
}

#[test]
fn resolve_tall_overlap_bounces_left() {
    // Ball overlapping the left side of a block: the intersection is taller
    // than wide, so the bounce is horizontal.
    let mut a = Rect { x: 60 * PX, y: 0, w: 50 * PX, h: 50 * PX };
    let mut vel = Vec2 { x: 800, y: 600 };
    let b = Rect { x: 100 * PX, y: 0, w: 100 * PX, h: 40 * PX };
    let contact = resolve_collision(&mut a, &mut vel, &b);
    assert!(contact);
    // Intersection width is 10 px; the block's center is to the right, so the
    // ball is pushed left and its x velocity turns negative.
    assert_eq!(a, Rect { x: 50 * PX, y: 0, w: 50 * PX, h: 50 * PX });
    assert_eq!(vel, Vec2 { x: -800, y: 600 });
}

#[test]
fn resolve_touching_edges_counts_as_contact() {
    let mut a = Rect { x: 0, y: 0, w: 50 * PX, h: 50 * PX };
    let mut vel = Vec2 { x: 0, y: 1000 };
    let b = Rect { x: 0, y: 50 * PX, w: 100 * PX, h: 40 * PX };
    let contact = resolve_collision(&mut a, &mut vel, &b);
    assert!(contact);
    // Zero-height intersection: no push, but the velocity still reflects.
    assert_eq!(a, Rect { x: 0, y: 0, w: 50 * PX, h: 50 * PX });
    assert_eq!(vel, Vec2 { x: 0, y: -1000 });
}

#[test]
fn resolve_aligned_centers_zeroes_component() {
    // Centers aligned on the corrected axis: the component is zeroed.
    let mut a = Rect { x: 25 * PX, y: 0, w: 50 * PX, h: 50 * PX };
    let mut vel = Vec2 { x: 600, y: 800 };
    let b = Rect { x: 0, y: 45 * PX, w: 100 * PX, h: 40 * PX };
    // Intersection: width 50 px, height 5 px -> vertical bounce; the centers
    // differ vertically, so this checks the x-bounce aligned case instead via
    // a tall static body.
    let contact = resolve_collision(&mut a, &mut vel, &b);
    assert!(contact);
    assert_eq!(vel.y, -800);

    // Now an x-bounce with x centers aligned exactly.
    let mut a2 = Rect { x: 0, y: 0, w: 100 * PX, h: 100 * PX };
    let mut vel2 = Vec2 { x: 700, y: 700 };
    let b2 = Rect { x: 25 * PX, y: 50 * PX, w: 50 * PX, h: 200 * PX };
    // Intersection is 50 px wide and 50 px tall -> horizontal bounce; the x
    // centers coincide, so velocity.x becomes zero and nothing moves.
    let contact2 = resolve_collision(&mut a2, &mut vel2, &b2);
    assert!(contact2);
    assert_eq!(a2.x, 0);
    assert_eq!(vel2, Vec2 { x: 0, y: 700 });
}

#[test]
fn ball_update_moves_exactly_and_keeps_heading() {
    let mut b = Ball::new_with_heading(Vec2 { x: 100 * PX, y: 100 * PX }, 800);
    assert_eq!(b.vel, Vec2 { x: 600, y: 800 });
    b.update(100, 800 * PX);
    // Velocity 600/1000 of 400 px/s over 0.1 s: 24 px; 800/1000: 32 px.
    assert_eq!(b.rect.x, 124 * PX);
    assert_eq!(b.rect.y, 132 * PX);
    assert_eq!(b.vel, Vec2 { x: 600, y: 800 });
    assert_eq!(b.vel.x * b.vel.x + b.vel.y * b.vel.y, 1_000_000);
}

#[test]
fn ball_update_left_wall_forces_rightward() {
    let mut b = Ball::new_with_heading(Vec2 { x: 10 * PX, y: 100 * PX }, -1000);
    b.update(100, 800 * PX);
    // Moved 24 px left past the wall: x velocity is forced to a full unit
    // rightward, not merely flipped.
    assert_eq!(b.rect.x, -14 * PX);
    assert_eq!(b.vel.x, 1000);
    assert_eq!(b.vel.y, 800);
}

#[test]
fn ball_update_right_wall_forces_leftward() {
    let mut b = Ball::new_with_heading(Vec2 { x: 740 * PX, y: 100 * PX }, 1000);
    b.update(100, 800 * PX);
    assert_eq!(b.rect.x, 764 * PX);
    assert_eq!(b.vel.x, -1000);
}

#[test]
fn ball_update_top_wall_forces_downward() {
    let mut b = Ball::new_with_heading(Vec2 { x: 100 * PX, y: 10 * PX }, 0);
    b.vel = Vec2 { x: 0, y: -1000 };
    b.update(100, 800 * PX);
    assert_eq!(b.rect.y, -30 * PX);
    assert_eq!(b.vel.y, 1000);
}

#[test]
fn ball_new_has_unit_downward_heading() {
    for _ in 0..20 {
        let b = Ball::new(Vec2 { x: 0, y: 0 });
        assert_eq!(b.vel.x * b.vel.x + b.vel.y * b.vel.y, 1_000_000);
        assert!(b.vel.y >= 800);
        assert!(-600 <= b.vel.x && b.vel.x <= 600);
        assert_eq!(b.rect.w, BALL_SIZE);
        assert_eq!(b.rect.h, BALL_SIZE);
    }
}

#[test]
fn player_new_is_centered_above_bottom() {
    let p = Player::new(800 * PX, 600 * PX);
    assert_eq!(p.rect.x, (800 * PX - PLAYER_W) / 2);
    assert_eq!(p.rect.y, 600 * PX - 100 * PX);
    assert_eq!(p.rect.w, PLAYER_W);
    assert_eq!(p.rect.h, PLAYER_H);
}

#[test]
fn player_update_moves_and_clamps() {
    let mut p = Player::new(800 * PX, 600 * PX);
    let x0 = p.rect.x;
    p.update(100, false, true, 800 * PX);
    // 700 px/s over 0.1 s = 70 px.
    assert_eq!(p.rect.x, x0 + 70 * PX);
    p.update(100, true, false, 800 * PX);
    assert_eq!(p.rect.x, x0);
    // Both keys held: no motion.
    p.update(100, true, true, 800 * PX);
    assert_eq!(p.rect.x, x0);
    // Long presses clamp at the walls.
    for _ in 0..20 {
        p.update(100, true, false, 800 * PX);
    }
    assert_eq!(p.rect.x, 0);
    for _ in 0..20 {
        p.update(100, false, true, 800 * PX);
    }
    assert_eq!(p.rect.x, 800 * PX - PLAYER_W);
}

#[test]
fn block_new_has_one_life() {
    let b = Block::new(Vec2 { x: 5 * PX, y: 6 * PX }, BlockType::SpawnBallOnDeath);
    assert_eq!(b.rect, Rect { x: 5 * PX, y: 6 * PX, w: BLOCK_W, h: BLOCK_H });
    assert_eq!(b.lives, 1);
    assert!(matches!(b.block_type, BlockType::SpawnBallOnDeath));
}

#[test]
fn wall_checks_form_one_chain() {
    // A ball past the left wall and past the top in the same frame: only the
    // left-wall correction fires that frame; the top check is its else
    // branch, so the y velocity is left alone.
    let mut b = Ball::new_with_heading(Vec2 { x: 10 * PX, y: 10 * PX }, 0);
    b.vel = Vec2 { x: -1000, y: -1000 };
    b.update(100, 800 * PX);
    assert_eq!(b.rect.x, -30 * PX);
    assert_eq!(b.rect.y, -30 * PX);
    assert_eq!(b.vel.x, 1000);
    assert_eq!(b.vel.y, -1000);
    // The next frame, back inside the vertical walls, the top check runs.
    b.update(100, 800 * PX);
    assert_eq!(b.rect.x, 10 * PX);
    assert_eq!(b.rect.y, -70 * PX);
    assert_eq!(b.vel.y, 1000);
}
