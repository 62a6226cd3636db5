//! Collision resolution between a moving rectangle and a static one: detect
//! the overlap, push the moving rectangle out along one axis and reflect the
//! matching velocity component.
//!
//! The corrected axis is chosen by the shape of the intersection: a wide
//! intersection means the contact was vertical (bounce on y), otherwise the
//! bounce is horizontal. Only one axis is corrected per call.

use vstd::prelude::*;
use crate::geom::{
    Rect, Vec2, rect_positive, rect_bounded, intersects, overlap_w, overlap_h, bottom, right,
    center2_x, center2_y, COORD_LIMIT,
};

verus! {

/// Velocity components this large are still safe to negate and square.
pub const VEL_LIMIT: i64 = 1_000_000;

pub open spec fn vel_bounded(v: Vec2) -> bool {
    -VEL_LIMIT <= v.x && v.x <= VEL_LIMIT && -VEL_LIMIT <= v.y && v.y <= VEL_LIMIT
}

pub open spec fn abs_i(v: int) -> int {
    if v < 0 { -v } else { v }
}

/// Squared length of a velocity vector; a unit direction has squared length
/// 1_000_000.
pub open spec fn speed_sq(v: Vec2) -> int {
    v.x * v.x + v.y * v.y
}

/// Where the moving rectangle `a` ends up after resolving against the static
/// rectangle `b`: unchanged without an intersection, otherwise pushed out of
/// `b` along the corrected axis by the extent of the intersection, away from
/// `b`'s center.
pub open spec fn resolved_rect(a: Rect, b: Rect) -> Rect {
    if !intersects(a, b) {
        a
    } else if overlap_w(a, b) > overlap_h(a, b) {
        if center2_y(b) > center2_y(a) {
            Rect { y: (a.y - overlap_h(a, b)) as i64, ..a }
        } else if center2_y(b) < center2_y(a) {
            Rect { y: (a.y + overlap_h(a, b)) as i64, ..a }
        } else {
            a
        }
    } else {
        if center2_x(b) > center2_x(a) {
            Rect { x: (a.x - overlap_w(a, b)) as i64, ..a }
        } else if center2_x(b) < center2_x(a) {
            Rect { x: (a.x + overlap_w(a, b)) as i64, ..a }
        } else {
            a
        }
    }
}

/// The velocity after resolving: the corrected axis component is rebuilt from
/// its magnitude with its sign forced away from `b`'s center (zero when the
/// centers are aligned on that axis), the other component is untouched.
pub open spec fn resolved_vel(a: Rect, vel: Vec2, b: Rect) -> Vec2 {
    if !intersects(a, b) {
        vel
    } else if overlap_w(a, b) > overlap_h(a, b) {
        if center2_y(b) > center2_y(a) {
            Vec2 { x: vel.x, y: (-abs_i(vel.y as int)) as i64 }
        } else if center2_y(b) < center2_y(a) {
            Vec2 { x: vel.x, y: abs_i(vel.y as int) as i64 }
        } else {
            Vec2 { x: vel.x, y: 0 }
        }
    } else {
        if center2_x(b) > center2_x(a) {
            Vec2 { x: (-abs_i(vel.x as int)) as i64, y: vel.y }
        } else if center2_x(b) < center2_x(a) {
            Vec2 { x: abs_i(vel.x as int) as i64, y: vel.y }
        } else {
            Vec2 { x: 0, y: vel.y }
        }
    }
}

/// Resolves a collision of the moving rectangle `a` (with velocity `vel`)
/// against the static rectangle `b`. Returns whether contact occurred; on
/// contact, mutates `a` and `vel` as `resolved_rect` / `resolved_vel` say.
/// Without an intersection this is a no-op.
pub fn resolve_collision(a: &mut Rect, vel: &mut Vec2, b: &Rect) -> (contact: bool)
    requires
        rect_bounded(*old(a)),
        rect_bounded(*b),
        vel_bounded(*old(vel)),
    ensures
        contact == intersects(*old(a), *b),
        *final(a) == resolved_rect(*old(a), *b),
        *final(vel) == resolved_vel(*old(a), *old(vel), *b),
{
    let inter = match a.intersect(b) {
        Some(inter) => inter,
        None => {
            return false;
        },
    };
    proof {
        assert(0 <= overlap_w(*old(a), *b) <= COORD_LIMIT);
        assert(0 <= overlap_h(*old(a), *b) <= COORD_LIMIT);
    }
    let to_x = (2 * b.x + b.w) - (2 * a.x + a.w);
    let to_y = (2 * b.y + b.h) - (2 * a.y + a.h);
    if inter.w > inter.h {
        if to_y > 0 {
            a.y = a.y - inter.h;
            vel.y = if vel.y < 0 { vel.y } else { -vel.y };
        } else if to_y < 0 {
            a.y = a.y + inter.h;
            vel.y = if vel.y < 0 { -vel.y } else { vel.y };
        } else {
            vel.y = 0;
        }
    } else {
        if to_x > 0 {
            a.x = a.x - inter.w;
            vel.x = if vel.x < 0 { vel.x } else { -vel.x };
        } else if to_x < 0 {
            a.x = a.x + inter.w;
            vel.x = if vel.x < 0 { -vel.x } else { vel.x };
        } else {
            vel.x = 0;
        }
    }
    true
}

/// Resolving two rectangles that do not intersect is a no-op: the call
/// reports no contact and leaves the moving rectangle and its velocity
/// bit-identical.
pub proof fn lemma_resolve_disjoint_no_op(a: Rect, vel: Vec2, b: Rect)
    requires
        !intersects(a, b),
    ensures
        resolved_rect(a, b) == a,
        resolved_vel(a, vel, b) == vel,
{
}

/// Resolution never changes the squared length of the velocity, provided the
/// centers are not aligned on the corrected axis: only the sign of one
/// component is rebuilt, never its magnitude. (With aligned centers the
/// corrected component is zeroed, which does change the length.)
pub proof fn lemma_resolve_preserves_speed(a: Rect, vel: Vec2, b: Rect)
    requires
        vel_bounded(vel),
        intersects(a, b) ==> (
            if overlap_w(a, b) > overlap_h(a, b) {
                center2_y(b) != center2_y(a)
            } else {
                center2_x(b) != center2_x(a)
            }
        ),
    ensures
        speed_sq(resolved_vel(a, vel, b)) == speed_sq(vel),
{
    let rv = resolved_vel(a, vel, b);
    assert(rv.x * rv.x == vel.x * vel.x && rv.y * rv.y == vel.y * vel.y) by (nonlinear_arith)
        requires
            (rv.x == vel.x || rv.x == -vel.x) && (rv.y == vel.y || rv.y == -vel.y),
    ;
}

/// After a bounce in a crossing configuration the rectangles no longer
/// overlap on the corrected axis (they exactly touch), and the corrected
/// velocity component points away from the static rectangle's center.
///
/// A vertical bounce with the moving rectangle strictly above the static one
/// leaves its bottom edge on the static rectangle's top edge and the y
/// velocity non-positive; the three mirror cases are symmetric. (When one
/// rectangle's extent contains the other's on the corrected axis the push
/// need not separate them, so those configurations are excluded here.)
pub proof fn lemma_resolve_separates(a: Rect, vel: Vec2, b: Rect)
    requires
        intersects(a, b),
        vel_bounded(vel),
        rect_positive(a),
        rect_positive(b),
        rect_bounded(a),
        rect_bounded(b),
    ensures
        overlap_w(a, b) > overlap_h(a, b) && a.y < b.y && bottom(a) < bottom(b) ==> {
            &&& bottom(resolved_rect(a, b)) == b.y
            &&& overlap_h(resolved_rect(a, b), b) == 0
            &&& resolved_vel(a, vel, b).y == -abs_i(vel.y as int)
        },
        overlap_w(a, b) > overlap_h(a, b) && a.y > b.y && bottom(a) > bottom(b) ==> {
            &&& resolved_rect(a, b).y == bottom(b)
            &&& overlap_h(resolved_rect(a, b), b) == 0
            &&& resolved_vel(a, vel, b).y == abs_i(vel.y as int)
        },
        overlap_w(a, b) <= overlap_h(a, b) && a.x < b.x && right(a) < right(b) ==> {
            &&& right(resolved_rect(a, b)) == b.x
            &&& overlap_w(resolved_rect(a, b), b) == 0
            &&& resolved_vel(a, vel, b).x == -abs_i(vel.x as int)
        },
        overlap_w(a, b) <= overlap_h(a, b) && a.x > b.x && right(a) > right(b) ==> {
            &&& resolved_rect(a, b).x == right(b)
            &&& overlap_w(resolved_rect(a, b), b) == 0
            &&& resolved_vel(a, vel, b).x == abs_i(vel.x as int)
        },
{
}

} // verus!
