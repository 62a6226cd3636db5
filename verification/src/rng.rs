//! Random draws for ball headings and special-block placement.
//!
//! The engine never relies on the distribution of a draw, only on its range:
//! every consumer is verified for every value the range admits.

use vstd::prelude::*;

verus! {

/// Relies on macroquad::rand::gen_range over usize (quad_rand): one 32-bit
/// draw is scaled by `(high - low) / 2^32`, so for ranges this small the
/// result always lies in `[low, high)`.
#[verifier::external_body]
pub(crate) fn gen_index(low: usize, high: usize) -> (r: usize)
    requires
        low < high,
        high <= 1_000_000,
    ensures
        low <= r < high,
{
    macroquad::rand::gen_range(low, high)
}

/// Relies on macroquad::rand::gen_range over i64 (quad_rand): same scaling as
/// for usize. The scaled draw is truncated toward zero, which stays inside
/// `[low, high)` only while `high` is positive (a negative draw just below
/// `high` would truncate up to it), hence the positive lower bound on `high`.
#[verifier::external_body]
pub(crate) fn gen_signed(low: i64, high: i64) -> (r: i64)
    requires
        -1_000_000 <= low < high <= 1_000_000,
        1 <= high,
    ensures
        low <= r < high,
{
    macroquad::rand::gen_range(low, high)
}

} // verus!
