//! Projection from model space to screen space: a similarity transform
//! `screen = center + (p - eye) * scale`, centered on the fixed eye point
//! the zoom converges toward.
//!
//! Model points are carried in micro-units (millionths of a model unit), so
//! the eye point `(0.723606, 0.276393)` is exact; screen coordinates come
//! out in milli-pixels (thousandths of a pixel); the zoom scale is given in
//! milli-pixels per model unit. The one rounding step — dividing the
//! micro-unit product back down — truncates toward zero and is stated
//! exactly.

use vstd::prelude::*;

verus! {

/// Micro-units per model unit.
pub const MICRO_PER_UNIT: i64 = 1_000_000;

/// The eye point's x coordinate, in micro-units: 0.723606 model units.
pub const EYE_X_MICRO: i64 = 723_606;

/// The eye point's y coordinate, in micro-units: 0.276393 model units.
pub const EYE_Y_MICRO: i64 = 276_393;

/// The zoom scale at time zero: 160 px per model unit, in milli-pixels.
pub const BASE_SCALE_MILLI: u32 = 160_000;

/// Model points handed to the projection stay within this bound
/// (micro-units): the layout's coordinate bound in micro-units, plus one
/// term ceiling of arc-sample slack.
pub const P_MICRO_LIMIT: i128 = 60_000_000_000_000_000_000_000;

/// Screen centers stay within this bound (milli-pixels).
pub const CENTER_MILLI_LIMIT: i64 = 1_000_000_000_000;

/// Integer division truncating toward zero, for a positive divisor.
pub open spec fn trunc_div(n: int, d: int) -> int
    recommends
        d > 0,
{
    if n >= 0 {
        n / d
    } else {
        -((-n) / d)
    }
}

/// Where a model axis coordinate lands on screen, in milli-pixels:
/// `center + (p - eye) * scale`, with the single truncating division back
/// down from micro-units.
pub open spec fn project_axis_spec(
    p_micro: int,
    eye_micro: int,
    scale_milli: int,
    center_milli: int,
) -> int {
    center_milli + trunc_div((p_micro - eye_micro) * scale_milli, MICRO_PER_UNIT as int)
}

/// Project one axis coordinate of a model point to screen space.
pub fn project_axis(p_micro: i128, eye_micro: i64, scale_milli: u32, center_milli: i64) -> (r:
    i128)
    requires
        -P_MICRO_LIMIT <= p_micro <= P_MICRO_LIMIT,
        -MICRO_PER_UNIT <= eye_micro <= MICRO_PER_UNIT,
        scale_milli <= BASE_SCALE_MILLI,
        -CENTER_MILLI_LIMIT <= center_milli <= CENTER_MILLI_LIMIT,
    ensures
        r == project_axis_spec(
            p_micro as int,
            eye_micro as int,
            scale_milli as int,
            center_milli as int,
        ),
{
    let d: i128 = p_micro - eye_micro as i128;
    proof {
        assert((d as int) * (scale_milli as int) <= 61_000_000_000_000_000_000_000int * 160_000
            && (d as int) * (scale_milli as int) >= -61_000_000_000_000_000_000_000int * 160_000)
            by (nonlinear_arith)
            requires
                -61_000_000_000_000_000_000_000int <= d as int
                    <= 61_000_000_000_000_000_000_000int,
                0 <= scale_milli as int <= 160_000,
        ;
    }
    let n: i128 = d * (scale_milli as i128);
    if n >= 0 {
        let q: u128 = (n as u128) / 1_000_000u128;
        center_milli as i128 + (q as i128)
    } else {
        let q: u128 = ((-n) as u128) / 1_000_000u128;
        center_milli as i128 - (q as i128)
    }
}

/// The apparent on-screen size of a square, in milli-pixels: with exact
/// arithmetic the projected width of a square of model size `size` is
/// exactly `size * scale`.
pub open spec fn apparent_size_spec(size: int, scale_milli: int) -> int {
    size * scale_milli
}

/// Compute a square's apparent on-screen size in milli-pixels.
pub fn apparent_size_milli(size: u64, scale_milli: u32) -> (r: u128)
    requires
        size <= crate::fib::TERM_CEILING,
    ensures
        r == apparent_size_spec(size as int, scale_milli as int),
{
    proof {
        assert((size as int) * (scale_milli as int) <= 1_000_000_000_000_000int * 4_294_967_295)
            by (nonlinear_arith)
            requires
                0 <= size as int <= 1_000_000_000_000_000int,
                0 <= scale_milli as int <= 4_294_967_295,
        ;
    }
    (size as u128) * (scale_milli as u128)
}

/// Projection fixed point: the model point equal to the eye maps to
/// exactly the viewport center, whatever the scale (and so whatever the
/// time).
pub proof fn lemma_projection_fixed_point(eye_micro: int, scale_milli: int, center_milli: int)
    ensures
        project_axis_spec(eye_micro, eye_micro, scale_milli, center_milli) == center_milli,
{
    assert((eye_micro - eye_micro) * scale_milli == 0);
}

} // verus!
