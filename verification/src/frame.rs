//! The per-frame pipeline: generate the sequence, lay out the squares,
//! project them to screen space, apply the visibility and style policy, and
//! emit one render record per surviving square.
//!
//! The host supplies the zoom scale for the current time and a table of
//! first-quadrant unit-circle samples (in micro-units) for the arc
//! polylines; the pipeline rotates those samples by the arc's start quarter
//! exactly, so one table serves all four start angles. The record list is
//! pinned exactly: a square appears if and only if it survives the
//! small-cull and no square up to it trips the oversize early exit, and
//! every field of a record is stated by the projection and style formulas.

use vstd::prelude::*;
use vstd::arithmetic::mul::lemma_mul_inequality;
use crate::fib::{fib_prefix_wf, int_terms, lemma_fib_prefix_monotone, MAX_TERMS, TERM_CEILING};
use crate::layout::{layout_squares, square_at, square_bounded, PlacedSquare, SquareModel};
use crate::project::{
    apparent_size_milli, apparent_size_spec, project_axis, project_axis_spec, BASE_SCALE_MILLI,
    CENTER_MILLI_LIMIT, EYE_X_MICRO, EYE_Y_MICRO, MICRO_PER_UNIT,
};
use crate::style::{
    alpha_spec, compute_alpha, culled_small, font_milli_spec, label_font_milli, label_shown_spec,
    oversized, CULL_SMALL_MILLI, LABEL_MIN_ALPHA, LABEL_MIN_MILLI,
};

verus! {

/// Arc sample count: each quarter circle is sampled at 80 equal angular
/// steps, giving 81 polyline points.
pub const ARC_STEPS: usize = 80;

/// Stroke widths, in pixels: the square outline, the wide glow pass of the
/// arc, and the crisp pass over it.
pub const RECT_STROKE_WIDTH_PX: u32 = 1;

pub const GLOW_STROKE_WIDTH_PX: u32 = 6;

pub const CURVE_STROKE_WIDTH_PX: u32 = 3;

/// Arc colors: a warm orange glow under a brighter orange curve.
pub const GLOW_RED: u8 = 255;

pub const GLOW_GREEN: u8 = 140;

pub const GLOW_BLUE: u8 = 0;

pub const CURVE_RED: u8 = 255;

pub const CURVE_GREEN: u8 = 160;

pub const CURVE_BLUE: u8 = 20;

/// The numeric label of a surviving square, centered in it.
pub struct LabelRender {
    pub value: u64,
    pub font_milli: u64,
    pub x_milli: i128,
    pub y_milli: i128,
}

/// Everything the host needs to draw one surviving square: its screen
/// rectangle (milli-pixels), its apparent size, its fade alpha together
/// with the derived outline and glow alphas, its optional label, and the
/// projected arc polyline.
pub struct SquareRender {
    pub index: usize,
    pub min_x_milli: i128,
    pub min_y_milli: i128,
    pub max_x_milli: i128,
    pub max_y_milli: i128,
    pub s_milli: u128,
    pub alpha: u8,
    pub rect_alpha: u8,
    pub glow_alpha: u8,
    pub label: Option<LabelRender>,
    pub arc_milli: Vec<(i128, i128)>,
}

/// Rotate a unit-circle sample by a quarter-turn count: the exact effect
/// of adding `quarter` × π/2 to the sample's angle.
pub open spec fn rotate_quarter_spec(c: int, s: int, quarter: int) -> (int, int) {
    if quarter == 0 {
        (c, s)
    } else if quarter == 1 {
        (-s, c)
    } else if quarter == 2 {
        (-c, -s)
    } else {
        (s, -c)
    }
}

/// The model point (micro-units) of one arc sample: the arc center plus
/// the square's size times the rotated unit-circle sample.
pub open spec fn arc_point_micro_spec(sq: SquareModel, c: int, s: int) -> (int, int) {
    let r = rotate_quarter_spec(c, s, sq.quarter);
    (
        sq.arc_cx * (MICRO_PER_UNIT as int) + sq.size * r.0,
        sq.arc_cy * (MICRO_PER_UNIT as int) + sq.size * r.1,
    )
}

/// Where one arc sample lands on screen (milli-pixels).
pub open spec fn arc_screen_spec(
    sq: SquareModel,
    c: int,
    s: int,
    scale_milli: int,
    cx_milli: int,
    cy_milli: int,
) -> (int, int) {
    let p = arc_point_micro_spec(sq, c, s);
    (
        project_axis_spec(p.0, EYE_X_MICRO as int, scale_milli, cx_milli),
        project_axis_spec(p.1, EYE_Y_MICRO as int, scale_milli, cy_milli),
    )
}

/// Whether term `i` is drawn this frame: the viewport is not empty, the
/// square is at least a tenth of a pixel wide, and no square up to and
/// including it has tripped the oversize early exit.
pub open spec fn included(sizes: Seq<int>, scale_milli: int, w_px: int, i: int) -> bool {
    &&& w_px > 0
    &&& !culled_small(apparent_size_spec(sizes[i], scale_milli))
    &&& forall|j: int| 0 <= j <= i ==> !oversized(
        #[trigger] apparent_size_spec(sizes[j], scale_milli),
        w_px * 1000,
    )
}

/// Every field of one render record, pinned by the projection and style
/// formulas for its square.
pub open spec fn entry_matches(
    e: SquareRender,
    sq: SquareModel,
    scale_milli: int,
    w_px: int,
    cx_milli: int,
    cy_milli: int,
    circle: Seq<(i64, i64)>,
) -> bool {
    let s_m = apparent_size_spec(sq.size, scale_milli);
    let a = alpha_spec(s_m, w_px * 1000);
    &&& e.s_milli as int == s_m
    &&& e.min_x_milli as int == project_axis_spec(
        sq.min_x * (MICRO_PER_UNIT as int),
        EYE_X_MICRO as int,
        scale_milli,
        cx_milli,
    )
    &&& e.min_y_milli as int == project_axis_spec(
        sq.min_y * (MICRO_PER_UNIT as int),
        EYE_Y_MICRO as int,
        scale_milli,
        cy_milli,
    )
    &&& e.max_x_milli as int == project_axis_spec(
        (sq.min_x + sq.size) * (MICRO_PER_UNIT as int),
        EYE_X_MICRO as int,
        scale_milli,
        cx_milli,
    )
    &&& e.max_y_milli as int == project_axis_spec(
        (sq.min_y + sq.size) * (MICRO_PER_UNIT as int),
        EYE_Y_MICRO as int,
        scale_milli,
        cy_milli,
    )
    &&& e.alpha as int == a
    &&& e.rect_alpha as int == a / 4
    &&& e.glow_alpha as int == a / 6
    &&& match e.label {
        Some(l) => {
            &&& label_shown_spec(s_m, a)
            &&& l.value as int == sq.size
            &&& l.font_milli as int == font_milli_spec(s_m)
            &&& l.x_milli as int == project_axis_spec(
                sq.min_x * (MICRO_PER_UNIT as int) + sq.size * 500_000,
                EYE_X_MICRO as int,
                scale_milli,
                cx_milli,
            )
            &&& l.y_milli as int == project_axis_spec(
                sq.min_y * (MICRO_PER_UNIT as int) + sq.size * 500_000,
                EYE_Y_MICRO as int,
                scale_milli,
                cy_milli,
            )
        },
        None => !label_shown_spec(s_m, a),
    }
    &&& e.arc_milli@.len() == ARC_STEPS + 1
    &&& forall|k: int| 0 <= k <= ARC_STEPS ==> {
        let p = arc_screen_spec(
            sq,
            circle[k].0 as int,
            circle[k].1 as int,
            scale_milli,
            cx_milli,
            cy_milli,
        );
        (#[trigger] e.arc_milli@[k]).0 as int == p.0 && e.arc_milli@[k].1 as int == p.1
    }
}

/// A well-formed table of first-quadrant unit-circle samples: 81 entries,
/// each within one unit (micro-units) of magnitude on both axes.
pub open spec fn circle_table_wf(circle: Seq<(i64, i64)>) -> bool {
    &&& circle.len() == ARC_STEPS + 1
    &&& forall|k: int| 0 <= k < circle.len() ==> {
        let p = #[trigger] circle[k];
        -1_000_000 <= p.0 <= 1_000_000 && -1_000_000 <= p.1 <= 1_000_000
    }
}

/// The oversize early exit is safe: under the Fibonacci recurrence the
/// terms are non-decreasing, so for a fixed frame the apparent on-screen
/// size is non-decreasing in the term index, and every square the exit
/// skips is at least as wide as the one that tripped it.
pub proof fn lemma_apparent_size_monotone(sizes: Seq<int>, scale_milli: int, i: int, j: int)
    requires
        fib_prefix_wf(sizes),
        0 <= i <= j < sizes.len(),
        scale_milli >= 0,
    ensures
        apparent_size_spec(sizes[i], scale_milli) <= apparent_size_spec(sizes[j], scale_milli),
{
    lemma_fib_prefix_monotone(sizes);
    lemma_mul_inequality(sizes[i], sizes[j], scale_milli);
}

/// Project one arc sample of a placed square to screen space.
fn arc_screen_point(
    sq: &PlacedSquare,
    c: i64,
    s: i64,
    scale_milli: u32,
    cx_milli: i64,
    cy_milli: i64,
) -> (p: (i128, i128))
    requires
        square_bounded(sq@),
        -1_000_000 <= c <= 1_000_000,
        -1_000_000 <= s <= 1_000_000,
        scale_milli <= BASE_SCALE_MILLI,
        -CENTER_MILLI_LIMIT <= cx_milli <= CENTER_MILLI_LIMIT,
        -CENTER_MILLI_LIMIT <= cy_milli <= CENTER_MILLI_LIMIT,
    ensures
        (p.0 as int, p.1 as int) == arc_screen_spec(
            sq@,
            c as int,
            s as int,
            scale_milli as int,
            cx_milli as int,
            cy_milli as int,
        ),
{
    let q = sq.quarter;
    let (rx, ry): (i64, i64) = if q == 0 {
        (c, s)
    } else if q == 1 {
        (-s, c)
    } else if q == 2 {
        (-c, -s)
    } else {
        (s, -c)
    };
    proof {
        assert((sq.size as int) * (rx as int) <= 1_000_000_000_000_000int * 1_000_000
            && (sq.size as int) * (rx as int) >= -1_000_000_000_000_000int * 1_000_000
            && (sq.size as int) * (ry as int) <= 1_000_000_000_000_000int * 1_000_000
            && (sq.size as int) * (ry as int) >= -1_000_000_000_000_000int * 1_000_000)
            by (nonlinear_arith)
            requires
                0 <= sq.size as int <= 1_000_000_000_000_000int,
                -1_000_000 <= rx as int <= 1_000_000,
                -1_000_000 <= ry as int <= 1_000_000,
        ;
    }
    let px_micro: i128 = (sq.arc_cx as i128) * 1_000_000 + (sq.size as i128) * (rx as i128);
    let py_micro: i128 = (sq.arc_cy as i128) * 1_000_000 + (sq.size as i128) * (ry as i128);
    let x = project_axis(px_micro, EYE_X_MICRO, scale_milli, cx_milli);
    let y = project_axis(py_micro, EYE_Y_MICRO, scale_milli, cy_milli);
    (x, y)
}

/// Render one frame: for every sequence term that survives the visibility
/// policy, in placement order, one fully determined render record. A term
/// is present if and only if `included` holds of it; the record's fields
/// are pinned by `entry_matches` against its placed square.
pub fn render_frame(
    terms: &Vec<u64>,
    scale_milli: u32,
    w_px: u32,
    cx_milli: i64,
    cy_milli: i64,
    circle: &Vec<(i64, i64)>,
) -> (out: Vec<SquareRender>)
    requires
        terms@.len() <= MAX_TERMS,
        forall|i: int| 0 <= i < terms@.len() ==> 1 <= #[trigger] terms@[i] <= TERM_CEILING,
        scale_milli <= BASE_SCALE_MILLI,
        -CENTER_MILLI_LIMIT <= cx_milli <= CENTER_MILLI_LIMIT,
        -CENTER_MILLI_LIMIT <= cy_milli <= CENTER_MILLI_LIMIT,
        circle_table_wf(circle@),
    ensures
        out@.len() <= terms@.len(),
        forall|k1: int, k2: int| 0 <= k1 < k2 < out@.len()
            ==> (#[trigger] out@[k1]).index < (#[trigger] out@[k2]).index,
        forall|k: int| 0 <= k < out@.len() ==> {
            let e = #[trigger] out@[k];
            &&& e.index < terms@.len()
            &&& included(int_terms(terms@), scale_milli as int, w_px as int, e.index as int)
            &&& entry_matches(
                e,
                square_at(int_terms(terms@), e.index as nat),
                scale_milli as int,
                w_px as int,
                cx_milli as int,
                cy_milli as int,
                circle@,
            )
        },
        forall|i: int| 0 <= i < terms@.len() && #[trigger] included(
            int_terms(terms@),
            scale_milli as int,
            w_px as int,
            i,
        ) ==> exists|k: int| 0 <= k < out@.len() && (#[trigger] out@[k]).index == i,
{
    let mut out: Vec<SquareRender> = Vec::new();
    if w_px == 0 {
        return out;
    }
    let ghost ms = int_terms(terms@);
    let (squares, _rect) = layout_squares(terms);
    let w_milli: u128 = (w_px as u128) * 1000;
    let mut i: usize = 0;
    while i < squares.len()
        invariant
            ms == int_terms(terms@),
            ms.len() == terms@.len(),
            forall|k: int| 0 <= k < ms.len() ==> ms[k] == terms@[k] as int,
            terms@.len() <= MAX_TERMS,
            forall|k: int| 0 <= k < terms@.len() ==> 1 <= #[trigger] terms@[k] <= TERM_CEILING,
            squares@.len() == terms@.len(),
            forall|j: int| 0 <= j < squares@.len()
                ==> (#[trigger] squares@[j])@ == square_at(ms, j as nat),
            forall|j: int| 0 <= j < squares@.len() ==> square_bounded((#[trigger] squares@[j])@),
            scale_milli <= BASE_SCALE_MILLI,
            1 <= w_px,
            w_milli == w_px as int * 1000,
            -CENTER_MILLI_LIMIT <= cx_milli <= CENTER_MILLI_LIMIT,
            -CENTER_MILLI_LIMIT <= cy_milli <= CENTER_MILLI_LIMIT,
            circle_table_wf(circle@),
            i <= squares@.len(),
            out@.len() <= i,
            forall|j: int| 0 <= j < i ==> !oversized(
                #[trigger] apparent_size_spec(ms[j], scale_milli as int),
                w_px as int * 1000,
            ),
            forall|k1: int, k2: int| 0 <= k1 < k2 < out@.len()
                ==> (#[trigger] out@[k1]).index < (#[trigger] out@[k2]).index,
            forall|k: int| 0 <= k < out@.len() ==> (#[trigger] out@[k]).index < i,
            forall|k: int| 0 <= k < out@.len() ==> {
                let e = #[trigger] out@[k];
                &&& e.index < terms@.len()
                &&& included(ms, scale_milli as int, w_px as int, e.index as int)
                &&& entry_matches(
                    e,
                    square_at(ms, e.index as nat),
                    scale_milli as int,
                    w_px as int,
                    cx_milli as int,
                    cy_milli as int,
                    circle@,
                )
            },
            forall|ii: int| 0 <= ii < i && #[trigger] included(
                ms,
                scale_milli as int,
                w_px as int,
                ii,
            ) ==> exists|k: int| 0 <= k < out@.len() && (#[trigger] out@[k]).index == ii,
        ensures
            forall|k1: int, k2: int| 0 <= k1 < k2 < out@.len()
                ==> (#[trigger] out@[k1]).index < (#[trigger] out@[k2]).index,
            out@.len() <= terms@.len(),
            forall|k: int| 0 <= k < out@.len() ==> {
                let e = #[trigger] out@[k];
                &&& e.index < terms@.len()
                &&& included(ms, scale_milli as int, w_px as int, e.index as int)
                &&& entry_matches(
                    e,
                    square_at(ms, e.index as nat),
                    scale_milli as int,
                    w_px as int,
                    cx_milli as int,
                    cy_milli as int,
                    circle@,
                )
            },
            forall|ii: int| 0 <= ii < ms.len() && #[trigger] included(
                ms,
                scale_milli as int,
                w_px as int,
                ii,
            ) ==> exists|k: int| 0 <= k < out@.len() && (#[trigger] out@[k]).index == ii,
        decreases squares@.len() - i,
    {
        let s_milli: u128 = apparent_size_milli(terms[i], scale_milli);
        assert(s_milli as int == apparent_size_spec(ms[i as int], scale_milli as int));
        if s_milli > 20 * w_milli {
            proof {
                assert(oversized(apparent_size_spec(ms[i as int], scale_milli as int),
                    w_px as int * 1000));
                assert forall|ii: int| i <= ii < ms.len() implies !included(
                    ms,
                    scale_milli as int,
                    w_px as int,
                    ii,
                ) by {
                    assert(oversized(apparent_size_spec(ms[i as int], scale_milli as int),
                        w_px as int * 1000));
                }
            }
            break;
        }
        let ghost out0 = out@;
        if s_milli >= CULL_SMALL_MILLI {
            let sq = &squares[i];
            proof {
                assert(sq@ == square_at(ms, i as nat));
                assert(sq@.size == ms[i as int]);
            }
            let min_x_milli = project_axis(
                (sq.min_x as i128) * 1_000_000,
                EYE_X_MICRO,
                scale_milli,
                cx_milli,
            );
            let min_y_milli = project_axis(
                (sq.min_y as i128) * 1_000_000,
                EYE_Y_MICRO,
                scale_milli,
                cy_milli,
            );
            let max_x_milli = project_axis(
                ((sq.min_x + sq.size) as i128) * 1_000_000,
                EYE_X_MICRO,
                scale_milli,
                cx_milli,
            );
            let max_y_milli = project_axis(
                ((sq.min_y + sq.size) as i128) * 1_000_000,
                EYE_Y_MICRO,
                scale_milli,
                cy_milli,
            );
            let alpha = compute_alpha(s_milli, w_px);
            let rect_alpha = alpha / 4;
            let glow_alpha = alpha / 6;
            let label: Option<LabelRender> = if s_milli > LABEL_MIN_MILLI && alpha
                > LABEL_MIN_ALPHA {
                let lx = project_axis(
                    (sq.min_x as i128) * 1_000_000 + (sq.size as i128) * 500_000,
                    EYE_X_MICRO,
                    scale_milli,
                    cx_milli,
                );
                let ly = project_axis(
                    (sq.min_y as i128) * 1_000_000 + (sq.size as i128) * 500_000,
                    EYE_Y_MICRO,
                    scale_milli,
                    cy_milli,
                );
                Some(
                    LabelRender {
                        value: terms[i],
                        font_milli: label_font_milli(s_milli),
                        x_milli: lx,
                        y_milli: ly,
                    },
                )
            } else {
                None
            };
            let mut arc_milli: Vec<(i128, i128)> = Vec::new();
            let mut k: usize = 0;
            while k < ARC_STEPS + 1
                invariant
                    square_bounded(sq@),
                    scale_milli <= BASE_SCALE_MILLI,
                    -CENTER_MILLI_LIMIT <= cx_milli <= CENTER_MILLI_LIMIT,
                    -CENTER_MILLI_LIMIT <= cy_milli <= CENTER_MILLI_LIMIT,
                    circle_table_wf(circle@),
                    k <= ARC_STEPS + 1,
                    arc_milli@.len() == k,
                    forall|m: int| 0 <= m < k ==> {
                        let p = arc_screen_spec(
                            sq@,
                            circle@[m].0 as int,
                            circle@[m].1 as int,
                            scale_milli as int,
                            cx_milli as int,
                            cy_milli as int,
                        );
                        (#[trigger] arc_milli@[m]).0 as int == p.0 && arc_milli@[m].1 as int
                            == p.1
                    },
                decreases ARC_STEPS + 1 - k,
            {
                let (c, s) = circle[k];
                let p = arc_screen_point(sq, c, s, scale_milli, cx_milli, cy_milli);
                arc_milli.push(p);
                k = k + 1;
            }
            let entry = SquareRender {
                index: i,
                min_x_milli,
                min_y_milli,
                max_x_milli,
                max_y_milli,
                s_milli,
                alpha,
                rect_alpha,
                glow_alpha,
                label,
                arc_milli,
            };
            proof {
                assert(entry_matches(
                    entry,
                    square_at(ms, i as nat),
                    scale_milli as int,
                    w_px as int,
                    cx_milli as int,
                    cy_milli as int,
                    circle@,
                ));
                assert(included(ms, scale_milli as int, w_px as int, i as int));
            }
            out.push(entry);
            proof {
                assert(out@[out@.len() - 1].index == i as int);
            }
        } else {
            proof {
                assert(culled_small(apparent_size_spec(ms[i as int], scale_milli as int)));
                assert(!included(ms, scale_milli as int, w_px as int, i as int));
            }
        }
        i = i + 1;
        proof {
            assert forall|ii: int| 0 <= ii < i && #[trigger] included(
                ms,
                scale_milli as int,
                w_px as int,
                ii,
            ) implies exists|k: int| 0 <= k < out@.len() && (#[trigger] out@[k]).index == ii by {
                if ii < i - 1 {
                    let k0 = choose|k: int| 0 <= k < out0.len() && (#[trigger] out0[k]).index
                        == ii;
                    assert(out@[k0].index == ii);
                } else if out@.len() > out0.len() {
                    assert(out@[out@.len() - 1].index == ii);
                } else {
                    assert(!included(ms, scale_milli as int, w_px as int, ii));
                }
            }
        }
    }
    out
}

} // verus!
