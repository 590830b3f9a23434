//! Visibility and style policy: from a square's apparent on-screen size,
//! decide whether it is drawn at all, its fade alpha, and whether and how
//! large its numeric label is drawn.
//!
//! Sizes are in milli-pixels throughout; the viewport width enters in whole
//! pixels and is widened to milli-pixels internally. Alpha is an 8-bit
//! channel value.

use vstd::prelude::*;
use vstd::arithmetic::div_mod::lemma_div_is_ordered;

verus! {

/// Squares narrower than this (milli-pixels: 0.1 px) are culled.
pub const CULL_SMALL_MILLI: u128 = 100;

/// Below this apparent size (20 px) the alpha ramps up linearly.
pub const FADE_IN_LIMIT_MILLI: u128 = 20_000;

/// Labels are drawn only above this apparent size (40 px)...
pub const LABEL_MIN_MILLI: u128 = 40_000;

/// ...and only above this alpha.
pub const LABEL_MIN_ALPHA: u8 = 50;

/// Label font size bounds, in milli-pixels (12 px and 40 px).
pub const FONT_MIN_MILLI: u64 = 12_000;

pub const FONT_MAX_MILLI: u64 = 40_000;

/// Apparent sizes handed to this module stay within this bound: the
/// largest term times the largest scale.
pub const APPARENT_LIMIT: u128 = 160_000_000_000_000_000_000;

/// A square this much narrower than a tenth of a pixel is skipped.
pub open spec fn culled_small(s_milli: int) -> bool {
    s_milli < CULL_SMALL_MILLI
}

/// A square wider than twenty viewports stops the whole per-frame loop:
/// later squares are at least as large.
pub open spec fn oversized(s_milli: int, w_milli: int) -> bool {
    s_milli > 20 * w_milli
}

/// The fade alpha for a surviving square of apparent size `s_milli` on a
/// viewport `w_milli` wide: a linear ramp up below 20 px, a linear ramp
/// down (clamped at transparent) past twice the viewport width, and fully
/// opaque in between.
pub open spec fn alpha_spec(s_milli: int, w_milli: int) -> int
    recommends
        w_milli > 0,
{
    if s_milli < FADE_IN_LIMIT_MILLI {
        (s_milli * 255) / (FADE_IN_LIMIT_MILLI as int)
    } else if s_milli > 2 * w_milli {
        let drop = ((s_milli - 2 * w_milli) * 255) / (10 * w_milli);
        if drop > 255 {
            0
        } else {
            255 - drop
        }
    } else {
        255
    }
}

/// Whether the square's numeric label is drawn.
pub open spec fn label_shown_spec(s_milli: int, alpha: int) -> bool {
    s_milli > LABEL_MIN_MILLI && alpha > LABEL_MIN_ALPHA
}

/// The label font size: the apparent size clamped to `[12 px, 40 px]`.
pub open spec fn font_milli_spec(s_milli: int) -> int {
    if s_milli < FONT_MIN_MILLI {
        FONT_MIN_MILLI as int
    } else if s_milli > FONT_MAX_MILLI {
        FONT_MAX_MILLI as int
    } else {
        s_milli
    }
}

/// Compute the fade alpha of a square.
pub fn compute_alpha(s_milli: u128, w_px: u32) -> (a: u8)
    requires
        1 <= w_px,
        s_milli <= APPARENT_LIMIT,
    ensures
        a as int == alpha_spec(s_milli as int, w_px as int * 1000),
{
    let w_milli: u128 = (w_px as u128) * 1000;
    if s_milli < FADE_IN_LIMIT_MILLI {
        let q: u128 = (s_milli * 255) / FADE_IN_LIMIT_MILLI;
        proof {
            lemma_div_is_ordered(s_milli as int * 255, 19_999int * 255, 20_000int);
        }
        q as u8
    } else if s_milli > 2 * w_milli {
        let drop: u128 = ((s_milli - 2 * w_milli) * 255) / (10 * w_milli);
        if drop > 255 {
            0
        } else {
            (255 - drop) as u8
        }
    } else {
        255
    }
}

/// Compute the label font size for a square's apparent size.
pub fn label_font_milli(s_milli: u128) -> (f: u64)
    ensures
        f as int == font_milli_spec(s_milli as int),
{
    if s_milli < FONT_MIN_MILLI as u128 {
        FONT_MIN_MILLI
    } else if s_milli > FONT_MAX_MILLI as u128 {
        FONT_MAX_MILLI
    } else {
        s_milli as u64
    }
}

/// Alpha monotonicity: the fade-in ramp is non-decreasing in the apparent
/// size, the fade-out ramp is non-increasing, and between 20 px and twice
/// the viewport width the alpha is exactly 255.
pub proof fn lemma_alpha_monotonicity(s1: int, s2: int, w_milli: int)
    requires
        w_milli > 0,
        0 <= s1 <= s2,
    ensures
        s2 < FADE_IN_LIMIT_MILLI ==> alpha_spec(s1, w_milli) <= alpha_spec(s2, w_milli),
        2 * w_milli < s1 && FADE_IN_LIMIT_MILLI <= 2 * w_milli ==> alpha_spec(s1, w_milli)
            >= alpha_spec(s2, w_milli),
        FADE_IN_LIMIT_MILLI <= s1 <= 2 * w_milli ==> alpha_spec(s1, w_milli) == 255,
{
    if s2 < FADE_IN_LIMIT_MILLI {
        lemma_div_is_ordered(s1 * 255, s2 * 255, 20_000);
    }
    if 2 * w_milli < s1 {
        lemma_div_is_ordered((s1 - 2 * w_milli) * 255, (s2 - 2 * w_milli) * 255, 10 * w_milli);
    }
}

} // verus!
