use fibonacci_zoom::clock::{AnimationClock, RESET_PERIOD_UNITS};
use fibonacci_zoom::fib::{fib_sequence, TERM_CEILING};
use fibonacci_zoom::layout::layout_squares;
use fibonacci_zoom::project::{apparent_size_milli, project_axis, EYE_X_MICRO, EYE_Y_MICRO};
use fibonacci_zoom::style::{compute_alpha, label_font_milli};

#[test]
fn clock_starts_at_zero() {
    let c = AnimationClock::new();
    assert_eq!(c.time_units, 0);
    assert_eq!(c.cycle, 0);
}

#[test]
fn clock_advances_by_one_step() {
    let c = AnimationClock::new().advance();
    assert_eq!(c.time_units, 75);
    assert_eq!(c.cycle, 0);
}

#[test]
fn clock_wraparound_resets_time_and_counts_cycles() {
    let mut c = AnimationClock::new();
    let mut wraps = 0;
    for _ in 0..6000 {
        let before = c.time_units;
        c = c.advance();
        assert!(c.time_units <= RESET_PERIOD_UNITS);
        if c.time_units < before {
            // a wraparound leaves the time at exactly zero, below one increment
            assert_eq!(c.time_units, 0);
            wraps += 1;
            assert_eq!(c.cycle, wraps);
        }
    }
    // one cycle is 2667 steps: 2666 plain increments, then one wrapping step
    assert_eq!(wraps, 2);
    assert_eq!(c.cycle, 2);
    assert_eq!(c.time_units, (6000 - 2 * 2667) * 75);
}

#[test]
fn fib_sequence_matches_recurrence() {
    let t = fib_sequence();
    assert_eq!(t.len(), 50);
    assert_eq!(t[0], 1);
    assert_eq!(t[1], 1);
    for i in 2..t.len() {
        assert_eq!(t[i], t[i - 1] + t[i - 2]);
    }
    for &v in &t {
        assert!(v <= TERM_CEILING);
    }
    assert_eq!(t[49], 12_586_269_025);
}

#[test]
fn layout_places_first_five_squares() {
    let sizes: Vec<u64> = vec![1, 1, 2, 3, 5];
    let (squares, rect) = layout_squares(&sizes);
    assert_eq!(squares.len(), 5);

    // i == 0: at the origin, arc center (0, 1), start angle 0
    assert_eq!((squares[0].min_x, squares[0].min_y, squares[0].size), (0, 0, 1));
    assert_eq!((squares[0].arc_cx, squares[0].arc_cy, squares[0].quarter), (0, 1, 0));

    // i == 1: above-left of the min corner, start angle 3π/2
    assert_eq!((squares[1].min_x, squares[1].min_y, squares[1].size), (0, -1, 1));
    assert_eq!((squares[1].arc_cx, squares[1].arc_cy, squares[1].quarter), (0, 0, 3));

    // i == 2: left of the min corner, start angle π
    assert_eq!((squares[2].min_x, squares[2].min_y, squares[2].size), (-2, -1, 2));
    assert_eq!((squares[2].arc_cx, squares[2].arc_cy, squares[2].quarter), (0, 1, 2));

    // i == 3: below the min corner at the max y, start angle π/2
    assert_eq!((squares[3].min_x, squares[3].min_y, squares[3].size), (-2, 1, 3));
    assert_eq!((squares[3].arc_cx, squares[3].arc_cy, squares[3].quarter), (1, 1, 1));

    // i == 4: right of the max corner at the min y, start angle 0
    assert_eq!((squares[4].min_x, squares[4].min_y, squares[4].size), (1, -1, 5));
    assert_eq!((squares[4].arc_cx, squares[4].arc_cy, squares[4].quarter), (1, -1, 0));

    assert_eq!((rect.min_x, rect.min_y, rect.max_x, rect.max_y), (-2, -1, 6, 4));
}

#[test]
fn layout_bounding_rect_contains_all_squares() {
    let terms = fib_sequence();
    let (squares, rect) = layout_squares(&terms);
    for sq in &squares {
        assert!(rect.min_x <= sq.min_x);
        assert!(rect.min_y <= sq.min_y);
        assert!(sq.min_x + sq.size <= rect.max_x);
        assert!(sq.min_y + sq.size <= rect.max_y);
    }
}

#[test]
fn layout_bounding_rect_extents_grow_monotonically() {
    let terms = fib_sequence();
    let mut prev: Option<(i64, i64, i64, i64)> = None;
    for n in 2..=12usize {
        let prefix: Vec<u64> = terms[..n].to_vec();
        let (_, rect) = layout_squares(&prefix);
        let cur = (rect.min_x, rect.min_y, rect.max_x, rect.max_y);
        if let Some(p) = prev {
            assert!(cur.0 <= p.0);
            assert!(cur.1 <= p.1);
            assert!(cur.2 >= p.2);
            assert!(cur.3 >= p.3);
        }
        prev = Some(cur);
    }
}

#[test]
fn projection_maps_eye_to_center() {
    for &scale in &[0u32, 10, 137, 160_000] {
        assert_eq!(project_axis(EYE_X_MICRO as i128, EYE_X_MICRO, scale, 500_000), 500_000);
        assert_eq!(project_axis(EYE_Y_MICRO as i128, EYE_Y_MICRO, scale, 400_000), 400_000);
    }
}

#[test]
fn projection_matches_hand_computation() {
    // the unit square's corners at scale 160 px, centered at (500, 400) px
    assert_eq!(project_axis(0, EYE_X_MICRO, 160_000, 500_000), 384_224);
    assert_eq!(project_axis(0, EYE_Y_MICRO, 160_000, 400_000), 355_778);
    assert_eq!(project_axis(1_000_000, EYE_X_MICRO, 160_000, 500_000), 544_223);
    assert_eq!(project_axis(1_000_000, EYE_Y_MICRO, 160_000, 400_000), 515_777);
}

#[test]
fn apparent_size_is_term_times_scale() {
    assert_eq!(apparent_size_milli(1, 160_000), 160_000);
    assert_eq!(apparent_size_milli(144, 160_000), 23_040_000);
    assert_eq!(apparent_size_milli(13, 10), 130);
}

#[test]
fn alpha_fade_in_values() {
    assert_eq!(compute_alpha(0, 1000), 0);
    assert_eq!(compute_alpha(10_000, 1000), 127);
    assert_eq!(compute_alpha(19_999, 1000), 254);
    assert_eq!(compute_alpha(20_000, 1000), 255);
}

#[test]
fn alpha_plateau_and_fade_out_values() {
    // viewport 1000 px wide: plateau up to 2_000_000 milli-px
    assert_eq!(compute_alpha(2_000_000, 1000), 255);
    assert_eq!(compute_alpha(2_000_001, 1000), 255);
    assert_eq!(compute_alpha(7_000_000, 1000), 128);
    assert_eq!(compute_alpha(12_000_000, 1000), 0);
    assert_eq!(compute_alpha(50_000_000, 1000), 0);
}

#[test]
fn alpha_monotone_in_ramps() {
    // non-decreasing across the fade-in ramp
    let mut last = 0u8;
    for s in 0..20_000u128 {
        let a = compute_alpha(s, 1000);
        assert!(a >= last);
        last = a;
    }
    // exactly 255 across the plateau (sampled)
    for s in (20_000..=2_000_000u128).step_by(10_000) {
        assert_eq!(compute_alpha(s, 1000), 255);
    }
    // non-increasing across the fade-out ramp
    let mut last_out = 255u8;
    for s in (2_000_001..12_000_000u128).step_by(997) {
        let a = compute_alpha(s, 1000);
        assert!(a <= last_out);
        last_out = a;
    }
}

#[test]
fn label_font_clamps() {
    assert_eq!(label_font_milli(5_000), 12_000);
    assert_eq!(label_font_milli(30_000), 30_000);
    assert_eq!(label_font_milli(45_000), 40_000);
}
