use fibonacci_zoom::fib::fib_sequence;
use fibonacci_zoom::frame::{render_frame, ARC_STEPS};

/// First-quadrant unit-circle samples in micro-units, one per arc step.
fn circle_table() -> Vec<(i64, i64)> {
    let mut table = Vec::with_capacity(ARC_STEPS + 1);
    for k in 0..=ARC_STEPS {
        let angle = (k as f64) * std::f64::consts::PI / (2.0 * ARC_STEPS as f64);
        let c = ((angle.cos() * 1_000_000.0).round() as i64).clamp(-1_000_000, 1_000_000);
        let s = ((angle.sin() * 1_000_000.0).round() as i64).clamp(-1_000_000, 1_000_000);
        table.push((c, s));
    }
    table
}

#[test]
fn end_to_end_first_frame() {
    // time 0 on a 1000×800 viewport: scale 160 px, center (500, 400) px
    let terms = fib_sequence();
    let table = circle_table();
    let out = render_frame(&terms, 160_000, 1000, 500_000, 400_000, &table);

    // terms up to 89 survive; 144 × 160 px tops 20 viewport widths and stops the frame
    assert_eq!(out.len(), 11);
    for (k, e) in out.iter().enumerate() {
        assert_eq!(e.index, k);
    }

    // the unit square lands on the hand-computed screen rectangle, ~160 px wide
    let e0 = &out[0];
    assert_eq!(e0.s_milli, 160_000);
    assert_eq!(e0.min_x_milli, 384_224);
    assert_eq!(e0.min_y_milli, 355_778);
    assert_eq!(e0.max_x_milli, 544_223);
    assert_eq!(e0.max_y_milli, 515_777);
    assert_eq!(e0.alpha, 255);
    assert_eq!(e0.rect_alpha, 63);
    assert_eq!(e0.glow_alpha, 42);
    let label = e0.label.as_ref().expect("a 160 px square is labelled");
    assert_eq!(label.value, 1);
    assert_eq!(label.font_milli, 40_000);

    // fade-out: term 34 is dimmed, term 55 more so, term 89 fully transparent
    assert_eq!(out[8].alpha, 168);
    assert!(out[8].label.is_some());
    assert_eq!(out[9].alpha, 82);
    assert_eq!(out[10].alpha, 0);
    assert!(out[10].label.is_none());
}

#[test]
fn arc_polyline_endpoints_of_first_square() {
    let terms = fib_sequence();
    let table = circle_table();
    let out = render_frame(&terms, 160_000, 1000, 500_000, 400_000, &table);
    let arc = &out[0].arc_milli;
    assert_eq!(arc.len(), ARC_STEPS + 1);
    // arc center (0, 1), radius 1, start angle 0: from (1, 1) around to (0, 2)
    assert_eq!(arc[0], (544_223, 515_777));
    assert_eq!(arc[ARC_STEPS], (384_224, 675_777));
}

#[test]
fn tiny_scale_culls_small_squares() {
    // scale 0.01 px per model unit: terms below 10 are sub-pixel and skipped
    let terms = fib_sequence();
    let table = circle_table();
    let out = render_frame(&terms, 10, 1000, 500_000, 400_000, &table);
    assert!(!out.is_empty());
    assert_eq!(out[0].index, 6); // term 13 is the first at least 0.1 px wide
    for e in &out {
        assert!(e.s_milli >= 100);
    }
    // term 2_178_309 is the first wider than 20 viewports; nothing follows it
    assert_eq!(out.last().unwrap().index, 30);
    assert_eq!(out.len(), 25);
}

#[test]
fn zero_viewport_renders_nothing() {
    let terms = fib_sequence();
    let table = circle_table();
    let out = render_frame(&terms, 160_000, 0, 500_000, 400_000, &table);
    assert!(out.is_empty());
}

#[test]
fn oversize_first_square_stops_frame_at_once() {
    // a one-pixel viewport: even the first square tops 20 viewport widths
    let terms = fib_sequence();
    let table = circle_table();
    let out = render_frame(&terms, 160_000, 1, 500_000, 400_000, &table);
    assert!(out.is_empty());
}
