//! Tiling layout: each sequence term becomes an axis-aligned square
//! adjoining the running bounding rectangle, with the placement direction
//! rotating on a period-4 cycle, plus the quarter-circle arc descriptor for
//! the decorative spiral.
//!
//! All placement arithmetic is on whole model units, so every coordinate is
//! an exact `i64`. Arc start angles are all multiples of a quarter turn and
//! are carried as a `quarter` count: start angle = `quarter` × π/2.

use vstd::prelude::*;
use crate::fib::{MAX_TERMS, TERM_CEILING};

verus! {

/// Every model coordinate produced by the layout stays within this bound:
/// one initial unit plus at most `MAX_TERMS` sizes of at most `TERM_CEILING`
/// each, with one extra size of slack.
pub const COORD_LIMIT: i64 = 51_000_000_000_000_000;

/// Mathematical model of a bounding rectangle, over unbounded integers.
pub ghost struct RectModel {
    pub min_x: int,
    pub min_y: int,
    pub max_x: int,
    pub max_y: int,
}

/// Mathematical model of a placed square and its arc descriptor.
pub ghost struct SquareModel {
    pub min_x: int,
    pub min_y: int,
    pub size: int,
    pub arc_cx: int,
    pub arc_cy: int,
    pub quarter: int,
}

/// The union-so-far of all placed squares, in model space.
pub struct BoundingRect {
    pub min_x: i64,
    pub min_y: i64,
    pub max_x: i64,
    pub max_y: i64,
}

impl View for BoundingRect {
    type V = RectModel;

    open spec fn view(&self) -> RectModel {
        RectModel {
            min_x: self.min_x as int,
            min_y: self.min_y as int,
            max_x: self.max_x as int,
            max_y: self.max_y as int,
        }
    }
}

/// One sequence term placed as a square, with the matching quarter-circle
/// arc: its center and its start angle in quarter turns.
pub struct PlacedSquare {
    pub min_x: i64,
    pub min_y: i64,
    pub size: i64,
    pub arc_cx: i64,
    pub arc_cy: i64,
    pub quarter: u8,
    pub index: usize,
}

impl View for PlacedSquare {
    type V = SquareModel;

    open spec fn view(&self) -> SquareModel {
        SquareModel {
            min_x: self.min_x as int,
            min_y: self.min_y as int,
            size: self.size as int,
            arc_cx: self.arc_cx as int,
            arc_cy: self.arc_cy as int,
            quarter: self.quarter as int,
        }
    }
}

/// The square for term `i`, given the bounding rectangle before placing it.
/// The four placement directions rotate with period 4; the arc center sits
/// on the corner of the square the spiral curls around, and the start angle
/// is the matching multiple of a quarter turn.
pub open spec fn place_square(i: nat, s: int, r: RectModel) -> SquareModel {
    if i == 0 {
        SquareModel { min_x: 0, min_y: 0, size: s, arc_cx: 0, arc_cy: 1, quarter: 0 }
    } else if i % 4 == 1 {
        SquareModel {
            min_x: r.min_x,
            min_y: r.min_y - s,
            size: s,
            arc_cx: r.min_x,
            arc_cy: r.min_y,
            quarter: 3,
        }
    } else if i % 4 == 2 {
        SquareModel {
            min_x: r.min_x - s,
            min_y: r.min_y,
            size: s,
            arc_cx: r.min_x,
            arc_cy: r.min_y + s,
            quarter: 2,
        }
    } else if i % 4 == 3 {
        SquareModel {
            min_x: r.min_x,
            min_y: r.max_y,
            size: s,
            arc_cx: r.min_x + s,
            arc_cy: r.max_y,
            quarter: 1,
        }
    } else {
        SquareModel {
            min_x: r.max_x,
            min_y: r.min_y,
            size: s,
            arc_cx: r.max_x,
            arc_cy: r.min_y,
            quarter: 0,
        }
    }
}

/// Extend a bounding rectangle to the union of itself and a square.
pub open spec fn rect_extend(r: RectModel, sq: SquareModel) -> RectModel {
    RectModel {
        min_x: if sq.min_x < r.min_x { sq.min_x } else { r.min_x },
        min_y: if sq.min_y < r.min_y { sq.min_y } else { r.min_y },
        max_x: if sq.min_x + sq.size > r.max_x { sq.min_x + sq.size } else { r.max_x },
        max_y: if sq.min_y + sq.size > r.max_y { sq.min_y + sq.size } else { r.max_y },
    }
}

/// The bounding rectangle after the first `n` terms of `sizes` are placed.
/// Before anything is placed it is the unit square at the origin.
pub open spec fn rect_after(sizes: Seq<int>, n: nat) -> RectModel
    decreases n, 0int,
{
    if n == 0 {
        RectModel { min_x: 0, min_y: 0, max_x: 1, max_y: 1 }
    } else {
        rect_extend(rect_after(sizes, (n - 1) as nat), square_at(sizes, (n - 1) as nat))
    }
}

/// The square placed for term `i` of `sizes`.
pub open spec fn square_at(sizes: Seq<int>, i: nat) -> SquareModel
    decreases i, 1int,
{
    place_square(i, sizes[i as int], rect_after(sizes, i))
}

/// A rectangle contains a square.
pub open spec fn rect_contains_square(r: RectModel, sq: SquareModel) -> bool {
    &&& r.min_x <= sq.min_x
    &&& r.min_y <= sq.min_y
    &&& sq.min_x + sq.size <= r.max_x
    &&& sq.min_y + sq.size <= r.max_y
}

/// A rectangle contains another rectangle.
pub open spec fn rect_contains_rect(outer: RectModel, inner: RectModel) -> bool {
    &&& outer.min_x <= inner.min_x
    &&& outer.min_y <= inner.min_y
    &&& inner.max_x <= outer.max_x
    &&& inner.max_y <= outer.max_y
}

/// Sum of the first `n` sizes.
pub open spec fn sum_prefix(sizes: Seq<int>, n: nat) -> int
    decreases n,
{
    if n == 0 {
        0
    } else {
        sum_prefix(sizes, (n - 1) as nat) + sizes[n - 1]
    }
}

/// A placed square whose coordinates, arc center and size all stay within
/// the layout's coordinate bound.
pub open spec fn square_bounded(sq: SquareModel) -> bool {
    &&& -COORD_LIMIT <= sq.min_x
    &&& -COORD_LIMIT <= sq.min_y
    &&& sq.min_x + sq.size <= COORD_LIMIT
    &&& sq.min_y + sq.size <= COORD_LIMIT
    &&& -COORD_LIMIT <= sq.arc_cx <= COORD_LIMIT
    &&& -COORD_LIMIT <= sq.arc_cy <= COORD_LIMIT
    &&& 1 <= sq.size <= TERM_CEILING
    &&& 0 <= sq.quarter < 4
}

/// Place every term of `sizes` as a square, returning the squares in
/// placement order together with the final bounding rectangle.
pub fn layout_squares(sizes: &Vec<u64>) -> (out: (Vec<PlacedSquare>, BoundingRect))
    requires
        sizes@.len() <= MAX_TERMS,
        forall|i: int| 0 <= i < sizes@.len() ==> 1 <= #[trigger] sizes@[i] <= TERM_CEILING,
    ensures
        out.0@.len() == sizes@.len(),
        forall|j: int| 0 <= j < sizes@.len()
            ==> (#[trigger] out.0@[j])@ == square_at(crate::fib::int_terms(sizes@), j as nat),
        forall|j: int| 0 <= j < sizes@.len() ==> (#[trigger] out.0@[j]).index == j,
        forall|j: int| 0 <= j < sizes@.len() ==> square_bounded((#[trigger] out.0@[j])@),
        out.1@ == rect_after(crate::fib::int_terms(sizes@), sizes@.len() as nat),
{
    let ghost ms = crate::fib::int_terms(sizes@);
    let mut squares: Vec<PlacedSquare> = Vec::new();
    let mut min_x: i64 = 0;
    let mut min_y: i64 = 0;
    let mut max_x: i64 = 1;
    let mut max_y: i64 = 1;
    let mut i: usize = 0;
    while i < sizes.len()
        invariant
            ms == crate::fib::int_terms(sizes@),
            ms.len() == sizes@.len(),
            forall|k: int| 0 <= k < ms.len() ==> ms[k] == sizes@[k] as int,
            i <= sizes@.len() <= MAX_TERMS,
            forall|k: int| 0 <= k < sizes@.len() ==> 1 <= #[trigger] sizes@[k] <= TERM_CEILING,
            squares@.len() == i,
            forall|j: int| 0 <= j < i ==> (#[trigger] squares@[j])@ == square_at(ms, j as nat),
            forall|j: int| 0 <= j < i ==> (#[trigger] squares@[j]).index == j,
            forall|j: int| 0 <= j < i ==> square_bounded((#[trigger] squares@[j])@),
            rect_after(ms, i as nat) == (RectModel {
                min_x: min_x as int,
                min_y: min_y as int,
                max_x: max_x as int,
                max_y: max_y as int,
            }),
            -sum_prefix(ms, i as nat) <= min_x <= 0,
            -sum_prefix(ms, i as nat) <= min_y <= 0,
            1 <= max_x <= 1 + sum_prefix(ms, i as nat),
            1 <= max_y <= 1 + sum_prefix(ms, i as nat),
            0 <= sum_prefix(ms, i as nat) <= i * TERM_CEILING,
        decreases sizes@.len() - i,
    {
        let s: i64 = sizes[i] as i64;
        let (px, py, acx, acy, q): (i64, i64, i64, i64, u8) = if i == 0 {
            (0, 0, 0, 1, 0)
        } else if i % 4 == 1 {
            (min_x, min_y - s, min_x, min_y, 3)
        } else if i % 4 == 2 {
            (min_x - s, min_y, min_x, min_y + s, 2)
        } else if i % 4 == 3 {
            (min_x, max_y, min_x + s, max_y, 1)
        } else {
            (max_x, min_y, max_x, min_y, 0)
        };
        let sq = PlacedSquare {
            min_x: px,
            min_y: py,
            size: s,
            arc_cx: acx,
            arc_cy: acy,
            quarter: q,
            index: i,
        };
        assert(sq@ == square_at(ms, i as nat));
        assert(sum_prefix(ms, (i + 1) as nat) == sum_prefix(ms, i as nat) + ms[i as int]);
        if px < min_x {
            min_x = px;
        }
        if py < min_y {
            min_y = py;
        }
        if px + s > max_x {
            max_x = px + s;
        }
        if py + s > max_y {
            max_y = py + s;
        }
        squares.push(sq);
        i = i + 1;
        assert(rect_after(ms, i as nat) == (RectModel {
            min_x: min_x as int,
            min_y: min_y as int,
            max_x: max_x as int,
            max_y: max_y as int,
        }));
    }
    let rect = BoundingRect { min_x, min_y, max_x, max_y };
    (squares, rect)
}

/// Bounding-rectangle monotonic containment: after placing the first `n`
/// terms, the bounding rectangle contains the bounding rectangle of every
/// earlier stage (so its extents are non-decreasing) and contains every
/// square placed for terms `0..n`.
pub proof fn lemma_bounding_containment(sizes: Seq<int>, n: nat)
    requires
        n <= sizes.len(),
    ensures
        forall|m: nat| m <= n ==> rect_contains_rect(
            rect_after(sizes, n),
            #[trigger] rect_after(sizes, m),
        ),
        forall|j: nat| j < n ==> rect_contains_square(
            rect_after(sizes, n),
            #[trigger] square_at(sizes, j),
        ),
    decreases n,
{
    if n > 0 {
        let prev = (n - 1) as nat;
        lemma_bounding_containment(sizes, prev);
        assert(rect_after(sizes, n) == rect_extend(rect_after(sizes, prev), square_at(sizes, prev)));
        assert(rect_contains_rect(rect_after(sizes, n), rect_after(sizes, prev)));
        assert(rect_contains_square(rect_after(sizes, n), square_at(sizes, prev)));
        assert forall|m: nat| m <= n implies rect_contains_rect(
            rect_after(sizes, n),
            #[trigger] rect_after(sizes, m),
        ) by {
            if m <= prev {
                assert(rect_contains_rect(rect_after(sizes, prev), rect_after(sizes, m)));
            }
        }
        assert forall|j: nat| j < n implies rect_contains_square(
            rect_after(sizes, n),
            #[trigger] square_at(sizes, j),
        ) by {
            if j < prev {
                assert(rect_contains_square(rect_after(sizes, prev), square_at(sizes, j)));
            }
        }
    }
}

} // verus!
