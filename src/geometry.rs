//! Fixed-point units and the hitbox shapes used for collision tests.
//!
//! Positions and sizes are fractions of the viewport in millionths (`ONE` is the
//! whole viewport). Hitboxes are in pixels scaled by `ONE`, so that a fraction
//! times a viewport dimension in pixels needs no division.
use vstd::prelude::*;

verus! {

/// The fixed-point representation of 1.0.
pub const ONE: i64 = 1_000_000;

/// The largest viewport dimension, in pixels, that the simulation accepts.
pub const MAX_VIEWPORT: u32 = 100_000;

/// Division rounding toward zero, as Rust's integer `/` does.
pub open spec fn trunc_div(a: int, d: int) -> int {
    if a >= 0 {
        a / d
    } else {
        -((-a) / d)
    }
}

/// `a / d` rounded toward zero.
pub fn div_toward_zero(a: i64, d: i64) -> (r: i64)
    requires
        d > 0,
        a > i64::MIN,
    ensures
        r == trunc_div(a as int, d as int),
{
    if a >= 0 {
        a / d
    } else {
        let q = (-a) / d;
        -q
    }
}

/// A viewport dimension times a bounded fraction stays within the viewport bound times it.
pub proof fn lemma_scaled_bound(w: int, f: int, bound: int)
    requires
        0 <= w <= MAX_VIEWPORT,
        0 <= bound,
        -bound <= f <= bound,
    ensures
        -MAX_VIEWPORT * bound <= w * f <= MAX_VIEWPORT * bound,
{
    assert(-MAX_VIEWPORT * bound <= w * f <= MAX_VIEWPORT * bound) by (nonlinear_arith)
        requires
            0 <= w <= MAX_VIEWPORT,
            0 <= bound,
            -bound <= f <= bound,
    ;
}

/// A product of a bounded non-negative factor and a bounded signed factor is
/// bounded by the product of the bounds.
pub proof fn lemma_mul_bound(a: int, b: int, a_max: int, b_max: int)
    requires
        0 <= a <= a_max,
        -b_max <= b <= b_max,
    ensures
        -a_max * b_max <= a * b <= a_max * b_max,
{
    assert(-a_max * b_max <= a * b <= a_max * b_max) by (nonlinear_arith)
        requires
            0 <= a <= a_max,
            -b_max <= b <= b_max,
    ;
}

/// The size of the window in pixels.
#[derive(Clone, Copy, Debug, PartialEq, Eq)]
pub struct Viewport {
    pub width: u32,
    pub height: u32,
}

impl Viewport {
    pub open spec fn wf(&self) -> bool {
        1 <= self.width <= MAX_VIEWPORT && 1 <= self.height <= MAX_VIEWPORT
    }
}

/// An axis-aligned rectangle: top-left corner, width and height.
#[derive(Clone, Copy, Debug, PartialEq, Eq)]
pub struct Rect {
    pub x: i64,
    pub y: i64,
    pub w: i64,
    pub h: i64,
}

/// A circle: centre and radius.
#[derive(Clone, Copy, Debug, PartialEq, Eq)]
pub struct Circle {
    pub x: i64,
    pub y: i64,
    pub r: i64,
}

/// Distance from `v` to the interval `[lo, hi]` (zero inside it).
pub open spec fn gap(v: int, lo: int, hi: int) -> int {
    if v < lo {
        lo - v
    } else if v > hi {
        v - hi
    } else {
        0
    }
}

/// The closed disc and the closed rectangle share a point.
pub open spec fn circle_meets_rect(c: Circle, r: Rect) -> bool {
    let dx = gap(c.x as int, r.x as int, r.x + r.w);
    let dy = gap(c.y as int, r.y as int, r.y + r.h);
    dx * dx + dy * dy <= c.r * c.r
}

/// The bound on coordinates that keeps the overlap test free of overflow.
pub const COORD_LIMIT: i64 = 1_000_000_000_000_000;

impl Rect {
    pub open spec fn bounded(&self) -> bool {
        -COORD_LIMIT <= self.x <= COORD_LIMIT && -COORD_LIMIT <= self.y <= COORD_LIMIT
            && 0 <= self.w <= COORD_LIMIT && 0 <= self.h <= COORD_LIMIT
    }

    /// The rectangle that no circle can hit.
    pub fn empty() -> (r: Rect)
        ensures
            r.w == 0 && r.h == 0 && r.x == 0 && r.y == 0,
    {
        Rect { x: 0, y: 0, w: 0, h: 0 }
    }

    pub open spec fn is_empty_spec(&self) -> bool {
        self.w == 0 || self.h == 0
    }

    pub fn is_empty(&self) -> (r: bool)
        ensures
            r == self.is_empty_spec(),
    {
        self.w == 0 || self.h == 0
    }
}

proof fn lemma_square_bound(v: int)
    requires
        0 <= v <= 3 * COORD_LIMIT,
    ensures
        0 <= v * v <= 9 * COORD_LIMIT * COORD_LIMIT,
{
    assert(0 <= v * v <= 9 * COORD_LIMIT * COORD_LIMIT) by (nonlinear_arith)
        requires
            0 <= v <= 3 * COORD_LIMIT,
    ;
}

impl Circle {
    pub open spec fn bounded(&self) -> bool {
        -COORD_LIMIT <= self.x <= COORD_LIMIT && -COORD_LIMIT <= self.y <= COORD_LIMIT
            && 0 <= self.r <= COORD_LIMIT
    }

    /// Whether this circle and `rect` overlap (touching counts).
    pub fn overlaps_rect(&self, rect: &Rect) -> (r: bool)
        requires
            self.bounded(),
            rect.bounded(),
        ensures
            r == circle_meets_rect(*self, *rect),
    {
        let right = rect.x + rect.w;
        let bottom = rect.y + rect.h;
        let dx: i64 = if self.x < rect.x {
            rect.x - self.x
        } else if self.x > right {
            self.x - right
        } else {
            0
        };
        let dy: i64 = if self.y < rect.y {
            rect.y - self.y
        } else if self.y > bottom {
            self.y - bottom
        } else {
            0
        };
        assert(0 <= dx <= 3 * COORD_LIMIT);
        assert(0 <= dy <= 3 * COORD_LIMIT);
        proof {
            lemma_square_bound(dx as int);
            lemma_square_bound(dy as int);
            lemma_square_bound(self.r as int);
        }
        let dx2 = (dx as i128) * (dx as i128);
        let dy2 = (dy as i128) * (dy as i128);
        let r2 = (self.r as i128) * (self.r as i128);
        dx2 + dy2 <= r2
    }
}

} // verus!
