//! Points of the canvas and the exact point-in-triangle test.
//!
//! World coordinates are integers, `WORLD_UNIT` of them to the canvas unit
//! (half a window pixel at zoom 1). The canvas spans `COORD_LIMIT` world
//! coordinates each way from the origin. A point of screen space is a world
//! point divided componentwise by the window size it was projected with; it
//! is kept exactly as those numerators and denominators, so every test below
//! decides on the true rational coordinates without rounding.
use vstd::prelude::*;

verus! {

/// World coordinates per canvas unit.
pub const WORLD_UNIT: i64 = 10000;

/// Largest magnitude of a world coordinate that a shape can hold (about
/// 1.7 million canvas units).
pub const COORD_LIMIT: i64 = 17179869184;

/// Largest window width or height, in pixels.
pub const WINDOW_LIMIT: i64 = 16384;

/// Largest magnitude of a difference of two canvas coordinates.
pub const DIFF_LIMIT: i128 = 34359738368;

/// A point with integer coordinates: world coordinates or window pixels.
#[derive(PartialEq, Eq, Structural, Clone, Copy, Debug)]
pub struct Point {
    pub x: i64,
    pub y: i64,
}

impl Point {
    pub fn new(x: i64, y: i64) -> (r: Point)
        ensures
            r == (Point { x, y }),
    {
        Point { x, y }
    }

    /// The point lies on the part of the world that shapes can occupy.
    pub open spec fn in_canvas(self) -> bool {
        -COORD_LIMIT <= self.x <= COORD_LIMIT && -COORD_LIMIT <= self.y <= COORD_LIMIT
    }

    pub fn is_in_canvas(&self) -> (r: bool)
        ensures
            r == self.in_canvas(),
    {
        -COORD_LIMIT <= self.x && self.x <= COORD_LIMIT && -COORD_LIMIT <= self.y && self.y
            <= COORD_LIMIT
    }
}

/// The screen-space point `(x / (WORLD_UNIT * w), y / (WORLD_UNIT * h))`:
/// world point `(x, y)` over the window size `(w, h)` it was projected with.
#[derive(PartialEq, Eq, Structural, Clone, Copy, Debug)]
pub struct ScreenPoint {
    pub x: i64,
    pub y: i64,
    pub w: i64,
    pub h: i64,
}

impl ScreenPoint {
    pub open spec fn valid(self) -> bool {
        -COORD_LIMIT <= self.x <= COORD_LIMIT && -COORD_LIMIT <= self.y <= COORD_LIMIT && 1
            <= self.w <= WINDOW_LIMIT && 1 <= self.h <= WINDOW_LIMIT
    }

    /// Both points were projected with the same window size.
    pub open spec fn same_frame(self, o: ScreenPoint) -> bool {
        self.w == o.w && self.h == o.h
    }
}

/// The sign test of three points given by integer coordinates: twice the
/// signed area of the triangle through the three points, in order.
pub open spec fn sign(x1: int, y1: int, x2: int, y2: int, x3: int, y3: int) -> int {
    (x1 - x3) * (y2 - y3) - (x2 - x3) * (y1 - y3)
}

/// `(px, py)` lies inside or on the boundary of triangle `a b c`: the three
/// sign tests are not of opposite signs.
pub open spec fn in_triangle_coords(
    px: int,
    py: int,
    ax: int,
    ay: int,
    bx: int,
    by: int,
    cx: int,
    cy: int,
) -> bool {
    let d1 = sign(px, py, ax, ay, bx, by);
    let d2 = sign(px, py, bx, by, cx, cy);
    let d3 = sign(px, py, cx, cy, ax, ay);
    !((d1 < 0 || d2 < 0 || d3 < 0) && (d1 > 0 || d2 > 0 || d3 > 0))
}

/// World point `q`, projected like the vertices, lies inside or on the
/// boundary of triangle `a b c`. Projection divides each axis by a positive
/// number, which keeps every sign, so the test runs on world coordinates.
pub open spec fn mouse_in_triangle(q: Point, a: ScreenPoint, b: ScreenPoint, c: ScreenPoint) -> bool {
    in_triangle_coords(q.x as int, q.y as int, a.x as int, a.y as int, b.x as int, b.y as int, c.x as int, c.y as int)
}

/// `q` is the point `a + (k / n) * (b - a)`, with `0 <= k <= n`: it lies on
/// the segment from `a` to `b`.
pub open spec fn on_segment(q: Point, a: ScreenPoint, b: ScreenPoint, k: int, n: int) -> bool {
    &&& 1 <= n
    &&& 0 <= k <= n
    &&& n * (q.x - a.x) == k * (b.x - a.x)
    &&& n * (q.y - a.y) == k * (b.y - a.y)
}

/// A point of the segment `a b` is inside triangle `a b c`, in integer
/// coordinates.
proof fn lemma_edge_point_coords(
    px: int,
    py: int,
    ax: int,
    ay: int,
    bx: int,
    by: int,
    cx: int,
    cy: int,
    k: int,
    n: int,
)
    requires
        1 <= n,
        0 <= k <= n,
        n * (px - ax) == k * (bx - ax),
        n * (py - ay) == k * (by - ay),
    ensures
        in_triangle_coords(px, py, ax, ay, bx, by, cx, cy),
{
    let s = sign(ax, ay, bx, by, cx, cy);
    let d1 = sign(px, py, ax, ay, bx, by);
    let d2 = sign(px, py, bx, by, cx, cy);
    let d3 = sign(px, py, cx, cy, ax, ay);
    assert(n * d1 == 0) by (nonlinear_arith)
        requires
            n * (px - ax) == k * (bx - ax),
            n * (py - ay) == k * (by - ay),
            d1 == (px - bx) * (ay - by) - (ax - bx) * (py - by),
    ;
    let ux = px - ax;
    let uy = py - ay;
    assert(d2 == s + ux * (by - cy) - uy * (bx - cx)) by (nonlinear_arith)
        requires
            ux == px - ax,
            uy == py - ay,
            d2 == (px - cx) * (by - cy) - (bx - cx) * (py - cy),
            s == (ax - cx) * (by - cy) - (bx - cx) * (ay - cy),
    ;
    assert(n * d2 == n * s + (n * ux) * (by - cy) - (n * uy) * (bx - cx)) by (nonlinear_arith)
        requires
            d2 == s + ux * (by - cy) - uy * (bx - cx),
    ;
    assert((k * (bx - ax)) * (by - cy) - (k * (by - ay)) * (bx - cx) == -(k * s)) by (
    nonlinear_arith)
        requires
            s == (ax - cx) * (by - cy) - (bx - cx) * (ay - cy),
    ;
    assert(n * d2 == (n - k) * s) by (nonlinear_arith)
        requires
            n * d2 == n * s + (n * ux) * (by - cy) - (n * uy) * (bx - cx),
            n * ux == k * (bx - ax),
            n * uy == k * (by - ay),
            (k * (bx - ax)) * (by - cy) - (k * (by - ay)) * (bx - cx) == -(k * s),
    ;
    assert(d3 == ux * (cy - ay) - (cx - ax) * uy) by (nonlinear_arith)
        requires
            ux == px - ax,
            uy == py - ay,
            d3 == (px - ax) * (cy - ay) - (cx - ax) * (py - ay),
    ;
    assert(n * d3 == (n * ux) * (cy - ay) - (cx - ax) * (n * uy)) by (nonlinear_arith)
        requires
            d3 == ux * (cy - ay) - (cx - ax) * uy,
    ;
    assert((bx - ax) * (cy - ay) - (cx - ax) * (by - ay) == s) by (nonlinear_arith)
        requires
            s == (ax - cx) * (by - cy) - (bx - cx) * (ay - cy),
    ;
    assert((k * (bx - ax)) * (cy - ay) - (cx - ax) * (k * (by - ay)) == k * ((bx - ax) * (cy
        - ay) - (cx - ax) * (by - ay))) by (nonlinear_arith);
    assert(n * d3 == k * s) by (nonlinear_arith)
        requires
            n * d3 == (n * ux) * (cy - ay) - (cx - ax) * (n * uy),
            n * ux == k * (bx - ax),
            n * uy == k * (by - ay),
            (k * (bx - ax)) * (cy - ay) - (cx - ax) * (k * (by - ay)) == k * s,
    ;
    assert(d1 == 0) by (nonlinear_arith)
        requires
            n * d1 == 0,
            n >= 1,
    ;
    if s >= 0 {
        assert(d2 >= 0 && d3 >= 0) by (nonlinear_arith)
            requires
                n * d2 == (n - k) * s,
                n * d3 == k * s,
                n >= 1,
                0 <= k <= n,
                s >= 0,
        ;
    } else {
        assert(d2 <= 0 && d3 <= 0) by (nonlinear_arith)
            requires
                n * d2 == (n - k) * s,
                n * d3 == k * s,
                n >= 1,
                0 <= k <= n,
                s < 0,
        ;
    }
}

/// Boundary points count as inside: a point on an edge of a triangle, end
/// points included, passes the point-in-triangle test. Edge 0 runs from `a`
/// to `b`, edge 1 from `b` to `c`, edge 2 from `c` to `a`.
pub proof fn lemma_edge_point_inside(
    q: Point,
    a: ScreenPoint,
    b: ScreenPoint,
    c: ScreenPoint,
    edge: int,
    k: int,
    n: int,
)
    requires
        edge == 0 ==> on_segment(q, a, b, k, n),
        edge == 1 ==> on_segment(q, b, c, k, n),
        edge == 2 ==> on_segment(q, c, a, k, n),
        0 <= edge <= 2,
    ensures
        mouse_in_triangle(q, a, b, c),
{
    let (px, py) = (q.x as int, q.y as int);
    let (ax, ay, bx, by, cx, cy) = (a.x as int, a.y as int, b.x as int, b.y as int, c.x as int, c.y as int);
    if edge == 0 {
        lemma_edge_point_coords(px, py, ax, ay, bx, by, cx, cy, k, n);
    } else if edge == 1 {
        lemma_edge_point_coords(px, py, bx, by, cx, cy, ax, ay, k, n);
    } else {
        lemma_edge_point_coords(px, py, cx, cy, ax, ay, bx, by, k, n);
    }
}

pub proof fn lemma_mul_bound(a: int, b: int, ba: int, bb: int)
    requires
        -ba <= a <= ba,
        -bb <= b <= bb,
    ensures
        -(ba * bb) <= a * b <= ba * bb,
{
    assert(-(ba * bb) <= a * b <= ba * bb) by (nonlinear_arith)
        requires
            -ba <= a <= ba,
            -bb <= b <= bb,
    ;
}

pub(crate) fn sign_exec(x1: i64, y1: i64, x2: i64, y2: i64, x3: i64, y3: i64) -> (r: i128)
    requires
        -COORD_LIMIT <= x1 <= COORD_LIMIT,
        -COORD_LIMIT <= y1 <= COORD_LIMIT,
        -COORD_LIMIT <= x2 <= COORD_LIMIT,
        -COORD_LIMIT <= y2 <= COORD_LIMIT,
        -COORD_LIMIT <= x3 <= COORD_LIMIT,
        -COORD_LIMIT <= y3 <= COORD_LIMIT,
    ensures
        r == sign(x1 as int, y1 as int, x2 as int, y2 as int, x3 as int, y3 as int),
{
    let (x1, y1, x2, y2, x3, y3) = (x1 as i128, y1 as i128, x2 as i128, y2 as i128, x3 as i128, y3 as i128);
    proof {
        lemma_mul_bound((x1 - x3) as int, (y2 - y3) as int, DIFF_LIMIT as int, DIFF_LIMIT as int);
        lemma_mul_bound((x2 - x3) as int, (y1 - y3) as int, DIFF_LIMIT as int, DIFF_LIMIT as int);
    }
    (x1 - x3) * (y2 - y3) - (x2 - x3) * (y1 - y3)
}

/// Whether world point `q` lies inside or on the boundary of triangle
/// `a b c`.
pub fn point_in_triangle(q: Point, a: ScreenPoint, b: ScreenPoint, c: ScreenPoint) -> (r: bool)
    requires
        q.in_canvas(),
        a.valid(),
        b.valid(),
        c.valid(),
    ensures
        r == mouse_in_triangle(q, a, b, c),
{
    let d1 = sign_exec(q.x, q.y, a.x, a.y, b.x, b.y);
    let d2 = sign_exec(q.x, q.y, b.x, b.y, c.x, c.y);
    let d3 = sign_exec(q.x, q.y, c.x, c.y, a.x, a.y);
    let has_negative = d1 < 0 || d2 < 0 || d3 < 0;
    let has_positive = d1 > 0 || d2 > 0 || d3 > 0;
    !(has_negative && has_positive)
}

/// `(ex/w, ey/h) . (dx/w, dy/h)` times `(w * h)^2`: a dot product of two
/// vectors of one frame, over common denominators.
pub open spec fn scaled_dot(ex: int, ey: int, dx: int, dy: int, w: int, h: int) -> int {
    ex * dx * (h * h) + ey * dy * (w * w)
}

pub(crate) fn scaled_dot_exec(ex: i128, ey: i128, dx: i128, dy: i128, w: i64, h: i64) -> (r: i128)
    requires
        -DIFF_LIMIT <= ex <= DIFF_LIMIT,
        -DIFF_LIMIT <= ey <= DIFF_LIMIT,
        -DIFF_LIMIT <= dx <= DIFF_LIMIT,
        -DIFF_LIMIT <= dy <= DIFF_LIMIT,
        1 <= w <= WINDOW_LIMIT,
        1 <= h <= WINDOW_LIMIT,
    ensures
        r == scaled_dot(ex as int, ey as int, dx as int, dy as int, w as int, h as int),
        -2 * (DIFF_LIMIT * DIFF_LIMIT) * (WINDOW_LIMIT * WINDOW_LIMIT) <= r <= 2 * (DIFF_LIMIT
            * DIFF_LIMIT) * (WINDOW_LIMIT * WINDOW_LIMIT),
{
    let (w, h) = (w as i128, h as i128);
    proof {
        lemma_mul_bound(ex as int, dx as int, DIFF_LIMIT as int, DIFF_LIMIT as int);
        lemma_mul_bound(ey as int, dy as int, DIFF_LIMIT as int, DIFF_LIMIT as int);
        lemma_mul_bound(h as int, h as int, WINDOW_LIMIT as int, WINDOW_LIMIT as int);
        lemma_mul_bound(w as int, w as int, WINDOW_LIMIT as int, WINDOW_LIMIT as int);
        lemma_mul_bound(
            ex * dx,
            h * h,
            DIFF_LIMIT * DIFF_LIMIT,
            WINDOW_LIMIT * WINDOW_LIMIT,
        );
        lemma_mul_bound(
            ey * dy,
            w * w,
            DIFF_LIMIT * DIFF_LIMIT,
            WINDOW_LIMIT * WINDOW_LIMIT,
        );
    }
    ex * dx * (h * h) + ey * dy * (w * w)
}

} // verus!
