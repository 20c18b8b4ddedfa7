//! Shape geometry: circles, axis-aligned rectangles and line segments in
//! world space, their bounding boxes, and the pairwise contact tests.
//!
//! `a.collision(b)` reports the contact of two overlapping shapes.  Its
//! normal is a unit vector (scaled by `FX_ONE`) pointing from `b` toward
//! `a`, so that a pair approaching each other has a negative relative
//! velocity along the normal.  Supported pairs are circle–circle,
//! circle–rectangle and rectangle–rectangle; a pair involving a line
//! segment reports no contact, a documented limitation of the kernel.

use vstd::prelude::*;
use crate::fx::FX_ONE;
use crate::fx::FX_MAX;
use crate::fx::tdiv;
use crate::fx::isqrt;
use crate::fx::is_isqrt;
use crate::fx::lemma_isqrt_unique;
use crate::fx::lemma_isqrt_exists;
use crate::fx::lemma_tdiv_neg;
use crate::fx::lemma_tdiv_le;
use crate::fx::imin;
use crate::fx::imax;
use crate::vec2::Vec2;

verus! {

/// Largest magnitude a derived shape coordinate may take: one world
/// coordinate plus one extent, each bounded by `FX_MAX`.
pub const SHAPE_MAX: i64 = 2_000_000_000_000;

/// A circle in world space.
#[derive(Clone, Copy, Debug, PartialEq, Eq, Structural)]
pub struct Circle {
    pub center: Vec2,
    pub radius: i64,
}

/// An axis-aligned rectangle in world space, as its two extreme corners.
#[derive(Clone, Copy, Debug, PartialEq, Eq, Structural)]
pub struct Aabr {
    pub min: Vec2,
    pub max: Vec2,
}

/// A line segment in world space.
#[derive(Clone, Copy, Debug, PartialEq, Eq, Structural)]
pub struct Line {
    pub start: Vec2,
    pub end: Vec2,
}

/// A wrapper for all valid shapes.
#[derive(Clone, Copy, Debug, PartialEq, Eq, Structural)]
pub enum ShapeWrapper {
    Circle(Circle),
    Aabr(Aabr),
    Line(Line),
}

/// The geometric description of one contact: a unit normal scaled by
/// `FX_ONE`, a nonnegative penetration depth, and a contact point.
#[derive(Clone, Copy, Debug, PartialEq, Eq, Structural)]
pub struct Collision {
    pub normal: Vec2,
    pub penetration: i64,
    pub point: Vec2,
}

pub open spec fn in_shape_range(x: int) -> bool {
    -SHAPE_MAX <= x <= SHAPE_MAX
}

/// Largest penetration depth a contact can report: the overlap of two
/// derived-range extents.
pub const PEN_MAX: i64 = 4_000_000_000_000;

/// `x` clamped into the interval `[lo, hi]`.
pub open spec fn clamp_v(x: int, lo: int, hi: int) -> int {
    if x < lo {
        lo
    } else if x > hi {
        hi
    } else {
        x
    }
}

impl Circle {
    /// A circle's center is a stored world coordinate and its radius a
    /// nonnegative stored extent.
    pub open spec fn wf(self) -> bool {
        self.center.wf() && 0 <= self.radius <= FX_MAX
    }

    pub fn new(center: Vec2, radius: i64) -> (r: Circle)
        ensures
            r == (Circle { center, radius }),
    {
        Circle { center, radius }
    }

    /// The tightest axis-aligned box around the circle.
    pub fn bounding_rect(&self) -> (r: Aabr)
        requires
            self.wf(),
        ensures
            r == circle_bounds_v(*self),
            r.wf(),
    {
        Aabr {
            min: Vec2 { x: self.center.x - self.radius, y: self.center.y - self.radius },
            max: Vec2 { x: self.center.x + self.radius, y: self.center.y + self.radius },
        }
    }
}

/// The bounding box of a circle: its center pushed out by its radius.
pub open spec fn circle_bounds_v(c: Circle) -> Aabr {
    Aabr {
        min: Vec2 { x: (c.center.x - c.radius) as i64, y: (c.center.y - c.radius) as i64 },
        max: Vec2 { x: (c.center.x + c.radius) as i64, y: (c.center.y + c.radius) as i64 },
    }
}

impl Aabr {
    /// Corners are ordered and lie in the derived coordinate range.
    pub open spec fn wf(self) -> bool {
        &&& in_shape_range(self.min.x as int)
        &&& in_shape_range(self.min.y as int)
        &&& in_shape_range(self.max.x as int)
        &&& in_shape_range(self.max.y as int)
        &&& self.min.x <= self.max.x
        &&& self.min.y <= self.max.y
    }

    /// The box spanned by two arbitrary corner points.
    pub fn new(a: Vec2, b: Vec2) -> (r: Aabr)
        requires
            in_shape_range(a.x as int),
            in_shape_range(a.y as int),
            in_shape_range(b.x as int),
            in_shape_range(b.y as int),
        ensures
            r.wf(),
            r.min.x == if a.x <= b.x { a.x } else { b.x },
            r.max.x == if a.x <= b.x { b.x } else { a.x },
            r.min.y == if a.y <= b.y { a.y } else { b.y },
            r.max.y == if a.y <= b.y { b.y } else { a.y },
    {
        let minx: i64 = if a.x <= b.x { a.x } else { b.x };
        let maxx: i64 = if a.x <= b.x { b.x } else { a.x };
        let miny: i64 = if a.y <= b.y { a.y } else { b.y };
        let maxy: i64 = if a.y <= b.y { b.y } else { a.y };
        Aabr { min: Vec2 { x: minx, y: miny }, max: Vec2 { x: maxx, y: maxy } }
    }

    /// The box of the given width and height centered on a point.  An odd
    /// fixed-point extent keeps its full width: the larger half goes to the
    /// `max` side.
    pub fn from_point(center: Vec2, width: i64, height: i64) -> (r: Aabr)
        requires
            center.wf(),
            0 <= width <= FX_MAX,
            0 <= height <= FX_MAX,
        ensures
            r == aabr_from_point_v(center, width as int, height as int),
            r.wf(),
            r.max.x - r.min.x == width,
            r.max.y - r.min.y == height,
    {
        let hw: i64 = width / 2;
        let hh: i64 = height / 2;
        Aabr {
            min: Vec2 { x: center.x - hw, y: center.y - hh },
            max: Vec2 { x: center.x + (width - hw), y: center.y + (height - hh) },
        }
    }

    /// Whether two boxes overlap; touching edges count as overlap.
    pub fn intersecting(&self, other: &Aabr) -> (r: bool)
        ensures
            r == aabr_intersecting_v(*self, *other),
    {
        self.min.x <= other.max.x && other.min.x <= self.max.x && self.min.y <= other.max.y
            && other.min.y <= self.max.y
    }
}

/// The box of the given extents centered on a point.
pub open spec fn aabr_from_point_v(center: Vec2, width: int, height: int) -> Aabr {
    let hw = width / 2;
    let hh = height / 2;
    Aabr {
        min: Vec2 { x: (center.x - hw) as i64, y: (center.y - hh) as i64 },
        max: Vec2 { x: (center.x + (width - hw)) as i64, y: (center.y + (height - hh)) as i64 },
    }
}

/// Whether two boxes overlap, touching edges included.
pub open spec fn aabr_intersecting_v(a: Aabr, b: Aabr) -> bool {
    a.min.x <= b.max.x && b.min.x <= a.max.x && a.min.y <= b.max.y && b.min.y <= a.max.y
}

impl Line {
    /// Endpoints lie in the derived coordinate range.
    pub open spec fn wf(self) -> bool {
        &&& in_shape_range(self.start.x as int)
        &&& in_shape_range(self.start.y as int)
        &&& in_shape_range(self.end.x as int)
        &&& in_shape_range(self.end.y as int)
    }

    pub fn new(start: Vec2, end: Vec2) -> (r: Line)
        ensures
            r == (Line { start, end }),
    {
        Line { start, end }
    }
}

impl ShapeWrapper {
    pub open spec fn wf(self) -> bool {
        match self {
            ShapeWrapper::Circle(c) => c.wf(),
            ShapeWrapper::Aabr(a) => a.wf(),
            ShapeWrapper::Line(l) => l.wf(),
        }
    }

    pub fn circle(center: Vec2, radius: i64) -> (r: ShapeWrapper)
        ensures
            r == ShapeWrapper::Circle(Circle { center, radius }),
    {
        ShapeWrapper::Circle(Circle { center, radius })
    }

    /// A rectangle shape of the given extents centered on a point.
    pub fn aabr(center: Vec2, width: i64, height: i64) -> (r: ShapeWrapper)
        requires
            center.wf(),
            0 <= width <= FX_MAX,
            0 <= height <= FX_MAX,
        ensures
            r == ShapeWrapper::Aabr(aabr_from_point_v(center, width as int, height as int)),
            r.wf(),
    {
        ShapeWrapper::Aabr(Aabr::from_point(center, width, height))
    }

    pub fn line(start: Vec2, end: Vec2) -> (r: ShapeWrapper)
        ensures
            r == ShapeWrapper::Line(Line { start, end }),
    {
        ShapeWrapper::Line(Line { start, end })
    }

    /// The tightest axis-aligned box around the shape.
    pub fn bounding_rect(&self) -> (r: Aabr)
        requires
            self.wf(),
        ensures
            r == shape_bounds_v(*self),
            r.wf(),
    {
        match self {
            ShapeWrapper::Circle(c) => c.bounding_rect(),
            ShapeWrapper::Aabr(a) => *a,
            ShapeWrapper::Line(l) => Aabr::new(l.start, l.end),
        }
    }
}

/// The bounding box of any shape.
pub open spec fn shape_bounds_v(s: ShapeWrapper) -> Aabr {
    match s {
        ShapeWrapper::Circle(c) => circle_bounds_v(c),
        ShapeWrapper::Aabr(a) => a,
        ShapeWrapper::Line(l) => Aabr {
            min: Vec2 {
                x: if l.start.x <= l.end.x { l.start.x } else { l.end.x },
                y: if l.start.y <= l.end.y { l.start.y } else { l.end.y },
            },
            max: Vec2 {
                x: if l.start.x <= l.end.x { l.end.x } else { l.start.x },
                y: if l.start.y <= l.end.y { l.end.y } else { l.start.y },
            },
        },
    }
}

/// The contact of two circles.  They collide exactly when the distance of
/// their centers is less than the sum of their radii.  The normal points
/// from `b`'s center toward `a`'s; two concentric circles take the canonical
/// normal `(FX_ONE, 0)` and the full radius sum as penetration.
pub open spec fn circle_circle_v(a: Circle, b: Circle) -> Option<Collision> {
    let dx = a.center.x - b.center.x;
    let dy = a.center.y - b.center.y;
    let d2 = dx * dx + dy * dy;
    let rsum = a.radius + b.radius;
    if d2 >= rsum * rsum {
        None
    } else if d2 == 0 {
        Some(
            Collision {
                normal: Vec2 { x: FX_ONE, y: 0 },
                penetration: rsum as i64,
                point: a.center,
            },
        )
    } else {
        let len = isqrt(d2);
        let nx = tdiv(dx * FX_ONE, len);
        let ny = tdiv(dy * FX_ONE, len);
        Some(
            Collision {
                normal: Vec2 { x: nx as i64, y: ny as i64 },
                penetration: (rsum - len) as i64,
                point: Vec2 {
                    x: (a.center.x - tdiv(nx * a.radius, FX_ONE as int)) as i64,
                    y: (a.center.y - tdiv(ny * a.radius, FX_ONE as int)) as i64,
                },
            },
        )
    }
}

/// Whether a collision value carries a unit-scaled normal, a positive
/// penetration within the derived range, and a contact point within the
/// derived range.
pub open spec fn collision_wf(c: Collision) -> bool {
    &&& -FX_ONE <= c.normal.x <= FX_ONE
    &&& -FX_ONE <= c.normal.y <= FX_ONE
    &&& 0 <= c.penetration <= PEN_MAX
    &&& in_shape_range(c.point.x as int)
    &&& in_shape_range(c.point.y as int)
}

impl Circle {
    /// The contact with another circle; `None` when they do not overlap.
    pub fn collision(&self, other: &Circle) -> (r: Option<Collision>)
        requires
            self.wf(),
            other.wf(),
        ensures
            r == circle_circle_v(*self, *other),
            r matches Some(c) ==> collision_wf(c),
    {
        let dx: i64 = self.center.x - other.center.x;
        let dy: i64 = self.center.y - other.center.y;
        let rsum: i64 = self.radius + other.radius;
        proof {
            assert(0 <= (dx as int) * (dx as int) <= 4_000_000_000_000_000_000_000_000int && 0
                <= (dy as int) * (dy as int) <= 4_000_000_000_000_000_000_000_000int && 0 <= (
            rsum as int) * (rsum as int) <= 4_000_000_000_000_000_000_000_000int)
                by (nonlinear_arith)
                requires
                    -2_000_000_000_000int <= dx as int <= 2_000_000_000_000int,
                    -2_000_000_000_000int <= dy as int <= 2_000_000_000_000int,
                    -2_000_000_000_000int <= rsum as int <= 2_000_000_000_000int,
            ;
        }
        let d2: i128 = (dx as i128) * (dx as i128) + (dy as i128) * (dy as i128);
        let r2: i128 = (rsum as i128) * (rsum as i128);
        if d2 >= r2 {
            return None;
        }
        if d2 == 0 {
            proof {
                assert(rsum as int > 0) by (nonlinear_arith)
                    requires
                        rsum as int >= 0,
                        (rsum as int) * (rsum as int) > 0,
                ;
            }
            return Some(
                Collision {
                    normal: Vec2 { x: FX_ONE, y: 0 },
                    penetration: rsum,
                    point: self.center,
                },
            );
        }
        let len_u: u128 = crate::fx::sqrt_u128(d2 as u128);
        proof {
            lemma_isqrt_unique(d2 as int, len_u as int);
            assert((len_u as int) < (rsum as int)) by (nonlinear_arith)
                requires
                    0 <= len_u as int,
                    (len_u as int) * (len_u as int) <= d2 as int,
                    (d2 as int) < (rsum as int) * (rsum as int),
                    0 <= rsum as int,
            ;
            assert(-(len_u as int) <= dx as int <= len_u as int && -(len_u as int) <= dy as int
                <= len_u as int) by (nonlinear_arith)
                requires
                    (dx as int) * (dx as int) <= d2 as int,
                    (dy as int) * (dy as int) <= d2 as int,
                    (d2 as int) < ((len_u as int) + 1) * ((len_u as int) + 1),
                    0 <= len_u as int,
            ;
        }
        let len: i64 = len_u as i64;
        proof {
            assert(-(FX_ONE as int) * (len as int) <= (dx as int) * (FX_ONE as int) <= (
            FX_ONE as int) * (len as int) && -(FX_ONE as int) * (len as int) <= (dy as int) * (
            FX_ONE as int) <= (FX_ONE as int) * (len as int)) by (nonlinear_arith)
                requires
                    -(len as int) <= dx as int <= len as int,
                    -(len as int) <= dy as int <= len as int,
                    0 <= len as int,
            ;
            lemma_tdiv_le((dx as int) * (FX_ONE as int), len as int, FX_ONE as int);
            lemma_tdiv_le((dy as int) * (FX_ONE as int), len as int, FX_ONE as int);
        }
        let nx: i64 = crate::fx::tdiv_i128((dx as i128) * (FX_ONE as i128), len as i128) as i64;
        let ny: i64 = crate::fx::tdiv_i128((dy as i128) * (FX_ONE as i128), len as i128) as i64;
        proof {
            assert(-(self.radius as int) * (FX_ONE as int) <= (nx as int) * (self.radius as int)
                <= (self.radius as int) * (FX_ONE as int) && -(self.radius as int) * (
            FX_ONE as int) <= (ny as int) * (self.radius as int) <= (self.radius as int) * (
            FX_ONE as int)) by (nonlinear_arith)
                requires
                    -(FX_ONE as int) <= nx as int <= FX_ONE as int,
                    -(FX_ONE as int) <= ny as int <= FX_ONE as int,
                    0 <= self.radius as int,
            ;
            lemma_tdiv_le((nx as int) * (self.radius as int), FX_ONE as int, self.radius as int);
            lemma_tdiv_le((ny as int) * (self.radius as int), FX_ONE as int, self.radius as int);
        }
        let ox: i64 = crate::fx::tdiv_i128(
            (nx as i128) * (self.radius as i128),
            FX_ONE as i128,
        ) as i64;
        let oy: i64 = crate::fx::tdiv_i128(
            (ny as i128) * (self.radius as i128),
            FX_ONE as i128,
        ) as i64;
        Some(
            Collision {
                normal: Vec2 { x: nx, y: ny },
                penetration: rsum - len,
                point: Vec2 { x: self.center.x - ox, y: self.center.y - oy },
            },
        )
    }
}

/// The contact of a circle and a rectangle.  With the circle's center
/// outside the box they collide exactly when the center is nearer to the
/// box than the radius, and the normal points from the nearest box point
/// toward the center.  With the center inside the box the normal points
/// outward through the nearest face (ties broken in the order left, right,
/// bottom, top) and the penetration is that face distance plus the radius.
pub open spec fn circle_aabr_v(c: Circle, r: Aabr) -> Option<Collision> {
    let qx = clamp_v(c.center.x as int, r.min.x as int, r.max.x as int);
    let qy = clamp_v(c.center.y as int, r.min.y as int, r.max.y as int);
    if qx == c.center.x && qy == c.center.y {
        let dl = c.center.x - r.min.x;
        let dr = r.max.x - c.center.x;
        let db = c.center.y - r.min.y;
        let dt = r.max.y - c.center.y;
        let m = imin(imin(dl, dr), imin(db, dt));
        let n = if m == dl {
            Vec2 { x: (-FX_ONE) as i64, y: 0 }
        } else if m == dr {
            Vec2 { x: FX_ONE, y: 0 }
        } else if m == db {
            Vec2 { x: 0, y: (-FX_ONE) as i64 }
        } else {
            Vec2 { x: 0, y: FX_ONE }
        };
        Some(Collision { normal: n, penetration: (m + c.radius) as i64, point: c.center })
    } else {
        let dx = c.center.x - qx;
        let dy = c.center.y - qy;
        let d2 = dx * dx + dy * dy;
        if d2 >= c.radius * c.radius {
            None
        } else {
            let len = isqrt(d2);
            Some(
                Collision {
                    normal: Vec2 {
                        x: tdiv(dx * FX_ONE, len) as i64,
                        y: tdiv(dy * FX_ONE, len) as i64,
                    },
                    penetration: (c.radius - len) as i64,
                    point: Vec2 { x: qx as i64, y: qy as i64 },
                },
            )
        }
    }
}

/// The contact of a circle and a rectangle, the normal pointing from the
/// rectangle toward the circle.
pub fn circle_aabr(c: &Circle, r: &Aabr) -> (res: Option<Collision>)
    requires
        c.wf(),
        r.wf(),
    ensures
        res == circle_aabr_v(*c, *r),
        res matches Some(col) ==> collision_wf(col),
{
    let qx: i64 = if c.center.x < r.min.x {
        r.min.x
    } else if c.center.x > r.max.x {
        r.max.x
    } else {
        c.center.x
    };
    let qy: i64 = if c.center.y < r.min.y {
        r.min.y
    } else if c.center.y > r.max.y {
        r.max.y
    } else {
        c.center.y
    };
    if qx == c.center.x && qy == c.center.y {
        let dl: i64 = c.center.x - r.min.x;
        let dr: i64 = r.max.x - c.center.x;
        let db: i64 = c.center.y - r.min.y;
        let dt: i64 = r.max.y - c.center.y;
        let mx: i64 = if dl <= dr {
            dl
        } else {
            dr
        };
        let my: i64 = if db <= dt {
            db
        } else {
            dt
        };
        let m: i64 = if mx <= my {
            mx
        } else {
            my
        };
        let n: Vec2 = if m == dl {
            Vec2 { x: -FX_ONE, y: 0 }
        } else if m == dr {
            Vec2 { x: FX_ONE, y: 0 }
        } else if m == db {
            Vec2 { x: 0, y: -FX_ONE }
        } else {
            Vec2 { x: 0, y: FX_ONE }
        };
        Some(Collision { normal: n, penetration: m + c.radius, point: c.center })
    } else {
        let dx: i64 = c.center.x - qx;
        let dy: i64 = c.center.y - qy;
        proof {
            assert(0 <= (dx as int) * (dx as int) <= 9_000_000_000_000_000_000_000_000int && 0
                <= (dy as int) * (dy as int) <= 9_000_000_000_000_000_000_000_000int && 0 <= (
            c.radius as int) * (c.radius as int) <= 9_000_000_000_000_000_000_000_000int)
                by (nonlinear_arith)
                requires
                    -3_000_000_000_000int <= dx as int <= 3_000_000_000_000int,
                    -3_000_000_000_000int <= dy as int <= 3_000_000_000_000int,
                    0 <= c.radius as int <= 3_000_000_000_000int,
            ;
        }
        let d2: i128 = (dx as i128) * (dx as i128) + (dy as i128) * (dy as i128);
        let r2: i128 = (c.radius as i128) * (c.radius as i128);
        if d2 >= r2 {
            return None;
        }
        proof {
            assert(d2 as int > 0) by (nonlinear_arith)
                requires
                    d2 as int == (dx as int) * (dx as int) + (dy as int) * (dy as int),
                    dx as int != 0 || dy as int != 0,
            ;
        }
        let len_u: u128 = crate::fx::sqrt_u128(d2 as u128);
        proof {
            lemma_isqrt_unique(d2 as int, len_u as int);
            assert((len_u as int) < (c.radius as int)) by (nonlinear_arith)
                requires
                    0 <= len_u as int,
                    (len_u as int) * (len_u as int) <= d2 as int,
                    (d2 as int) < (c.radius as int) * (c.radius as int),
                    0 <= c.radius as int,
            ;
            assert(-(len_u as int) <= dx as int <= len_u as int && -(len_u as int) <= dy as int
                <= len_u as int) by (nonlinear_arith)
                requires
                    (dx as int) * (dx as int) <= d2 as int,
                    (dy as int) * (dy as int) <= d2 as int,
                    (d2 as int) < ((len_u as int) + 1) * ((len_u as int) + 1),
                    0 <= len_u as int,
            ;
        }
        let len: i64 = len_u as i64;
        proof {
            assert(-(FX_ONE as int) * (len as int) <= (dx as int) * (FX_ONE as int) <= (
            FX_ONE as int) * (len as int) && -(FX_ONE as int) * (len as int) <= (dy as int) * (
            FX_ONE as int) <= (FX_ONE as int) * (len as int)) by (nonlinear_arith)
                requires
                    -(len as int) <= dx as int <= len as int,
                    -(len as int) <= dy as int <= len as int,
                    0 <= len as int,
            ;
            lemma_tdiv_le((dx as int) * (FX_ONE as int), len as int, FX_ONE as int);
            lemma_tdiv_le((dy as int) * (FX_ONE as int), len as int, FX_ONE as int);
        }
        let nx: i64 = crate::fx::tdiv_i128((dx as i128) * (FX_ONE as i128), len as i128) as i64;
        let ny: i64 = crate::fx::tdiv_i128((dy as i128) * (FX_ONE as i128), len as i128) as i64;
        Some(
            Collision {
                normal: Vec2 { x: nx, y: ny },
                penetration: c.radius - len,
                point: Vec2 { x: qx, y: qy },
            },
        )
    }
}

/// The contact of two rectangles.  They collide exactly when they overlap
/// with positive area.  The normal points from `b` toward `a` along the
/// axis of least overlap (a tie goes to the x axis), its sign taken from
/// the order of the two centers on that axis (`a` not left of `b`, or not
/// below `b`, gives the positive direction); the contact point is the
/// center of the overlap region.
pub open spec fn aabr_aabr_v(a: Aabr, b: Aabr) -> Option<Collision> {
    let lx = imax(a.min.x as int, b.min.x as int);
    let hx = imin(a.max.x as int, b.max.x as int);
    let ly = imax(a.min.y as int, b.min.y as int);
    let hy = imin(a.max.y as int, b.max.y as int);
    let ox = hx - lx;
    let oy = hy - ly;
    if ox <= 0 || oy <= 0 {
        None
    } else {
        let point = Vec2 { x: tdiv(lx + hx, 2) as i64, y: tdiv(ly + hy, 2) as i64 };
        if ox <= oy {
            let sign: i64 = if a.min.x + a.max.x >= b.min.x + b.max.x {
                FX_ONE
            } else {
                (-FX_ONE) as i64
            };
            Some(Collision { normal: Vec2 { x: sign, y: 0 }, penetration: ox as i64, point })
        } else {
            let sign: i64 = if a.min.y + a.max.y >= b.min.y + b.max.y {
                FX_ONE
            } else {
                (-FX_ONE) as i64
            };
            Some(Collision { normal: Vec2 { x: 0, y: sign }, penetration: oy as i64, point })
        }
    }
}

/// The contact of two rectangles, the normal pointing from `b` toward `a`.
pub fn aabr_aabr(a: &Aabr, b: &Aabr) -> (res: Option<Collision>)
    requires
        a.wf(),
        b.wf(),
    ensures
        res == aabr_aabr_v(*a, *b),
        res matches Some(col) ==> collision_wf(col),
{
    let lx: i64 = if a.min.x <= b.min.x {
        b.min.x
    } else {
        a.min.x
    };
    let hx: i64 = if a.max.x <= b.max.x {
        a.max.x
    } else {
        b.max.x
    };
    let ly: i64 = if a.min.y <= b.min.y {
        b.min.y
    } else {
        a.min.y
    };
    let hy: i64 = if a.max.y <= b.max.y {
        a.max.y
    } else {
        b.max.y
    };
    let ox: i64 = hx - lx;
    let oy: i64 = hy - ly;
    if ox <= 0 || oy <= 0 {
        return None;
    }
    let point: Vec2 = Vec2 { x: (lx + hx) / 2, y: (ly + hy) / 2 };
    if ox <= oy {
        let sign: i64 = if a.min.x + a.max.x >= b.min.x + b.max.x {
            FX_ONE
        } else {
            -FX_ONE
        };
        Some(Collision { normal: Vec2 { x: sign, y: 0 }, penetration: ox, point })
    } else {
        let sign: i64 = if a.min.y + a.max.y >= b.min.y + b.max.y {
            FX_ONE
        } else {
            -FX_ONE
        };
        Some(Collision { normal: Vec2 { x: 0, y: sign }, penetration: oy, point })
    }
}

/// The same contact with the normal reversed: what the swapped argument
/// order reports.
pub open spec fn collision_negated_v(r: Option<Collision>) -> Option<Collision> {
    match r {
        Some(c) => Some(
            Collision {
                normal: Vec2 {
                    x: (-(c.normal.x as int)) as i64,
                    y: (-(c.normal.y as int)) as i64,
                },
                penetration: c.penetration,
                point: c.point,
            },
        ),
        None => None,
    }
}

/// The contact of any two shapes: the supported pairs dispatch to their
/// tests, with the normal reoriented so that it always points from `other`
/// toward `self`; a pair involving a line segment reports no contact.
pub open spec fn collision_v(a: ShapeWrapper, b: ShapeWrapper) -> Option<Collision> {
    match (a, b) {
        (ShapeWrapper::Circle(ca), ShapeWrapper::Circle(cb)) => circle_circle_v(ca, cb),
        (ShapeWrapper::Circle(ca), ShapeWrapper::Aabr(rb)) => circle_aabr_v(ca, rb),
        (ShapeWrapper::Aabr(ra), ShapeWrapper::Circle(cb)) => collision_negated_v(
            circle_aabr_v(cb, ra),
        ),
        (ShapeWrapper::Aabr(ra), ShapeWrapper::Aabr(rb)) => aabr_aabr_v(ra, rb),
        _ => None,
    }
}

/// A vector no longer than `len` keeps unit-scaled components when
/// normalized by `len`.
pub proof fn lemma_normal_component_bounds(dx: int, dy: int, len: int, d2: int)
    requires
        is_isqrt(d2, len),
        dx * dx <= d2,
        dy * dy <= d2,
        len >= 1,
    ensures
        -(FX_ONE as int) <= tdiv(dx * (FX_ONE as int), len) <= FX_ONE as int,
        -(FX_ONE as int) <= tdiv(dy * (FX_ONE as int), len) <= FX_ONE as int,
{
    assert(-len <= dx <= len && -len <= dy <= len) by (nonlinear_arith)
        requires
            dx * dx <= d2,
            dy * dy <= d2,
            d2 < (len + 1) * (len + 1),
            0 <= len,
    ;
    assert(-((FX_ONE as int) * len) <= dx * (FX_ONE as int) <= (FX_ONE as int) * len && -((
    FX_ONE as int) * len) <= dy * (FX_ONE as int) <= (FX_ONE as int) * len) by (nonlinear_arith)
        requires
            -len <= dx <= len,
            -len <= dy <= len,
            0 <= len,
    ;
    lemma_tdiv_le(dx * (FX_ONE as int), len, FX_ONE as int);
    lemma_tdiv_le(dy * (FX_ONE as int), len, FX_ONE as int);
}

/// The normal a circle–rectangle contact reports is a unit-scaled vector.
proof fn lemma_circle_aabr_normal_bounds(c: Circle, r: Aabr)
    requires
        circle_aabr_v(c, r) is Some,
    ensures
        -(FX_ONE as int) <= circle_aabr_v(c, r)->Some_0.normal.x as int <= FX_ONE as int,
        -(FX_ONE as int) <= circle_aabr_v(c, r)->Some_0.normal.y as int <= FX_ONE as int,
{
    let qx = clamp_v(c.center.x as int, r.min.x as int, r.max.x as int);
    let qy = clamp_v(c.center.y as int, r.min.y as int, r.max.y as int);
    if qx == c.center.x && qy == c.center.y {
    } else {
        let dx = c.center.x - qx;
        let dy = c.center.y - qy;
        let d2 = dx * dx + dy * dy;
        assert(d2 > 0 && dx * dx <= d2 && dy * dy <= d2) by (nonlinear_arith)
            requires
                d2 == dx * dx + dy * dy,
                dx != 0 || dy != 0,
        ;
        lemma_isqrt_exists(d2);
        let len = isqrt(d2);
        assert(len >= 1) by (nonlinear_arith)
            requires
                is_isqrt(d2, len),
                d2 > 0,
        ;
        lemma_normal_component_bounds(dx, dy, len, d2);
    }
}

/// Reversing the argument order of the contact test reports the same
/// overlap with an antiparallel normal and the same penetration, for every
/// supported shape pair — except the wholly tied placements this predicate
/// excludes, where no orientation can be read off the pair: two concentric
/// circles, and two rectangles whose centers coincide on the axis of least
/// overlap, both of which take the same canonical normal either way.
pub open spec fn collision_orientable(a: ShapeWrapper, b: ShapeWrapper) -> bool {
    match (a, b) {
        (ShapeWrapper::Circle(ca), ShapeWrapper::Circle(cb)) => !(ca.center.x == cb.center.x
            && ca.center.y == cb.center.y),
        (ShapeWrapper::Aabr(ra), ShapeWrapper::Aabr(rb)) => {
            let ox = imin(ra.max.x as int, rb.max.x as int) - imax(
                ra.min.x as int,
                rb.min.x as int,
            );
            let oy = imin(ra.max.y as int, rb.max.y as int) - imax(
                ra.min.y as int,
                rb.min.y as int,
            );
            if ox <= oy {
                ra.min.x + ra.max.x != rb.min.x + rb.max.x
            } else {
                ra.min.y + ra.max.y != rb.min.y + rb.max.y
            }
        },
        _ => true,
    }
}

/// The contact test is symmetric up to the sign of its normal: `a` against
/// `b` and `b` against `a` report the same overlap, antiparallel normals
/// and equal penetration, for every supported, orientable shape pair.
pub proof fn lemma_collision_antisymmetric(a: ShapeWrapper, b: ShapeWrapper)
    requires
        a.wf(),
        b.wf(),
        collision_orientable(a, b),
    ensures
        (collision_v(a, b) is Some) == (collision_v(b, a) is Some),
        collision_v(a, b) is Some ==> collision_v(a, b)->Some_0.normal.x == -collision_v(
            b,
            a,
        )->Some_0.normal.x,
        collision_v(a, b) is Some ==> collision_v(a, b)->Some_0.normal.y == -collision_v(
            b,
            a,
        )->Some_0.normal.y,
        collision_v(a, b) is Some ==> collision_v(a, b)->Some_0.penetration == collision_v(
            b,
            a,
        )->Some_0.penetration,
{
    match (a, b) {
        (ShapeWrapper::Circle(ca), ShapeWrapper::Circle(cb)) => {
            let dx = ca.center.x - cb.center.x;
            let dy = ca.center.y - cb.center.y;
            let d2 = dx * dx + dy * dy;
            let rsum = ca.radius + cb.radius;
            assert((-dx) * (-dx) == dx * dx && (-dy) * (-dy) == dy * dy) by (nonlinear_arith);
            if d2 >= rsum * rsum {
            } else if d2 == 0 {
                assert(dx == 0 && dy == 0) by (nonlinear_arith)
                    requires
                        dx * dx + dy * dy == 0,
                ;
            } else {
                assert(d2 > 0 && dx * dx <= d2 && dy * dy <= d2) by (nonlinear_arith)
                    requires
                        d2 == dx * dx + dy * dy,
                        d2 != 0,
                ;
                lemma_isqrt_exists(d2);
                let len = isqrt(d2);
                assert(len >= 1) by (nonlinear_arith)
                    requires
                        is_isqrt(d2, len),
                        d2 > 0,
                ;
                lemma_normal_component_bounds(dx, dy, len, d2);
                assert((-dx) * (FX_ONE as int) == -(dx * (FX_ONE as int)) && (-dy) * (
                FX_ONE as int) == -(dy * (FX_ONE as int))) by (nonlinear_arith);
                lemma_tdiv_neg(dx * (FX_ONE as int), len);
                lemma_tdiv_neg(dy * (FX_ONE as int), len);
            }
        },
        (ShapeWrapper::Circle(ca), ShapeWrapper::Aabr(rb)) => {
            if circle_aabr_v(ca, rb) is Some {
                lemma_circle_aabr_normal_bounds(ca, rb);
            }
        },
        (ShapeWrapper::Aabr(ra), ShapeWrapper::Circle(cb)) => {
            if circle_aabr_v(cb, ra) is Some {
                lemma_circle_aabr_normal_bounds(cb, ra);
            }
        },
        (ShapeWrapper::Aabr(ra), ShapeWrapper::Aabr(rb)) => {
        },
        _ => {},
    }
}

impl ShapeWrapper {
    /// The contact of this shape with another; `None` when they do not
    /// overlap or the pair is unsupported.  The normal points from `other`
    /// toward `self`.
    pub fn collision(&self, other: &ShapeWrapper) -> (r: Option<Collision>)
        requires
            self.wf(),
            other.wf(),
        ensures
            r == collision_v(*self, *other),
            r matches Some(c) ==> collision_wf(c),
    {
        match (self, other) {
            (ShapeWrapper::Circle(ca), ShapeWrapper::Circle(cb)) => ca.collision(cb),
            (ShapeWrapper::Circle(ca), ShapeWrapper::Aabr(rb)) => circle_aabr(ca, rb),
            (ShapeWrapper::Aabr(ra), ShapeWrapper::Circle(cb)) => match circle_aabr(cb, ra) {
                Some(c) => Some(
                    Collision {
                        normal: Vec2 { x: -c.normal.x, y: -c.normal.y },
                        penetration: c.penetration,
                        point: c.point,
                    },
                ),
                None => None,
            },
            (ShapeWrapper::Aabr(ra), ShapeWrapper::Aabr(rb)) => aabr_aabr(ra, rb),
            _ => None,
        }
    }
}

/// Whether the point lies in the closed disc of the circle.
pub open spec fn point_in_circle_v(px: int, py: int, c: Circle) -> bool {
    (px - c.center.x) * (px - c.center.x) + (py - c.center.y) * (py - c.center.y) <= c.radius
        * c.radius
}

fn point_in_circle(px: i64, py: i64, c: &Circle) -> (r: bool)
    requires
        c.wf(),
        in_shape_range(px as int),
        in_shape_range(py as int),
    ensures
        r == point_in_circle_v(px as int, py as int, *c),
{
    let dx: i64 = px - c.center.x;
    let dy: i64 = py - c.center.y;
    proof {
        assert(0 <= (dx as int) * (dx as int) <= 9_000_000_000_000_000_000_000_000int && 0 <= (
        dy as int) * (dy as int) <= 9_000_000_000_000_000_000_000_000int && 0 <= (c.radius as int)
            * (c.radius as int) <= 9_000_000_000_000_000_000_000_000int) by (nonlinear_arith)
            requires
                -3_000_000_000_000int <= dx as int <= 3_000_000_000_000int,
                -3_000_000_000_000int <= dy as int <= 3_000_000_000_000int,
                0 <= c.radius as int <= 3_000_000_000_000int,
        ;
    }
    (dx as i128) * (dx as i128) + (dy as i128) * (dy as i128) <= (c.radius as i128) * (
    c.radius as i128)
}

/// Whether the point lies in the closed box.
pub open spec fn point_in_aabr_v(px: int, py: int, r: Aabr) -> bool {
    r.min.x <= px <= r.max.x && r.min.y <= py <= r.max.y
}

/// Whether shape `a` wholly contains shape `b`, boundaries included.  A
/// line contains nothing; a contained circle must fit with its full
/// radius; a contained box or line must have every corner or endpoint
/// inside.
pub open spec fn enveloping_v(a: ShapeWrapper, b: ShapeWrapper) -> bool {
    match (a, b) {
        (ShapeWrapper::Circle(ca), ShapeWrapper::Circle(cb)) => {
            let dx = ca.center.x - cb.center.x;
            let dy = ca.center.y - cb.center.y;
            ca.radius >= cb.radius && dx * dx + dy * dy <= (ca.radius - cb.radius) * (ca.radius
                - cb.radius)
        },
        (ShapeWrapper::Circle(ca), ShapeWrapper::Aabr(rb)) => {
            &&& point_in_circle_v(rb.min.x as int, rb.min.y as int, ca)
            &&& point_in_circle_v(rb.min.x as int, rb.max.y as int, ca)
            &&& point_in_circle_v(rb.max.x as int, rb.min.y as int, ca)
            &&& point_in_circle_v(rb.max.x as int, rb.max.y as int, ca)
        },
        (ShapeWrapper::Circle(ca), ShapeWrapper::Line(lb)) => {
            &&& point_in_circle_v(lb.start.x as int, lb.start.y as int, ca)
            &&& point_in_circle_v(lb.end.x as int, lb.end.y as int, ca)
        },
        (ShapeWrapper::Aabr(ra), ShapeWrapper::Circle(cb)) => {
            &&& ra.min.x <= cb.center.x - cb.radius
            &&& cb.center.x + cb.radius <= ra.max.x
            &&& ra.min.y <= cb.center.y - cb.radius
            &&& cb.center.y + cb.radius <= ra.max.y
        },
        (ShapeWrapper::Aabr(ra), ShapeWrapper::Aabr(rb)) => {
            &&& ra.min.x <= rb.min.x
            &&& rb.max.x <= ra.max.x
            &&& ra.min.y <= rb.min.y
            &&& rb.max.y <= ra.max.y
        },
        (ShapeWrapper::Aabr(ra), ShapeWrapper::Line(lb)) => {
            &&& point_in_aabr_v(lb.start.x as int, lb.start.y as int, ra)
            &&& point_in_aabr_v(lb.end.x as int, lb.end.y as int, ra)
        },
        _ => false,
    }
}

/// Whether two shapes overlap at all.  For the supported contact pairs
/// this is exactly "the contact test reports a collision"; for a pair
/// involving a line segment only the bounding boxes are compared, the
/// kernel's documented coarse treatment of lines.
pub open spec fn intersects_v(a: ShapeWrapper, b: ShapeWrapper) -> bool {
    match (a, b) {
        (ShapeWrapper::Circle(ca), ShapeWrapper::Circle(cb)) => circle_circle_v(ca, cb) is Some,
        (ShapeWrapper::Circle(ca), ShapeWrapper::Aabr(rb)) => circle_aabr_v(ca, rb) is Some,
        (ShapeWrapper::Aabr(ra), ShapeWrapper::Circle(cb)) => circle_aabr_v(cb, ra) is Some,
        (ShapeWrapper::Aabr(ra), ShapeWrapper::Aabr(rb)) => aabr_aabr_v(ra, rb) is Some,
        _ => aabr_intersecting_v(shape_bounds_v(a), shape_bounds_v(b)),
    }
}

impl ShapeWrapper {
    /// Whether this shape wholly contains the other, boundaries included.
    pub fn enveloping(&self, other: &ShapeWrapper) -> (r: bool)
        requires
            self.wf(),
            other.wf(),
        ensures
            r == enveloping_v(*self, *other),
    {
        match (self, other) {
            (ShapeWrapper::Circle(ca), ShapeWrapper::Circle(cb)) => {
                let dx: i64 = ca.center.x - cb.center.x;
                let dy: i64 = ca.center.y - cb.center.y;
                let dr: i64 = ca.radius - cb.radius;
                proof {
                    assert(0 <= (dx as int) * (dx as int) <= 9_000_000_000_000_000_000_000_000int
                        && 0 <= (dy as int) * (dy as int) <= 9_000_000_000_000_000_000_000_000int
                        && -9_000_000_000_000_000_000_000_000int <= (dr as int) * (dr as int)
                        <= 9_000_000_000_000_000_000_000_000int) by (nonlinear_arith)
                        requires
                            -3_000_000_000_000int <= dx as int <= 3_000_000_000_000int,
                            -3_000_000_000_000int <= dy as int <= 3_000_000_000_000int,
                            -3_000_000_000_000int <= dr as int <= 3_000_000_000_000int,
                    ;
                }
                ca.radius >= cb.radius && (dx as i128) * (dx as i128) + (dy as i128) * (
                dy as i128) <= (dr as i128) * (dr as i128)
            },
            (ShapeWrapper::Circle(ca), ShapeWrapper::Aabr(rb)) => {
                point_in_circle(rb.min.x, rb.min.y, ca) && point_in_circle(rb.min.x, rb.max.y, ca)
                    && point_in_circle(rb.max.x, rb.min.y, ca) && point_in_circle(
                    rb.max.x,
                    rb.max.y,
                    ca,
                )
            },
            (ShapeWrapper::Circle(ca), ShapeWrapper::Line(lb)) => {
                point_in_circle(lb.start.x, lb.start.y, ca) && point_in_circle(
                    lb.end.x,
                    lb.end.y,
                    ca,
                )
            },
            (ShapeWrapper::Aabr(ra), ShapeWrapper::Circle(cb)) => {
                ra.min.x <= cb.center.x - cb.radius && cb.center.x + cb.radius <= ra.max.x
                    && ra.min.y <= cb.center.y - cb.radius && cb.center.y + cb.radius <= ra.max.y
            },
            (ShapeWrapper::Aabr(ra), ShapeWrapper::Aabr(rb)) => {
                ra.min.x <= rb.min.x && rb.max.x <= ra.max.x && ra.min.y <= rb.min.y && rb.max.y
                    <= ra.max.y
            },
            (ShapeWrapper::Aabr(ra), ShapeWrapper::Line(lb)) => {
                ra.min.x <= lb.start.x && lb.start.x <= ra.max.x && ra.min.y <= lb.start.y
                    && lb.start.y <= ra.max.y && ra.min.x <= lb.end.x && lb.end.x <= ra.max.x
                    && ra.min.y <= lb.end.y && lb.end.y <= ra.max.y
            },
            _ => false,
        }
    }

    /// Whether this shape is wholly contained in the other.
    pub fn enveloped_by(&self, other: &ShapeWrapper) -> (r: bool)
        requires
            self.wf(),
            other.wf(),
        ensures
            r == enveloping_v(*other, *self),
    {
        other.enveloping(self)
    }

    /// Whether this shape overlaps the other at all; for pairs with a line
    /// segment only the bounding boxes are compared.
    pub fn intersects(&self, other: &ShapeWrapper) -> (r: bool)
        requires
            self.wf(),
            other.wf(),
        ensures
            r == intersects_v(*self, *other),
    {
        match (self, other) {
            (ShapeWrapper::Circle(_), ShapeWrapper::Circle(_))
            | (ShapeWrapper::Circle(_), ShapeWrapper::Aabr(_))
            | (ShapeWrapper::Aabr(_), ShapeWrapper::Circle(_))
            | (ShapeWrapper::Aabr(_), ShapeWrapper::Aabr(_)) => self.collision(other).is_some(),
            _ => {
                let ba: Aabr = self.bounding_rect();
                let bb: Aabr = other.bounding_rect();
                ba.intersecting(&bb)
            },
        }
    }
}

} // verus!
