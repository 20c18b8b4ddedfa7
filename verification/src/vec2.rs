//! Two-dimensional vectors of fixed-point scalars.

use vstd::prelude::*;
use crate::fx::FX_ONE;
use crate::fx::FX_MAX;
use crate::fx::fx_wf;
use crate::fx::tdiv;
use crate::fx::fx_mul_v;
use crate::fx::fx_add;
use crate::fx::fx_sub;
use crate::fx::fx_mul;
use crate::fx::sqrt_u128;
use crate::fx::isqrt;
use crate::fx::is_isqrt;
use crate::fx::lemma_isqrt_unique;

verus! {

/// A vector of two fixed-point scalars: a position, a velocity or a normal.
#[derive(Clone, Copy, Debug, PartialEq, Eq, Structural)]
pub struct Vec2 {
    pub x: i64,
    pub y: i64,
}

/// The squared length of a vector, exact.
pub open spec fn mag_sq_v(v: Vec2) -> int {
    (v.x as int) * (v.x as int) + (v.y as int) * (v.y as int)
}

/// The length of a vector in fixed-point scale, rounded down.
pub open spec fn length_v(v: Vec2) -> int {
    isqrt(mag_sq_v(v))
}

/// The fixed-point dot product of two vectors.
pub open spec fn dot_v(a: Vec2, b: Vec2) -> int {
    tdiv((a.x as int) * (b.x as int) + (a.y as int) * (b.y as int), FX_ONE as int)
}

impl Vec2 {
    /// Both components lie in the representable range.
    pub open spec fn wf(self) -> bool {
        fx_wf(self.x as int) && fx_wf(self.y as int)
    }

    pub fn new(x: i64, y: i64) -> (r: Vec2)
        ensures
            r.x == x,
            r.y == y,
    {
        Vec2 { x, y }
    }

    pub fn zero() -> (r: Vec2)
        ensures
            r.x == 0,
            r.y == 0,
    {
        Vec2 { x: 0, y: 0 }
    }

    /// Component-wise sum; `None` reports a component out of range.
    pub fn plus(self, o: Vec2) -> (r: Option<Vec2>)
        ensures
            fx_wf(self.x + o.x) && fx_wf(self.y + o.y) ==> r == Some(
                Vec2 { x: (self.x + o.x) as i64, y: (self.y + o.y) as i64 },
            ),
            !(fx_wf(self.x + o.x) && fx_wf(self.y + o.y)) ==> r is None,
    {
        match (fx_add(self.x, o.x), fx_add(self.y, o.y)) {
            (Some(x), Some(y)) => Some(Vec2 { x, y }),
            _ => None,
        }
    }

    /// Component-wise difference; `None` reports a component out of range.
    pub fn minus(self, o: Vec2) -> (r: Option<Vec2>)
        ensures
            fx_wf(self.x - o.x) && fx_wf(self.y - o.y) ==> r == Some(
                Vec2 { x: (self.x - o.x) as i64, y: (self.y - o.y) as i64 },
            ),
            !(fx_wf(self.x - o.x) && fx_wf(self.y - o.y)) ==> r is None,
    {
        match (fx_sub(self.x, o.x), fx_sub(self.y, o.y)) {
            (Some(x), Some(y)) => Some(Vec2 { x, y }),
            _ => None,
        }
    }

    /// The vector scaled by a fixed-point factor; `None` reports a component
    /// out of range.
    pub fn scaled(self, s: i64) -> (r: Option<Vec2>)
        ensures
            fx_wf(fx_mul_v(self.x as int, s as int)) && fx_wf(fx_mul_v(self.y as int, s as int))
                ==> r == Some(
                Vec2 {
                    x: fx_mul_v(self.x as int, s as int) as i64,
                    y: fx_mul_v(self.y as int, s as int) as i64,
                },
            ),
            !(fx_wf(fx_mul_v(self.x as int, s as int)) && fx_wf(
                fx_mul_v(self.y as int, s as int),
            )) ==> r is None,
    {
        match (fx_mul(self.x, s), fx_mul(self.y, s)) {
            (Some(x), Some(y)) => Some(Vec2 { x, y }),
            _ => None,
        }
    }

    /// The fixed-point dot product; `None` reports an operand or the result
    /// out of range.
    pub fn dot_fx(self, o: Vec2) -> (r: Option<i64>)
        ensures
            self.wf() && o.wf() && fx_wf(dot_v(self, o)) ==> r == Some(dot_v(self, o) as i64),
            !(self.wf() && o.wf() && fx_wf(dot_v(self, o))) ==> r is None,
    {
        if self.x < -FX_MAX || self.x > FX_MAX || self.y < -FX_MAX || self.y > FX_MAX || o.x
            < -FX_MAX || o.x > FX_MAX || o.y < -FX_MAX || o.y > FX_MAX {
            return None;
        }
        proof {
            assert((self.x as int) * (o.x as int) <= 0x10000000000000000000000000int
                && (self.x as int) * (o.x as int) >= -0x10000000000000000000000000int
                && (self.y as int) * (o.y as int) <= 0x10000000000000000000000000int
                && (self.y as int) * (o.y as int) >= -0x10000000000000000000000000int)
                by (nonlinear_arith)
                requires
                    -(FX_MAX as int) <= self.x as int <= FX_MAX as int,
                    -(FX_MAX as int) <= self.y as int <= FX_MAX as int,
                    -(FX_MAX as int) <= o.x as int <= FX_MAX as int,
                    -(FX_MAX as int) <= o.y as int <= FX_MAX as int,
                    FX_MAX == 1_000_000_000_000,
            ;
        }
        let p: i128 = (self.x as i128) * (o.x as i128) + (self.y as i128) * (o.y as i128);
        let q: i128 = p / (FX_ONE as i128);
        if -FX_MAX as i128 <= q && q <= FX_MAX as i128 {
            Some(q as i64)
        } else {
            None
        }
    }

    /// The length in fixed-point scale, rounded down; `None` reports an
    /// operand or the result out of range.
    pub fn length_fx(self) -> (r: Option<i64>)
        ensures
            self.wf() && fx_wf(length_v(self)) ==> r == Some(length_v(self) as i64),
            !(self.wf() && fx_wf(length_v(self))) ==> r is None,
            r matches Some(l) ==> l >= 0 && is_isqrt(mag_sq_v(self), l as int),
    {
        if self.x < -FX_MAX || self.x > FX_MAX || self.y < -FX_MAX || self.y > FX_MAX {
            return None;
        }
        proof {
            assert(0 <= (self.x as int) * (self.x as int) <= 0x10000000000000000000000000int
                && 0 <= (self.y as int) * (self.y as int) <= 0x10000000000000000000000000int)
                by (nonlinear_arith)
                requires
                    -(FX_MAX as int) <= self.x as int <= FX_MAX as int,
                    -(FX_MAX as int) <= self.y as int <= FX_MAX as int,
                    FX_MAX == 1_000_000_000_000,
            ;
        }
        let m: i128 = (self.x as i128) * (self.x as i128) + (self.y as i128) * (self.y as i128);
        let s: u128 = sqrt_u128(m as u128);
        proof {
            lemma_isqrt_unique(mag_sq_v(self), s as int);
        }
        if s <= FX_MAX as u128 {
            Some(s as i64)
        } else {
            None
        }
    }
}

} // verus!
