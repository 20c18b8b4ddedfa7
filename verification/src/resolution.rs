//! The impulse resolver: turns a contact manifold and two body snapshots
//! into corrected velocities.
//!
//! The classic strategy applies a restitution-weighted impulse along the
//! contact normal, a tangential friction impulse split by raw mass
//! fraction, and an energy safeguard that never lets the pair's linear
//! kinetic energy grow.  Angular velocity passes through untouched.  Every
//! degenerate numeric case — a non-positive initial force, a pair of
//! immovable bodies, a value out of the representable range — resolves to
//! a no-op for that manifold rather than failing.

use vstd::prelude::*;
use crate::fx::FX_ONE;
use crate::fx::FX_MAX;
use crate::fx::fx_wf;
use crate::fx::fx_mul_v;
use crate::fx::fx_div_v;
use crate::fx::tdiv;
use crate::fx::imin;
use crate::fx::isqrt;
use crate::fx::fx_mul;
use crate::fx::fx_add;
use crate::fx::fx_div;
use crate::fx::sqrt_u128;
use crate::fx::tdiv_i128;
use crate::fx::lemma_isqrt_unique;
use crate::fx::lemma_tdiv_le;
use crate::vec2::Vec2;
use crate::vec2::dot_v;
use crate::vec2::mag_sq_v;
use crate::pipeline::Manifold;
use crate::pipeline::ImpulseObject;
use crate::pipeline::ImpulseResult;
use crate::pipeline::manifold_force_v;

verus! {

/// The linear kinetic energy of a body, in fixed-point scale and dropping
/// the conventional one-half: its mass times its squared speed.
pub open spec fn ke_v(m: int, v: Vec2) -> int {
    fx_mul_v(m, fx_mul_v(v.x as int, v.x as int) + fx_mul_v(v.y as int, v.y as int))
}

/// Whether the kinetic energy of a body is representable step by step.
pub open spec fn ke_ok(m: int, v: Vec2) -> bool {
    &&& fx_wf(fx_mul_v(v.x as int, v.x as int))
    &&& fx_wf(fx_mul_v(v.y as int, v.y as int))
    &&& fx_wf(fx_mul_v(v.x as int, v.x as int) + fx_mul_v(v.y as int, v.y as int))
    &&& fx_wf(ke_v(m, v))
}

/// Kinetic energy is never negative for a nonnegative mass.
pub proof fn lemma_ke_nonneg(m: int, v: Vec2)
    requires
        m >= 0,
    ensures
        ke_v(m, v) >= 0,
{
    assert((v.x as int) * (v.x as int) >= 0 && (v.y as int) * (v.y as int) >= 0)
        by (nonlinear_arith);
    vstd::arithmetic::div_mod::lemma_div_pos_is_pos((v.x as int) * (v.x as int), FX_ONE as int);
    vstd::arithmetic::div_mod::lemma_div_pos_is_pos((v.y as int) * (v.y as int), FX_ONE as int);
    let q = fx_mul_v(v.x as int, v.x as int) + fx_mul_v(v.y as int, v.y as int);
    assert(m * q >= 0) by (nonlinear_arith)
        requires
            m >= 0,
            q >= 0,
    ;
    vstd::arithmetic::div_mod::lemma_div_pos_is_pos(m * q, FX_ONE as int);
}

/// The kinetic energy of a body; `None` reports a value out of range.
pub fn kinetic(m: i64, v: Vec2) -> (r: Option<i64>)
    requires
        0 <= m,
    ensures
        ke_ok(m as int, v) ==> r == Some(ke_v(m as int, v) as i64),
        !ke_ok(m as int, v) ==> r is None,
        r matches Some(k) ==> 0 <= k == ke_v(m as int, v),
{
    proof {
        lemma_ke_nonneg(m as int, v);
    }
    match (fx_mul(v.x, v.x), fx_mul(v.y, v.y)) {
        (Some(qx), Some(qy)) => match fx_add(qx, qy) {
            Some(q) => fx_mul(m, q),
            None => None,
        },
        _ => None,
    }
}

/// A vector scaled twice in sequence, component by component.
pub open spec fn scaled2_v(n: Vec2, s1: int, s2: int) -> Vec2 {
    Vec2 {
        x: fx_mul_v(fx_mul_v(n.x as int, s1), s2) as i64,
        y: fx_mul_v(fx_mul_v(n.y as int, s1), s2) as i64,
    }
}

/// Whether both scales stay representable step by step.
pub open spec fn scaled2_ok(n: Vec2, s1: int, s2: int) -> bool {
    &&& fx_wf(fx_mul_v(n.x as int, s1))
    &&& fx_wf(fx_mul_v(n.y as int, s1))
    &&& fx_wf(fx_mul_v(fx_mul_v(n.x as int, s1), s2))
    &&& fx_wf(fx_mul_v(fx_mul_v(n.y as int, s1), s2))
}

fn scaled2(n: Vec2, s1: i64, s2: i64) -> (r: Option<Vec2>)
    ensures
        scaled2_ok(n, s1 as int, s2 as int) ==> r == Some(scaled2_v(n, s1 as int, s2 as int)),
        !scaled2_ok(n, s1 as int, s2 as int) ==> r is None,
{
    match n.scaled(s1) {
        Some(t) => t.scaled(s2),
        None => None,
    }
}

/// The velocities after the energy safeguard.  Whenever any of the four
/// kinetic energies cannot be represented the whole correction is absorbed
/// and the pre-resolution velocities come back; with the corrected pair's
/// energy within the pre-resolution energy the correction stands; above
/// it, the corrected velocities of the movable bodies are rescaled by the
/// square root of the energy ratio, and only kept if the rescaled pair now
/// fits under the bound — otherwise the correction is absorbed.  A body
/// with inverse mass zero is never rescaled.
pub open spec fn energy_clamp_v(
    am: int,
    bm: int,
    ai: int,
    bi: int,
    av: Vec2,
    bv: Vec2,
    cv1: Vec2,
    cv2: Vec2,
) -> (Vec2, Vec2) {
    if !(ke_ok(am, av) && ke_ok(bm, bv) && ke_ok(am, cv1) && ke_ok(bm, cv2)) {
        (av, bv)
    } else {
        let kpre = ke_v(am, av) + ke_v(bm, bv);
        let kpost = ke_v(am, cv1) + ke_v(bm, cv2);
        if kpost <= kpre {
            (cv1, cv2)
        } else {
            let ratio = isqrt(tdiv(kpre * (FX_ONE as int) * (FX_ONE as int), kpost));
            let g1 = ai == 0 || (fx_wf(fx_mul_v(cv1.x as int, ratio)) && fx_wf(
                fx_mul_v(cv1.y as int, ratio),
            ));
            let g2 = bi == 0 || (fx_wf(fx_mul_v(cv2.x as int, ratio)) && fx_wf(
                fx_mul_v(cv2.y as int, ratio),
            ));
            if !(g1 && g2) {
                (av, bv)
            } else {
                let sv1 = if ai == 0 {
                    cv1
                } else {
                    Vec2 {
                        x: fx_mul_v(cv1.x as int, ratio) as i64,
                        y: fx_mul_v(cv1.y as int, ratio) as i64,
                    }
                };
                let sv2 = if bi == 0 {
                    cv2
                } else {
                    Vec2 {
                        x: fx_mul_v(cv2.x as int, ratio) as i64,
                        y: fx_mul_v(cv2.y as int, ratio) as i64,
                    }
                };
                if ke_ok(am, sv1) && ke_ok(bm, sv2) && ke_v(am, sv1) + ke_v(bm, sv2) <= kpre {
                    (sv1, sv2)
                } else {
                    (av, bv)
                }
            }
        }
    }
}

/// Energy non-increase at the safeguard: whatever corrected pair the
/// safeguard judges, the pair it reports never carries more linear
/// kinetic energy than the pre-resolution pair.
pub proof fn lemma_energy_clamp_bound(
    am: int,
    bm: int,
    ai: int,
    bi: int,
    av: Vec2,
    bv: Vec2,
    cv1: Vec2,
    cv2: Vec2,
)
    ensures
        ke_v(am, energy_clamp_v(am, bm, ai, bi, av, bv, cv1, cv2).0) + ke_v(
            bm,
            energy_clamp_v(am, bm, ai, bi, av, bv, cv1, cv2).1,
        ) <= ke_v(am, av) + ke_v(bm, bv),
{
}

/// The energy safeguard.  Beyond computing `energy_clamp_v` exactly, it
/// guarantees that the pair it reports never carries more linear kinetic
/// energy than the pre-resolution pair, and that a body with inverse mass
/// zero keeps whatever velocity it was handed.
pub fn energy_clamp(
    am: i64,
    bm: i64,
    ai: i64,
    bi: i64,
    av: Vec2,
    bv: Vec2,
    cv1: Vec2,
    cv2: Vec2,
) -> (r: (Vec2, Vec2))
    requires
        0 <= am <= FX_MAX,
        0 <= bm <= FX_MAX,
        av.wf(),
        bv.wf(),
        cv1.wf(),
        cv2.wf(),
    ensures
        r == energy_clamp_v(am as int, bm as int, ai as int, bi as int, av, bv, cv1, cv2),
        ke_v(am as int, r.0) + ke_v(bm as int, r.1) <= ke_v(am as int, av) + ke_v(bm as int, bv),
        ai == 0 && cv1 == av ==> r.0 == av,
        bi == 0 && cv2 == bv ==> r.1 == bv,
        r.0.wf(),
        r.1.wf(),
{
    let kpre1 = kinetic(am, av);
    let kpre2 = kinetic(bm, bv);
    let kpost1 = kinetic(am, cv1);
    let kpost2 = kinetic(bm, cv2);
    match (kpre1, kpre2, kpost1, kpost2) {
        (Some(k1), Some(k2), Some(c1), Some(c2)) => {
            let kpre: i64 = k1 + k2;
            let kpost: i64 = c1 + c2;
            if kpost <= kpre {
                return (cv1, cv2);
            }
            proof {
                let c = (kpre as int) * (FX_ONE as int) * (FX_ONE as int);
                assert(0 <= (kpre as int) * (FX_ONE as int) * (FX_ONE as int)
                    <= 0x10000000000000000000000000000int) by (nonlinear_arith)
                    requires
                        0 <= kpre as int <= 2_000_000_000_000int,
                        FX_ONE == 65536,
                ;
                assert(c <= c * (kpost as int)) by (nonlinear_arith)
                    requires
                        c >= 0,
                        kpost as int >= 1,
                ;
                lemma_tdiv_le(c, kpost as int, c);
            }
            let wide: i128 = (kpre as i128) * (FX_ONE as i128) * (FX_ONE as i128);
            let q: i128 = tdiv_i128(wide, kpost as i128);
            let ratio_u: u128 = sqrt_u128(q as u128);
            proof {
                lemma_isqrt_unique(q as int, ratio_u as int);
                assert((ratio_u as int) < 0x200_0000_0000_0000int) by (nonlinear_arith)
                    requires
                        0 <= ratio_u as int,
                        (ratio_u as int) * (ratio_u as int) <= q as int,
                        q as int <= 0x10000000000000000000000000000int,
                ;
            }
            let ratio: i64 = ratio_u as i64;
            let s1: Option<Vec2> = if ai == 0 {
                Some(cv1)
            } else {
                cv1.scaled(ratio)
            };
            let s2: Option<Vec2> = if bi == 0 {
                Some(cv2)
            } else {
                cv2.scaled(ratio)
            };
            match (s1, s2) {
                (Some(sv1), Some(sv2)) => {
                    let r1 = kinetic(am, sv1);
                    let r2 = kinetic(bm, sv2);
                    match (r1, r2) {
                        (Some(ks1), Some(ks2)) => {
                            if ks1 + ks2 <= kpre {
                                (sv1, sv2)
                            } else {
                                (av, bv)
                            }
                        },
                        _ => (av, bv),
                    }
                },
                _ => (av, bv),
            }
        },
        _ => (av, bv),
    }
}

/// The velocities after the tangential friction pass.  The tangent is the
/// relative velocity less its normal part; with no tangential motion, a
/// pair of massless bodies, or any value out of the representable range,
/// the friction pass changes nothing.  The tangential impulse is clamped
/// by the static-friction cone — the combined coefficient is the
/// Euclidean combination of the two materials' — and falls back to the
/// dynamic-friction magnitude when the cone is exceeded.  The impulse is
/// split by each body's raw mass fraction of the combined mass, and a
/// body with inverse mass zero takes no share.
pub open spec fn friction_v(
    n: Vec2,
    rv: Vec2,
    vn: int,
    j: int,
    a: ImpulseObject,
    b: ImpulseObject,
    v1: Vec2,
    v2: Vec2,
) -> (Vec2, Vec2) {
    let nx = fx_mul_v(n.x as int, vn);
    let ny = fx_mul_v(n.y as int, vn);
    if !(fx_wf(nx) && fx_wf(ny) && fx_wf(rv.x - nx) && fx_wf(rv.y - ny)) {
        (v1, v2)
    } else {
        let t = Vec2 { x: (rv.x - nx) as i64, y: (rv.y - ny) as i64 };
        let tl = isqrt(mag_sq_v(t));
        if !fx_wf(tl) || tl == 0 {
            (v1, v2)
        } else {
            let tn = Vec2 {
                x: tdiv((t.x as int) * (FX_ONE as int), tl) as i64,
                y: tdiv((t.y as int) * (FX_ONE as int), tl) as i64,
            };
            if !fx_wf(dot_v(rv, tn)) {
                (v1, v2)
            } else {
                let jt = fx_div_v(-dot_v(rv, tn), a.i + b.i);
                if !fx_wf(jt) {
                    (v1, v2)
                } else {
                    let mus = isqrt((a.sf as int) * (a.sf as int) + (b.sf as int) * (b.sf as int));
                    let mud = isqrt((a.df as int) * (a.df as int) + (b.df as int) * (b.df as int));
                    if !(fx_wf(mus) && fx_wf(mud) && fx_wf(fx_mul_v(j, mus)) && fx_wf(
                        fx_mul_v(j, mud),
                    )) {
                        (v1, v2)
                    } else {
                        let cone = fx_mul_v(j, mus);
                        let jtf = if -cone <= jt <= cone {
                            jt
                        } else {
                            -fx_mul_v(j, mud)
                        };
                        let msum = a.m + b.m;
                        if msum == 0 {
                            (v1, v2)
                        } else {
                            let fa = tdiv((a.m as int) * (FX_ONE as int), msum);
                            let fb = tdiv((b.m as int) * (FX_ONE as int), msum);
                            let d1 = scaled2_v(tn, jtf, fa);
                            let d2 = scaled2_v(tn, jtf, fb);
                            let g1 = a.i == 0 || (scaled2_ok(tn, jtf, fa) && fx_wf(v1.x + d1.x)
                                && fx_wf(v1.y + d1.y));
                            let g2 = b.i == 0 || (scaled2_ok(tn, jtf, fb) && fx_wf(v2.x - d2.x)
                                && fx_wf(v2.y - d2.y));
                            if !(g1 && g2) {
                                (v1, v2)
                            } else {
                                let f1 = if a.i == 0 {
                                    v1
                                } else {
                                    Vec2 { x: (v1.x + d1.x) as i64, y: (v1.y + d1.y) as i64 }
                                };
                                let f2 = if b.i == 0 {
                                    v2
                                } else {
                                    Vec2 { x: (v2.x - d2.x) as i64, y: (v2.y - d2.y) as i64 }
                                };
                                (f1, f2)
                            }
                        }
                    }
                }
            }
        }
    }
}

/// The friction pass.  A body with inverse mass zero keeps the velocity
/// it was handed.
fn friction_adjust(
    n: Vec2,
    rv: Vec2,
    vn: i64,
    j: i64,
    a: &ImpulseObject,
    b: &ImpulseObject,
    v1: Vec2,
    v2: Vec2,
) -> (r: (Vec2, Vec2))
    requires
        n.wf(),
        rv.wf(),
        a.wf(),
        b.wf(),
        a.i + b.i >= 1,
        v1.wf(),
        v2.wf(),
    ensures
        r == friction_v(n, rv, vn as int, j as int, *a, *b, v1, v2),
        a.i == 0 ==> r.0 == v1,
        b.i == 0 ==> r.1 == v2,
        r.0.wf(),
        r.1.wf(),
{
    let nxs: Option<i64> = fx_mul(n.x, vn);
    let nys: Option<i64> = fx_mul(n.y, vn);
    let (nx, ny): (i64, i64) = match (nxs, nys) {
        (Some(x), Some(y)) => (x, y),
        _ => {
            return (v1, v2);
        },
    };
    let (tx, ty): (i64, i64) = match (crate::fx::fx_sub(rv.x, nx), crate::fx::fx_sub(rv.y, ny)) {
        (Some(x), Some(y)) => (x, y),
        _ => {
            return (v1, v2);
        },
    };
    let t: Vec2 = Vec2 { x: tx, y: ty };
    let tl: i64 = match t.length_fx() {
        Some(l) => l,
        None => {
            return (v1, v2);
        },
    };
    if tl == 0 {
        return (v1, v2);
    }
    proof {
        assert((t.x as int) * (t.x as int) <= mag_sq_v(t) && (t.y as int) * (t.y as int)
            <= mag_sq_v(t)) by (nonlinear_arith)
            requires
                mag_sq_v(t) == (t.x as int) * (t.x as int) + (t.y as int) * (t.y as int),
        ;
        crate::shapes::lemma_normal_component_bounds(
            t.x as int,
            t.y as int,
            tl as int,
            mag_sq_v(t),
        );
    }
    let tnx: i64 = tdiv_i128((t.x as i128) * (FX_ONE as i128), tl as i128) as i64;
    let tny: i64 = tdiv_i128((t.y as i128) * (FX_ONE as i128), tl as i128) as i64;
    let tn: Vec2 = Vec2 { x: tnx, y: tny };
    let u: i64 = match rv.dot_fx(tn) {
        Some(u) => u,
        None => {
            return (v1, v2);
        },
    };
    let jt: i64 = match fx_div(-u, a.i + b.i) {
        Some(v) => v,
        None => {
            return (v1, v2);
        },
    };
    proof {
        assert(0 <= (a.sf as int) * (a.sf as int) <= 1_000_000_000_000_000_000_000_000int && 0
            <= (b.sf as int) * (b.sf as int) <= 1_000_000_000_000_000_000_000_000int && 0 <= (
        a.df as int) * (a.df as int) <= 1_000_000_000_000_000_000_000_000int && 0 <= (
        b.df as int) * (b.df as int) <= 1_000_000_000_000_000_000_000_000int)
            by (nonlinear_arith)
            requires
                0 <= a.sf as int <= 1_000_000_000_000int,
                0 <= b.sf as int <= 1_000_000_000_000int,
                0 <= a.df as int <= 1_000_000_000_000int,
                0 <= b.df as int <= 1_000_000_000_000int,
        ;
    }
    let mus_q: i128 = (a.sf as i128) * (a.sf as i128) + (b.sf as i128) * (b.sf as i128);
    let mud_q: i128 = (a.df as i128) * (a.df as i128) + (b.df as i128) * (b.df as i128);
    let mus_u: u128 = sqrt_u128(mus_q as u128);
    let mud_u: u128 = sqrt_u128(mud_q as u128);
    proof {
        lemma_isqrt_unique(mus_q as int, mus_u as int);
        lemma_isqrt_unique(mud_q as int, mud_u as int);
    }
    if mus_u > FX_MAX as u128 || mud_u > FX_MAX as u128 {
        return (v1, v2);
    }
    let mus: i64 = mus_u as i64;
    let mud: i64 = mud_u as i64;
    let cone: i64 = match fx_mul(j, mus) {
        Some(c) => c,
        None => {
            return (v1, v2);
        },
    };
    let dynmag: i64 = match fx_mul(j, mud) {
        Some(c) => c,
        None => {
            return (v1, v2);
        },
    };
    let jtf: i64 = if -cone <= jt && jt <= cone {
        jt
    } else {
        -dynmag
    };
    let msum: i64 = a.m + b.m;
    if msum == 0 {
        return (v1, v2);
    }
    proof {
        assert((a.m as int) * (FX_ONE as int) <= (FX_ONE as int) * (msum as int) && 0 <= (
        a.m as int) * (FX_ONE as int) && (b.m as int) * (FX_ONE as int) <= (FX_ONE as int) * (
        msum as int) && 0 <= (b.m as int) * (FX_ONE as int) && -((FX_ONE as int) * (msum as int))
            <= (a.m as int) * (FX_ONE as int) && -((FX_ONE as int) * (msum as int)) <= (
        b.m as int) * (FX_ONE as int)) by (nonlinear_arith)
            requires
                0 <= a.m as int,
                0 <= b.m as int,
                msum as int == a.m as int + b.m as int,
                msum as int >= 1,
                FX_ONE == 65536,
        ;
        lemma_tdiv_le((a.m as int) * (FX_ONE as int), msum as int, FX_ONE as int);
        lemma_tdiv_le((b.m as int) * (FX_ONE as int), msum as int, FX_ONE as int);
    }
    let fa: i64 = tdiv_i128((a.m as i128) * (FX_ONE as i128), msum as i128) as i64;
    let fb: i64 = tdiv_i128((b.m as i128) * (FX_ONE as i128), msum as i128) as i64;
    let w1: Option<Vec2> = if a.i == 0 {
        Some(v1)
    } else {
        match scaled2(tn, jtf, fa) {
            Some(d) => v1.plus(d),
            None => None,
        }
    };
    let w2: Option<Vec2> = if b.i == 0 {
        Some(v2)
    } else {
        match scaled2(tn, jtf, fb) {
            Some(d) => v2.minus(d),
            None => None,
        }
    };
    match (w1, w2) {
        (Some(f1), Some(f2)) => (f1, f2),
        _ => (v1, v2),
    }
}

/// Whether the pair of a manifold is separating: the relative velocity
/// along the contact normal (which points from the second body toward the
/// first) is positive.
pub open spec fn separating_v(m: Manifold, a: ImpulseObject, b: ImpulseObject) -> bool {
    &&& fx_wf(a.v.x - b.v.x)
    &&& fx_wf(a.v.y - b.v.y)
    &&& fx_wf(dot_v(rel_velocity_v(a, b), m.n))
    &&& dot_v(rel_velocity_v(a, b), m.n) > 0
}

/// The relative velocity of the pair, first body minus second.
pub open spec fn rel_velocity_v(a: ImpulseObject, b: ImpulseObject) -> Vec2 {
    Vec2 { x: (a.v.x - b.v.x) as i64, y: (a.v.y - b.v.y) as i64 }
}

/// The classic resolution of one manifold.  A manifold with non-positive
/// initial force, a separating pair, a pair of immovable bodies, or any
/// value out of the representable range resolves to a no-op: the input
/// velocities come back.  Otherwise the impulse
/// `j = -(1 + e) * vn / (1/ma + 1/mb)` — with `e` the lesser of the two
/// restitutions and `vn` the relative speed along the normal — corrects
/// each body's linear velocity along the normal in proportion to its
/// inverse mass; the friction pass and the energy safeguard then adjust
/// the result.  Angular velocities pass through untouched.
pub open spec fn classic_resolve_v(m: Manifold, a: ImpulseObject, b: ImpulseObject) -> (
    ImpulseResult,
    ImpulseResult,
) {
    let pass = (ImpulseResult { v: a.v, r: a.r }, ImpulseResult { v: b.v, r: b.r });
    if manifold_force_v(m) <= 0 {
        pass
    } else if !(fx_wf(a.v.x - b.v.x) && fx_wf(a.v.y - b.v.y)) {
        pass
    } else {
        let rv = rel_velocity_v(a, b);
        if !fx_wf(dot_v(rv, m.n)) {
            pass
        } else {
            let vn = dot_v(rv, m.n);
            if vn > 0 {
                pass
            } else if a.i + b.i == 0 {
                pass
            } else {
                let e = imin(a.cr as int, b.cr as int);
                if !fx_wf(fx_mul_v(FX_ONE + e, vn)) {
                    pass
                } else {
                    let t = fx_mul_v(FX_ONE + e, vn);
                    if !fx_wf(fx_div_v(-t, a.i + b.i)) {
                        pass
                    } else {
                        let j = fx_div_v(-t, a.i + b.i);
                        if !(scaled2_ok(m.n, a.i as int, j) && scaled2_ok(m.n, b.i as int, j)) {
                            pass
                        } else {
                            let d1 = scaled2_v(m.n, a.i as int, j);
                            let d2 = scaled2_v(m.n, b.i as int, j);
                            if !(fx_wf(a.v.x + d1.x) && fx_wf(a.v.y + d1.y) && fx_wf(
                                b.v.x - d2.x,
                            ) && fx_wf(b.v.y - d2.y)) {
                                pass
                            } else {
                                let v1 = Vec2 {
                                    x: (a.v.x + d1.x) as i64,
                                    y: (a.v.y + d1.y) as i64,
                                };
                                let v2 = Vec2 {
                                    x: (b.v.x - d2.x) as i64,
                                    y: (b.v.y - d2.y) as i64,
                                };
                                let fv = friction_v(m.n, rv, vn, j, a, b, v1, v2);
                                let cv = energy_clamp_v(
                                    a.m as int,
                                    b.m as int,
                                    a.i as int,
                                    b.i as int,
                                    a.v,
                                    b.v,
                                    fv.0,
                                    fv.1,
                                );
                                (
                                    ImpulseResult { v: cv.0, r: a.r },
                                    ImpulseResult { v: cv.1, r: b.r },
                                )
                            }
                        }
                    }
                }
            }
        }
    }
}

/// The classic resolution of one manifold, exactly as `classic_resolve_v`
/// describes it.  On top of that exact account it guarantees, without
/// condition: the pair's linear kinetic energy never increases; a separating
/// pair and a non-positive initial force leave both velocities untouched;
/// a body with inverse mass zero never changes velocity; and angular
/// velocities always pass through.
pub fn classic_resolve(m: &Manifold, a: &ImpulseObject, b: &ImpulseObject) -> (r: (
    ImpulseResult,
    ImpulseResult,
))
    requires
        m.wf(),
        a.wf(),
        b.wf(),
    ensures
        r == classic_resolve_v(*m, *a, *b),
        ke_v(a.m as int, r.0.v) + ke_v(b.m as int, r.1.v) <= ke_v(a.m as int, a.v) + ke_v(
            b.m as int,
            b.v,
        ),
        manifold_force_v(*m) <= 0 ==> r.0.v == a.v && r.1.v == b.v,
        separating_v(*m, *a, *b) ==> r.0.v == a.v && r.1.v == b.v,
        a.i == 0 ==> r.0.v == a.v,
        b.i == 0 ==> r.1.v == b.v,
        r.0.r == a.r,
        r.1.r == b.r,
        r.0.v.wf(),
        r.1.v.wf(),
{
    let pass: (ImpulseResult, ImpulseResult) = (
        ImpulseResult { v: a.v, r: a.r },
        ImpulseResult { v: b.v, r: b.r },
    );
    if m.f() <= 0 {
        return pass;
    }
    let rv: Vec2 = match a.v.minus(b.v) {
        Some(v) => v,
        None => {
            return pass;
        },
    };
    let vn: i64 = match rv.dot_fx(m.n) {
        Some(v) => v,
        None => {
            return pass;
        },
    };
    if vn > 0 {
        return pass;
    }
    let im_sum: i64 = a.i + b.i;
    if im_sum == 0 {
        return pass;
    }
    let e: i64 = if a.cr <= b.cr {
        a.cr
    } else {
        b.cr
    };
    let t: i64 = match fx_mul(FX_ONE + e, vn) {
        Some(v) => v,
        None => {
            return pass;
        },
    };
    let j: i64 = match fx_div(-t, im_sum) {
        Some(v) => v,
        None => {
            return pass;
        },
    };
    let d1: Vec2 = match scaled2(m.n, a.i, j) {
        Some(v) => v,
        None => {
            return pass;
        },
    };
    let d2: Vec2 = match scaled2(m.n, b.i, j) {
        Some(v) => v,
        None => {
            return pass;
        },
    };
    let w1: Option<Vec2> = a.v.plus(d1);
    let w2: Option<Vec2> = b.v.minus(d2);
    let (v1, v2): (Vec2, Vec2) = match (w1, w2) {
        (Some(x), Some(y)) => (x, y),
        _ => {
            return pass;
        },
    };
    proof {
        if a.i == 0 {
            assert((m.n.x as int) * 0 == 0 && (m.n.y as int) * 0 == 0 && 0int * (j as int)
                == 0) by (nonlinear_arith);
            assert(fx_mul_v(m.n.x as int, 0) == 0);
            assert(fx_mul_v(m.n.y as int, 0) == 0);
            assert(fx_mul_v(0, j as int) == 0);
            assert(v1 == a.v);
        }
        if b.i == 0 {
            assert((m.n.x as int) * 0 == 0 && (m.n.y as int) * 0 == 0 && 0int * (j as int)
                == 0) by (nonlinear_arith);
            assert(fx_mul_v(m.n.x as int, 0) == 0);
            assert(fx_mul_v(m.n.y as int, 0) == 0);
            assert(fx_mul_v(0, j as int) == 0);
            assert(v2 == b.v);
        }
    }
    let fv: (Vec2, Vec2) = friction_adjust(m.n, rv, vn, j, a, b, v1, v2);
    let cv: (Vec2, Vec2) = energy_clamp(a.m, b.m, a.i, b.i, a.v, b.v, fv.0, fv.1);
    (ImpulseResult { v: cv.0, r: a.r }, ImpulseResult { v: cv.1, r: b.r })
}

/// A pluggable collision-resolution strategy.  The pipeline invokes
/// `tick` once per resolution pass and `resolve` once per manifold; a
/// strategy states what it computes in its two model functions, so that
/// the pipeline's own contract carries through whichever strategy is
/// plugged in.  The classic strategy supplied here makes no use of its
/// own state beyond diagnostic counters, but a custom strategy may.
pub trait ImpulseResolver: Sized {
    /// The strategy's state after one bookkeeping tick.
    spec fn tick_model(self) -> Self;

    /// The two resolutions and the successor state `resolve` reports.
    spec fn resolve_model(self, m: Manifold, a: ImpulseObject, b: ImpulseObject) -> (
        ImpulseResult,
        ImpulseResult,
        Self,
    );

    /// Tells the resolver a new round of collision resolution is starting.
    fn tick(&mut self)
        ensures
            *final(self) == old(self).tick_model(),
    ;

    /// Resolves the collision between two bodies.  Whatever the strategy,
    /// the velocities it reports are representable.
    fn resolve(&mut self, m: Manifold, a: ImpulseObject, b: ImpulseObject) -> (r: (
        ImpulseResult,
        ImpulseResult,
    ))
        requires
            m.wf(),
            a.wf(),
            b.wf(),
        ensures
            r.0 == old(self).resolve_model(m, a, b).0,
            r.1 == old(self).resolve_model(m, a, b).1,
            *final(self) == old(self).resolve_model(m, a, b).2,
            r.0.v.wf(),
            r.1.v.wf(),
            fx_wf(r.0.r as int),
            fx_wf(r.1.r as int),
    ;
}

/// The default strategy: the classic restitution-and-friction impulse of
/// `classic_resolve_v`, plus two diagnostic counters — ticks seen and
/// collisions handled — that have no effect on the physics.  Both
/// counters start over at zero when they would overflow.
#[derive(Clone, Copy, Debug, PartialEq, Eq, Structural)]
pub struct ClassicImpulseResolver {
    pub ticks: u32,
    pub collisions: u32,
}

impl Default for ClassicImpulseResolver {
    /// A resolver that has seen no tick and no collision.
    fn default() -> (r: ClassicImpulseResolver)
        ensures
            r == (ClassicImpulseResolver { ticks: 0u32, collisions: 0u32 }),
    {
        ClassicImpulseResolver { ticks: 0, collisions: 0 }
    }
}

impl ImpulseResolver for ClassicImpulseResolver {
    open spec fn tick_model(self) -> ClassicImpulseResolver {
        ClassicImpulseResolver {
            ticks: if self.ticks == u32::MAX {
                0u32
            } else {
                (self.ticks + 1) as u32
            },
            collisions: self.collisions,
        }
    }

    open spec fn resolve_model(self, m: Manifold, a: ImpulseObject, b: ImpulseObject) -> (
        ImpulseResult,
        ImpulseResult,
        ClassicImpulseResolver,
    ) {
        let out = classic_resolve_v(m, a, b);
        let handled = manifold_force_v(m) > 0;
        (
            out.0,
            out.1,
            ClassicImpulseResolver {
                ticks: self.ticks,
                collisions: if !handled {
                    self.collisions
                } else if self.collisions == u32::MAX {
                    0u32
                } else {
                    (self.collisions + 1) as u32
                },
            },
        )
    }

    fn tick(&mut self) {
        match self.ticks.checked_add(1) {
            Some(t) => {
                self.ticks = t;
            },
            None => {
                self.ticks = 0;
            },
        }
    }

    fn resolve(&mut self, m: Manifold, a: ImpulseObject, b: ImpulseObject) -> (r: (
        ImpulseResult,
        ImpulseResult,
    )) {
        let out: (ImpulseResult, ImpulseResult) = classic_resolve(&m, &a, &b);
        if m.f() > 0 {
            match self.collisions.checked_add(1) {
                Some(c) => {
                    self.collisions = c;
                },
                None => {
                    self.collisions = 0;
                },
            }
        }
        out
    }
}

/// Energy non-increase: whatever the manifold and the snapshots, the
/// velocities the classic resolution reports never carry more linear
/// kinetic energy than the pair brought in.
pub proof fn lemma_classic_resolve_energy(m: Manifold, a: ImpulseObject, b: ImpulseObject)
    ensures
        ke_v(a.m as int, classic_resolve_v(m, a, b).0.v) + ke_v(
            b.m as int,
            classic_resolve_v(m, a, b).1.v,
        ) <= ke_v(a.m as int, a.v) + ke_v(b.m as int, b.v),
{
    if manifold_force_v(m) > 0 && fx_wf(a.v.x - b.v.x) && fx_wf(a.v.y - b.v.y) && fx_wf(
        dot_v(rel_velocity_v(a, b), m.n),
    ) {
        let rv = rel_velocity_v(a, b);
        let vn = dot_v(rv, m.n);
        if !(vn > 0) && a.i + b.i != 0 {
            let e = imin(a.cr as int, b.cr as int);
            if fx_wf(fx_mul_v(FX_ONE + e, vn)) {
                let t = fx_mul_v(FX_ONE + e, vn);
                if fx_wf(fx_div_v(-t, a.i + b.i)) {
                    let j = fx_div_v(-t, a.i + b.i);
                    if scaled2_ok(m.n, a.i as int, j) && scaled2_ok(m.n, b.i as int, j) {
                        let d1 = scaled2_v(m.n, a.i as int, j);
                        let d2 = scaled2_v(m.n, b.i as int, j);
                        if fx_wf(a.v.x + d1.x) && fx_wf(a.v.y + d1.y) && fx_wf(b.v.x - d2.x)
                            && fx_wf(b.v.y - d2.y) {
                            let v1 = Vec2 { x: (a.v.x + d1.x) as i64, y: (a.v.y + d1.y) as i64 };
                            let v2 = Vec2 { x: (b.v.x - d2.x) as i64, y: (b.v.y - d2.y) as i64 };
                            let fv = friction_v(m.n, rv, vn, j, a, b, v1, v2);
                            lemma_energy_clamp_bound(
                                a.m as int,
                                b.m as int,
                                a.i as int,
                                b.i as int,
                                a.v,
                                b.v,
                                fv.0,
                                fv.1,
                            );
                        }
                    }
                }
            }
        }
    }
}

/// A snapshot with inverse mass zero comes out of the classic resolution
/// with its velocity untouched, whatever the manifold: an immovable body
/// takes no impulse, no friction share and no rescaling.
pub proof fn lemma_classic_resolve_static(m: Manifold, a: ImpulseObject, b: ImpulseObject)
    ensures
        a.i == 0 ==> classic_resolve_v(m, a, b).0.v == a.v,
        b.i == 0 ==> classic_resolve_v(m, a, b).1.v == b.v,
        classic_resolve_v(m, a, b).0.r == a.r,
        classic_resolve_v(m, a, b).1.r == b.r,
{
    vstd::arithmetic::div_mod::lemma_div_basics_1(FX_ONE as int);
    assert((m.n.x as int) * 0 == 0 && (m.n.y as int) * 0 == 0) by (nonlinear_arith);
    assert(fx_mul_v(m.n.x as int, 0) == 0 && fx_mul_v(m.n.y as int, 0) == 0);
    if a.i == 0 {
        let j = fx_div_v(
            -fx_mul_v(
                FX_ONE + imin(a.cr as int, b.cr as int),
                dot_v(rel_velocity_v(a, b), m.n),
            ),
            a.i + b.i,
        );
        assert(0int * j == 0) by (nonlinear_arith);
        assert(fx_mul_v(0, j) == 0);
    }
    if b.i == 0 {
        let j = fx_div_v(
            -fx_mul_v(
                FX_ONE + imin(a.cr as int, b.cr as int),
                dot_v(rel_velocity_v(a, b), m.n),
            ),
            a.i + b.i,
        );
        assert(0int * j == 0) by (nonlinear_arith);
        assert(fx_mul_v(0, j) == 0);
    }
}

/// Calculates the resulting velocities of two objects after a collision:
/// the classic resolution, under the free-function entry point.  The time
/// delta plays no part in the impulse and is ignored.
pub fn resolve_impulse(m: &Manifold, a: &ImpulseObject, b: &ImpulseObject, _dt: i64) -> (r: (
    ImpulseResult,
    ImpulseResult,
))
    requires
        m.wf(),
        a.wf(),
        b.wf(),
    ensures
        r == classic_resolve_v(*m, *a, *b),
        ke_v(a.m as int, r.0.v) + ke_v(b.m as int, r.1.v) <= ke_v(a.m as int, a.v) + ke_v(
            b.m as int,
            b.v,
        ),
        manifold_force_v(*m) <= 0 ==> r.0.v == a.v && r.1.v == b.v,
        separating_v(*m, *a, *b) ==> r.0.v == a.v && r.1.v == b.v,
{
    classic_resolve(m, a, b)
}

} // verus!
