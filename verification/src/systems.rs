//! The assembled simulation step, and the optional speed limiter.
//!
//! One step runs the four stages strictly in sequence — integration,
//! broad phase, narrow phase, impulse resolution — each stage reading the
//! state exactly as the previous one committed it, and then caps every
//! body's speed if a limit is configured.

use vstd::prelude::*;
use vstd::pervasive::VecAdditionalExecFns;
use crate::fx::FX_ONE;
use crate::fx::fx_wf;
use crate::fx::fx_mul_v;
use crate::fx::tdiv;
use crate::fx::isqrt;
use crate::fx::is_isqrt;
use crate::fx::lemma_isqrt_unique;
use crate::fx::lemma_tdiv_le;
use crate::vec2::Vec2;
use crate::vec2::mag_sq_v;
use crate::components::Velocity;
use crate::components::PhysicsMaterial;
use crate::pipeline::Body;
use crate::pipeline::BroadPhasePairs;
use crate::pipeline::Manifolds;
use crate::pipeline::bodies_wf;
use crate::pipeline::materials_wf;
use crate::integration::integrate_body_v;
use crate::integration::integration;
use crate::broad::broad_pairs_v;
use crate::broad::broad_phase;
use crate::narrow::narrow_manifolds_v;
use crate::narrow::narrow_phase;
use crate::impulse::resolution_pass_v;
use crate::impulse::impulse_resolution;
use crate::resolution::ImpulseResolver;
use crate::resources::FishicsConfig;

verus! {

/// The whole body set after the integrator pass.
pub open spec fn integrate_all_v(bodies: Seq<Body>, dt: int) -> Seq<Body> {
    Seq::new(bodies.len(), |i: int| integrate_body_v(bodies[i], dt))
}

/// One body after the speed limiter: a measurable linear speed whose
/// square exceeds the configured squared limit is scaled back onto the
/// limit; anything else — a missing velocity, a speed within the limit,
/// or a speed whose square is not representable — is left alone.
pub open spec fn speed_clamp_v(cfg: FishicsConfig, b: Body) -> Body {
    match b.velocity {
        Some(vel) => {
            let msx = fx_mul_v(vel.linear.x as int, vel.linear.x as int);
            let msy = fx_mul_v(vel.linear.y as int, vel.linear.y as int);
            if !(fx_wf(msx) && fx_wf(msy) && fx_wf(msx + msy)) {
                b
            } else if msx + msy <= cfg.max_speed_squared {
                b
            } else {
                let len = isqrt(mag_sq_v(vel.linear));
                let nx = tdiv((vel.linear.x as int) * (cfg.max_speed as int), len);
                let ny = tdiv((vel.linear.y as int) * (cfg.max_speed as int), len);
                Body {
                    rb: b.rb,
                    velocity: Some(
                        Velocity {
                            linear: Vec2 { x: nx as i64, y: ny as i64 },
                            angular: vel.angular,
                        },
                    ),
                    forces: b.forces,
                    mass: b.mass,
                    collider: b.collider,
                    material: b.material,
                }
            }
        },
        None => b,
    }
}

/// The whole body set after the speed limiter.
pub open spec fn speed_limit_all_v(cfg: FishicsConfig, bodies: Seq<Body>) -> Seq<Body> {
    Seq::new(bodies.len(), |i: int| speed_clamp_v(cfg, bodies[i]))
}

fn speed_clamp(cfg: &FishicsConfig, b: Body) -> (r: Body)
    requires
        cfg.wf(),
        b.wf(),
    ensures
        r == speed_clamp_v(*cfg, b),
        r.wf(),
{
    let vel: Velocity = match b.velocity {
        Some(v) => v,
        None => {
            return b;
        },
    };
    let ms: i64 = match vel.linear_mag_squared() {
        Some(m) => m,
        None => {
            return b;
        },
    };
    if ms <= cfg.max_speed_squared {
        return b;
    }
    proof {
        crate::fx::lemma_square_fx_nonneg(cfg.max_speed as int);
        if vel.linear.x == 0 && vel.linear.y == 0 {
            vstd::arithmetic::div_mod::lemma_div_basics_1(FX_ONE as int);
            assert(0int * 0int == 0) by (nonlinear_arith);
            assert(tdiv(0int, FX_ONE as int) == 0);
            assert(fx_mul_v(0, 0) == 0);
        }
        assert(mag_sq_v(vel.linear) > 0) by (nonlinear_arith)
            requires
                vel.linear.x != 0 || vel.linear.y != 0,
                mag_sq_v(vel.linear) == (vel.linear.x as int) * (vel.linear.x as int) + (
                vel.linear.y as int) * (vel.linear.y as int),
        ;
        assert(0 <= (vel.linear.x as int) * (vel.linear.x as int)
            <= 1_000_000_000_000_000_000_000_000int && 0 <= (vel.linear.y as int) * (
        vel.linear.y as int) <= 1_000_000_000_000_000_000_000_000int) by (nonlinear_arith)
            requires
                -1_000_000_000_000int <= vel.linear.x as int <= 1_000_000_000_000int,
                -1_000_000_000_000int <= vel.linear.y as int <= 1_000_000_000_000int,
        ;
    }
    let mag: i128 = (vel.linear.x as i128) * (vel.linear.x as i128) + (vel.linear.y as i128) * (
    vel.linear.y as i128);
    let len_u: u128 = crate::fx::sqrt_u128(mag as u128);
    proof {
        lemma_isqrt_unique(mag as int, len_u as int);
        assert(len_u >= 1) by (nonlinear_arith)
            requires
                is_isqrt(mag as int, len_u as int),
                mag as int > 0,
        ;
        assert(-(len_u as int) <= vel.linear.x as int <= len_u as int && -(len_u as int)
            <= vel.linear.y as int <= len_u as int) by (nonlinear_arith)
            requires
                mag as int == (vel.linear.x as int) * (vel.linear.x as int) + (
                vel.linear.y as int) * (vel.linear.y as int),
                (mag as int) < ((len_u as int) + 1) * ((len_u as int) + 1),
                0 <= len_u as int,
        ;
    }
    proof {
        assert(len_u as int <= 2_000_000_000_000int) by (nonlinear_arith)
            requires
                is_isqrt(mag as int, len_u as int),
                mag as int <= 2_000_000_000_000_000_000_000_000int,
        ;
    }
    let len: i64 = len_u as i64;
    proof {
        assert(-(len as int) * (cfg.max_speed as int) <= (vel.linear.x as int) * (
        cfg.max_speed as int) <= (len as int) * (cfg.max_speed as int) && -(len as int) * (
        cfg.max_speed as int) <= (vel.linear.y as int) * (cfg.max_speed as int) <= (len as int)
            * (cfg.max_speed as int) && -((cfg.max_speed as int) * (len as int)) == -(len as int)
            * (cfg.max_speed as int) && (cfg.max_speed as int) * (len as int) == (len as int) * (
        cfg.max_speed as int) && (len as int) * (cfg.max_speed as int)
            <= 2_000_000_000_000_000_000_000_000int) by (nonlinear_arith)
            requires
                -(len as int) <= vel.linear.x as int <= len as int,
                -(len as int) <= vel.linear.y as int <= len as int,
                0 <= cfg.max_speed as int <= 1_000_000_000_000int,
                0 <= len as int <= 2_000_000_000_000int,
        ;
        lemma_tdiv_le(
            (vel.linear.x as int) * (cfg.max_speed as int),
            len as int,
            cfg.max_speed as int,
        );
        lemma_tdiv_le(
            (vel.linear.y as int) * (cfg.max_speed as int),
            len as int,
            cfg.max_speed as int,
        );
    }
    let nx: i64 = crate::fx::tdiv_i128(
        (vel.linear.x as i128) * (cfg.max_speed as i128),
        len as i128,
    ) as i64;
    let ny: i64 = crate::fx::tdiv_i128(
        (vel.linear.y as i128) * (cfg.max_speed as i128),
        len as i128,
    ) as i64;
    Body {
        rb: b.rb,
        velocity: Some(Velocity { linear: Vec2 { x: nx, y: ny }, angular: vel.angular }),
        forces: b.forces,
        mass: b.mass,
        collider: b.collider,
        material: b.material,
    }
}

/// The speed limiter pass: every body's linear speed capped at the
/// configured limit.
pub fn speed_limmit(cfg: &FishicsConfig, bodies: &mut Vec<Body>)
    requires
        cfg.wf(),
        bodies_wf(old(bodies)@),
    ensures
        final(bodies)@ == speed_limit_all_v(*cfg, old(bodies)@),
        bodies_wf(final(bodies)@),
{
    let n: usize = bodies.len();
    let mut i: usize = 0;
    while i < n
        invariant
            n == bodies@.len(),
            bodies@.len() == old(bodies)@.len(),
            cfg.wf(),
            0 <= i <= n,
            forall|j: int|
                0 <= j < i ==> bodies@[j] == speed_clamp_v(*cfg, #[trigger] old(bodies)@[j]),
            forall|j: int| i <= j < n ==> bodies@[j] == #[trigger] old(bodies)@[j],
            bodies_wf(bodies@),
        decreases n - i,
    {
        let b: Body = bodies[i];
        let nb: Body = speed_clamp(cfg, b);
        bodies.set(i, nb);
        i = i + 1;
    }
    proof {
        assert(bodies@ =~= speed_limit_all_v(*cfg, old(bodies)@));
    }
}

/// Static bodies are inert: through the four stages of a step — whatever
/// impulses were accumulated and whatever collisions occur — a body with
/// no mass component or a mass of zero keeps its position, rotation,
/// velocity and accumulator, under the classic strategy.  Iterating the
/// step therefore never moves it.  (An enabled speed limiter reads no
/// mass and would cap even an immovable body's stored velocity; with
/// `max_speed` zero the step ends at the resolution pass this lemma
/// covers.)
pub proof fn lemma_static_bodies_inert(
    resolver: crate::resolution::ClassicImpulseResolver,
    bodies: Seq<Body>,
    mats: Seq<PhysicsMaterial>,
    dt: int,
    idx: int,
)
    requires
        0 <= idx < bodies.len(),
        crate::impulse::body_static_v(bodies[idx]),
    ensures
        ({
            let b1 = integrate_all_v(bodies, dt);
            let msv = narrow_manifolds_v(b1, broad_pairs_v(b1));
            resolution_pass_v(resolver.tick_model(), b1, msv, mats).0[idx] == bodies[idx]
        }),
{
    let b1 = integrate_all_v(bodies, dt);
    assert(b1[idx] == bodies[idx]);
    let msv = narrow_manifolds_v(b1, broad_pairs_v(b1));
    crate::impulse::lemma_resolution_pass_static(resolver.tick_model(), b1, msv, mats, idx);
}

/// One full simulation step: integration, broad phase, narrow phase and
/// impulse resolution, strictly in that order, followed by the speed
/// limiter when a positive limit is configured.  The manifolds of the
/// step come back for a renderer or diagnostics to consume.
pub fn step<R: ImpulseResolver>(
    dt: i64,
    cfg: &FishicsConfig,
    resolver: &mut R,
    bodies: &mut Vec<Body>,
    materials: &Vec<PhysicsMaterial>,
) -> (ms: Manifolds)
    requires
        cfg.wf(),
        bodies_wf(old(bodies)@),
        materials_wf(materials@),
    ensures
        ({
            let b1 = integrate_all_v(old(bodies)@, dt as int);
            let msv = narrow_manifolds_v(b1, broad_pairs_v(b1));
            let after = resolution_pass_v(old(resolver).tick_model(), b1, msv, materials@);
            &&& ms.0@ == msv
            &&& *final(resolver) == after.1
            &&& final(bodies)@ == if cfg.max_speed > 0 {
                speed_limit_all_v(*cfg, after.0)
            } else {
                after.0
            }
        }),
        bodies_wf(final(bodies)@),
{
    integration(dt, bodies);
    proof {
        assert(bodies@ =~= integrate_all_v(old(bodies)@, dt as int));
    }
    let pairs: BroadPhasePairs = broad_phase(bodies);
    let manifolds: Manifolds = narrow_phase(bodies, &pairs);
    impulse_resolution(resolver, &manifolds, bodies, materials);
    if cfg.max_speed > 0 {
        speed_limmit(cfg, bodies);
    }
    manifolds
}

} // verus!
