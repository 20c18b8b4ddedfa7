//! The resolution pass: hands each manifold of the step, with the two
//! body snapshots and the initial collision force attached, to the active
//! resolution strategy, and writes the velocities it reports back into
//! the body set, in manifold order.  Later manifolds therefore see the
//! velocities earlier ones produced.

use vstd::prelude::*;
use vstd::pervasive::VecAdditionalExecFns;
use crate::fx::fx_wf;
use crate::fx::fx_mul_v;
use crate::fx::isqrt;
use crate::fx::fx_mul;
use crate::fx::fx_add;
use crate::vec2::mag_sq_v;
use crate::components::Velocity;
use crate::components::PhysicsMaterial;
use crate::pipeline::Body;
use crate::pipeline::Manifold;
use crate::pipeline::Manifolds;
use crate::pipeline::ImpulseObject;
use crate::pipeline::ImpulseResult;
use crate::pipeline::bodies_wf;
use crate::pipeline::materials_wf;
use crate::pipeline::impulse_object_v;
use crate::pipeline::generate_impulse_pair;
use crate::resolution::ImpulseResolver;

verus! {

/// The initial force of a collision: each body's mass times its speed,
/// summed.  The resolver only acts on a manifold whose initial force is
/// positive; a value out of the representable range reads as zero, so
/// that the manifold resolves to a no-op.
pub open spec fn initial_force_v(a: ImpulseObject, b: ImpulseObject) -> int {
    let la = isqrt(mag_sq_v(a.v));
    let lb = isqrt(mag_sq_v(b.v));
    let fa = fx_mul_v(a.m as int, la);
    let fb = fx_mul_v(b.m as int, lb);
    if fx_wf(la) && fx_wf(lb) && fx_wf(fa) && fx_wf(fb) && fx_wf(fa + fb) {
        fa + fb
    } else {
        0
    }
}

/// The initial force of a collision between two snapshots.
pub fn initial_force(a: &ImpulseObject, b: &ImpulseObject) -> (r: i64)
    requires
        a.wf(),
        b.wf(),
    ensures
        r == initial_force_v(*a, *b),
        fx_wf(r as int),
{
    let la: i64 = match a.v.length_fx() {
        Some(l) => l,
        None => {
            return 0;
        },
    };
    let lb: i64 = match b.v.length_fx() {
        Some(l) => l,
        None => {
            return 0;
        },
    };
    match (fx_mul(a.m, la), fx_mul(b.m, lb)) {
        (Some(fa), Some(fb)) => match fx_add(fa, fb) {
            Some(f) => f,
            None => 0,
        },
        _ => 0,
    }
}

/// The body set after one resolution is written back: the body at `idx`
/// takes the reported linear and angular velocity, if it exists and
/// carries a velocity at all — a miss is absorbed, not failed.
pub open spec fn write_velocity_v(bodies: Seq<Body>, idx: int, res: ImpulseResult) -> Seq<Body> {
    if 0 <= idx < bodies.len() && bodies[idx].velocity is Some {
        bodies.update(
            idx,
            Body {
                rb: bodies[idx].rb,
                velocity: Some(Velocity { linear: res.v, angular: res.r }),
                forces: bodies[idx].forces,
                mass: bodies[idx].mass,
                collider: bodies[idx].collider,
                material: bodies[idx].material,
            },
        )
    } else {
        bodies
    }
}

/// The body set and strategy state after a resolution pass over a list
/// of manifolds, processed in order: each manifold reads the bodies as
/// the previous one left them.
pub open spec fn resolution_pass_v<R: ImpulseResolver>(
    resolver: R,
    bodies: Seq<Body>,
    ms: Seq<Manifold>,
    mats: Seq<PhysicsMaterial>,
) -> (Seq<Body>, R)
    decreases ms.len(),
{
    if ms.len() == 0 {
        (bodies, resolver)
    } else {
        let m = ms[0];
        let a = impulse_object_v(bodies, m.a as int, mats);
        let b = impulse_object_v(bodies, m.b as int, mats);
        let mf = Manifold {
            a: m.a,
            b: m.b,
            n: m.n,
            p: m.p,
            f: Some(initial_force_v(a, b) as i64),
            c: m.c,
        };
        let out = resolver.resolve_model(mf, a, b);
        let bodies2 = write_velocity_v(write_velocity_v(bodies, m.a as int, out.0), m.b as int, out.1);
        resolution_pass_v(out.2, bodies2, ms.drop_first(), mats)
    }
}

/// Whether a body is immovable: it has no mass component, or a mass of
/// zero.
pub open spec fn body_static_v(b: Body) -> bool {
    match b.mass {
        Some(m) => m.0 == 0,
        None => true,
    }
}

/// A whole resolution pass under the classic strategy leaves an immovable
/// body exactly as it found it, whatever the manifolds say.
pub proof fn lemma_resolution_pass_static(
    resolver: crate::resolution::ClassicImpulseResolver,
    bodies: Seq<Body>,
    ms: Seq<Manifold>,
    mats: Seq<PhysicsMaterial>,
    idx: int,
)
    requires
        0 <= idx < bodies.len(),
        body_static_v(bodies[idx]),
    ensures
        resolution_pass_v(resolver, bodies, ms, mats).0.len() == bodies.len(),
        resolution_pass_v(resolver, bodies, ms, mats).0[idx] == bodies[idx],
    decreases ms.len(),
{
    if ms.len() > 0 {
        let m = ms[0];
        let a = impulse_object_v(bodies, m.a as int, mats);
        let b = impulse_object_v(bodies, m.b as int, mats);
        let mf = Manifold {
            a: m.a,
            b: m.b,
            n: m.n,
            p: m.p,
            f: Some(initial_force_v(a, b) as i64),
            c: m.c,
        };
        crate::resolution::lemma_classic_resolve_static(mf, a, b);
        let out = resolver.resolve_model(mf, a, b);
        let bodies1 = write_velocity_v(bodies, m.a as int, out.0);
        let bodies2 = write_velocity_v(bodies1, m.b as int, out.1);
        if m.a as int == idx {
            assert(a.i == 0);
            assert(bodies1[idx] == bodies[idx]);
        }
        if m.b as int == idx {
            assert(b.i == 0);
            assert(bodies2[idx] == bodies1[idx]);
        }
        assert(bodies2[idx] == bodies[idx]);
        assert(body_static_v(bodies2[idx]));
        lemma_resolution_pass_static(out.2, bodies2, ms.drop_first(), mats, idx);
    }
}

fn write_velocity(bodies: &mut Vec<Body>, idx: usize, res: ImpulseResult)
    requires
        bodies_wf(old(bodies)@),
        res.v.wf(),
        fx_wf(res.r as int),
    ensures
        final(bodies)@ == write_velocity_v(old(bodies)@, idx as int, res),
        bodies_wf(final(bodies)@),
{
    if idx < bodies.len() {
        let mut bd: Body = bodies[idx];
        match bd.velocity {
            Some(_) => {
                bd.velocity = Some(Velocity { linear: res.v, angular: res.r });
                bodies.set(idx, bd);
                proof {
                    assert(bodies@ =~= write_velocity_v(old(bodies)@, idx as int, res));
                }
            },
            None => {},
        }
    }
}

/// The resolution pass: ticks the strategy once, then resolves each of
/// this step's manifolds in order and writes the reported velocities back
/// into the body set.
pub fn impulse_resolution<R: ImpulseResolver>(
    resolver: &mut R,
    manifolds: &Manifolds,
    bodies: &mut Vec<Body>,
    materials: &Vec<PhysicsMaterial>,
)
    requires
        bodies_wf(old(bodies)@),
        materials_wf(materials@),
        forall|k: int| 0 <= k < manifolds.0@.len() ==> (#[trigger] manifolds.0@[k]).wf(),
    ensures
        final(bodies)@ == resolution_pass_v(
            old(resolver).tick_model(),
            old(bodies)@,
            manifolds.0@,
            materials@,
        ).0,
        *final(resolver) == resolution_pass_v(
            old(resolver).tick_model(),
            old(bodies)@,
            manifolds.0@,
            materials@,
        ).1,
        bodies_wf(final(bodies)@),
{
    let ghost target = resolution_pass_v(
        old(resolver).tick_model(),
        old(bodies)@,
        manifolds.0@,
        materials@,
    );
    resolver.tick();
    let n: usize = manifolds.0.len();
    let mut k: usize = 0;
    proof {
        assert(manifolds.0@.subrange(0, n as int) =~= manifolds.0@);
    }
    while k < n
        invariant
            n == manifolds.0@.len(),
            0 <= k <= n,
            bodies_wf(bodies@),
            materials_wf(materials@),
            forall|j: int| 0 <= j < manifolds.0@.len() ==> (#[trigger] manifolds.0@[j]).wf(),
            resolution_pass_v(
                *resolver,
                bodies@,
                manifolds.0@.subrange(k as int, n as int),
                materials@,
            ) == target,
        decreases n - k,
    {
        let ghost suffix = manifolds.0@.subrange(k as int, n as int);
        let m: Manifold = manifolds.0[k];
        let pair: (ImpulseObject, ImpulseObject) = generate_impulse_pair(bodies, &m, materials);
        let f: i64 = initial_force(&pair.0, &pair.1);
        let mf: Manifold = m.with_initial_force(f);
        let out: (ImpulseResult, ImpulseResult) = resolver.resolve(mf, pair.0, pair.1);
        write_velocity(bodies, m.a, out.0);
        write_velocity(bodies, m.b, out.1);
        proof {
            assert(suffix[0] == m);
            assert(suffix.drop_first() =~= manifolds.0@.subrange(k as int + 1, n as int));
        }
        k = k + 1;
    }
}

} // verus!
