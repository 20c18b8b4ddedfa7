//! The integrator: applies pending impulses and rotations, and normalizes
//! any skewed rotation back into the canonical range.
//!
//! Each dynamic body advances by symplectic Euler: the velocity is updated
//! from the accumulated impulse *before* the position is advanced from the
//! velocity — reversing those two steps would change the energy behavior
//! of the simulation.  A body without velocity, accumulator or mass, and
//! every static body (mass zero), is skipped whole, its accumulator left
//! untouched.

use vstd::prelude::*;
use vstd::pervasive::VecAdditionalExecFns;
use crate::fx::fx_wf;
use crate::fx::fx_mul_v;
use crate::fx::fx_mul;
use crate::vec2::Vec2;
use crate::components::RigidBody;
use crate::components::Velocity;
use crate::components::Forces;
use crate::components::mass_inv_v;
use crate::components::TURN;
use crate::pipeline::Body;
use crate::pipeline::bodies_wf;

verus! {

/// Whether the integrator advances a body: it must carry velocity,
/// accumulator and mass, and not be static.
pub open spec fn integrable_v(b: Body) -> bool {
    &&& b.velocity is Some
    &&& b.forces is Some
    &&& b.mass is Some
    &&& b.mass->Some_0.0 != 0
}

/// The velocity of an integrable body after one step: the accumulated
/// impulse, scaled by the inverse mass and the time delta, added to the
/// linear velocity.  A scale or sum that leaves the representable range
/// leaves the velocity unchanged instead.
pub open spec fn integrated_velocity_v(b: Body, dt: int) -> Velocity {
    let vel = b.velocity->Some_0;
    let acc = b.forces->Some_0;
    let im = mass_inv_v(b.mass->Some_0.0 as int);
    let t1x = fx_mul_v(acc.x as int, im);
    let t1y = fx_mul_v(acc.y as int, im);
    if fx_wf(t1x) && fx_wf(t1y) {
        let t2x = fx_mul_v(t1x, dt);
        let t2y = fx_mul_v(t1y, dt);
        if fx_wf(t2x) && fx_wf(t2y) {
            if fx_wf(vel.linear.x + t2x) && fx_wf(vel.linear.y + t2y) {
                Velocity {
                    linear: Vec2 {
                        x: (vel.linear.x + t2x) as i64,
                        y: (vel.linear.y + t2y) as i64,
                    },
                    angular: vel.angular,
                }
            } else {
                vel
            }
        } else {
            vel
        }
    } else {
        vel
    }
}

/// The position of an integrable body after one step: the *updated*
/// velocity, scaled by the time delta, added to the position.  A scale or
/// sum that leaves the representable range leaves the position unchanged
/// instead.
pub open spec fn integrated_position_v(b: Body, dt: int) -> Vec2 {
    let v1 = integrated_velocity_v(b, dt).linear;
    let dx = fx_mul_v(v1.x as int, dt);
    let dy = fx_mul_v(v1.y as int, dt);
    if fx_wf(dx) && fx_wf(dy) {
        if fx_wf(b.rb.position.x + dx) && fx_wf(b.rb.position.y + dy) {
            Vec2 { x: (b.rb.position.x + dx) as i64, y: (b.rb.position.y + dy) as i64 }
        } else {
            b.rb.position
        }
    } else {
        b.rb.position
    }
}

/// The rotation of an integrable body after one step: the angular velocity
/// scaled by the time delta is added, and the result is normalized into
/// the canonical range `[0, TURN)`.  An increment out of the representable
/// range leaves the rotation unchanged instead.
pub open spec fn integrated_rotation_v(b: Body, dt: int) -> int {
    let w = b.velocity->Some_0.angular;
    let dr = fx_mul_v(w as int, dt);
    if fx_wf(dr) {
        (b.rb.rotation + dr) % (TURN as int)
    } else {
        b.rb.rotation as int
    }
}

/// One body after the integrator has run on it.  An integrable body takes
/// the updated velocity, position and rotation, and its accumulator is
/// drained; any other body is left exactly as it was.
pub open spec fn integrate_body_v(b: Body, dt: int) -> Body {
    if integrable_v(b) {
        Body {
            rb: RigidBody {
                position: integrated_position_v(b, dt),
                rotation: integrated_rotation_v(b, dt) as i64,
            },
            velocity: Some(integrated_velocity_v(b, dt)),
            forces: Some(Forces { x: 0i64, y: 0i64 }),
            mass: b.mass,
            collider: b.collider,
            material: b.material,
        }
    } else {
        b
    }
}

/// Integration order: one step advances the position from the velocity
/// *after* the accumulated impulse has been applied — symplectic, not
/// explicit, Euler.  In particular a body starting at rest under an
/// impulse moves already in its first step.
pub proof fn lemma_integration_order(b: Body, dt: int)
    requires
        integrable_v(b),
    ensures
        ({
            let v1 = integrated_velocity_v(b, dt);
            let dx = fx_mul_v(v1.linear.x as int, dt);
            let dy = fx_mul_v(v1.linear.y as int, dt);
            (fx_wf(dx) && fx_wf(dy) && fx_wf(b.rb.position.x + dx) && fx_wf(
                b.rb.position.y + dy,
            )) ==> integrate_body_v(b, dt).rb.position == (Vec2 {
                x: (b.rb.position.x + dx) as i64,
                y: (b.rb.position.y + dy) as i64,
            })
        }),
{
}

/// The rotation value normalized into `[0, TURN)`.
fn normalize_rotation(s: i64) -> (r: i64)
    requires
        -0x7fffffffffffff00 <= s <= 0x7fffffffffffff00,
    ensures
        r as int == (s as int) % (TURN as int),
{
    let t: i64 = s % TURN;
    if t < 0 {
        t + TURN
    } else {
        t
    }
}

/// One body advanced by one step of symplectic Euler.
pub fn integrate_body(b: Body, dt: i64) -> (r: Body)
    requires
        b.wf(),
    ensures
        r == integrate_body_v(b, dt as int),
        r.wf(),
{
    match (b.velocity, b.forces, b.mass) {
        (Some(vel0), Some(acc0), Some(mass)) => {
            if mass.raw() == 0 {
                return b;
            }
            let mut vel: Velocity = vel0;
            let mut acc: Forces = acc0;
            let mut rb: RigidBody = b.rb;
            // Symplectic Euler: the velocity must move before the position.
            let impulse: Vec2 = acc.collect_impulse();
            let im: i64 = mass.inv();
            match impulse.scaled(im) {
                Some(t1) => match t1.scaled(dt) {
                    Some(t2) => {
                        vel.add_linear(t2);
                    },
                    None => {},
                },
                None => {},
            }
            match vel.linear.scaled(dt) {
                Some(d) => {
                    rb.translate(d);
                },
                None => {},
            }
            // Normalize the rotation.
            match fx_mul(vel.angular, dt) {
                Some(dr) => {
                    rb.rotation = normalize_rotation(rb.rotation + dr);
                },
                None => {},
            }
            Body {
                rb,
                velocity: Some(vel),
                forces: Some(acc),
                mass: b.mass,
                collider: b.collider,
                material: b.material,
            }
        },
        _ => b,
    }
}

/// The integrator pass: every body of the set advanced by one step, each
/// exactly as `integrate_body_v` describes.
pub fn integration(dt: i64, bodies: &mut Vec<Body>)
    requires
        bodies_wf(old(bodies)@),
    ensures
        final(bodies)@.len() == old(bodies)@.len(),
        forall|i: int|
            0 <= i < old(bodies)@.len() ==> final(bodies)@[i] == integrate_body_v(
                #[trigger] old(bodies)@[i],
                dt as int,
            ),
        bodies_wf(final(bodies)@),
{
    let n: usize = bodies.len();
    let mut i: usize = 0;
    while i < n
        invariant
            n == bodies@.len(),
            bodies@.len() == old(bodies)@.len(),
            0 <= i <= n,
            forall|j: int|
                0 <= j < i ==> bodies@[j] == integrate_body_v(
                    #[trigger] old(bodies)@[j],
                    dt as int,
                ),
            forall|j: int| i <= j < n ==> bodies@[j] == #[trigger] old(bodies)@[j],
            bodies_wf(bodies@),
        decreases n - i,
    {
        let b: Body = bodies[i];
        let nb: Body = integrate_body(b, dt);
        bodies.set(i, nb);
        i = i + 1;
    }
}

} // verus!
