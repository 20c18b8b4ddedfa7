//! The per-step data the pipeline passes between its stages: the bodies
//! with their optional components, the broad-phase candidate pairs, the
//! contact manifolds, and the snapshots the impulse resolver consumes.
//!
//! Bodies are handled by index into one array, the kernel's stand-in for
//! the host's entity storage; materials are shared by index into a
//! material table.  A body may lack any component but its placement, and
//! every lookup that misses substitutes the documented default instead of
//! failing.

use vstd::prelude::*;
use crate::fx::FX_ONE;
use crate::fx::FX_MAX;
use crate::fx::fx_wf;
use crate::vec2::Vec2;
use crate::shapes::Collision;
use crate::shapes::collision_wf;
use crate::components::RigidBody;
use crate::components::Velocity;
use crate::components::Forces;
use crate::components::Mass;
use crate::components::Collider;
use crate::components::PhysicsMaterial;
use crate::components::mass_inv_v;

verus! {

/// One body as the pipeline sees it: a placement and the optional
/// components a host may or may not have attached to it.  `material` is an
/// index into the caller's material table.
#[derive(Clone, Copy, Debug, PartialEq, Eq, Structural)]
pub struct Body {
    pub rb: RigidBody,
    pub velocity: Option<Velocity>,
    pub forces: Option<Forces>,
    pub mass: Option<Mass>,
    pub collider: Option<Collider>,
    pub material: Option<usize>,
}

impl Body {
    pub open spec fn wf(self) -> bool {
        &&& self.rb.wf()
        &&& (self.velocity matches Some(v) ==> v.wf())
        &&& (self.forces matches Some(f) ==> f.wf())
        &&& (self.mass matches Some(m) ==> m.wf())
        &&& (self.collider matches Some(c) ==> c.wf())
    }

    /// A bare body at the given placement, with no other components.
    pub fn new(rb: RigidBody) -> (r: Body)
        ensures
            r == (Body {
                rb,
                velocity: None::<Velocity>,
                forces: None::<Forces>,
                mass: None::<Mass>,
                collider: None::<Collider>,
                material: None::<usize>,
            }),
    {
        Body { rb, velocity: None, forces: None, mass: None, collider: None, material: None }
    }
}

/// Every body of a set is well-formed.
pub open spec fn bodies_wf(bodies: Seq<Body>) -> bool {
    forall|i: int| 0 <= i < bodies.len() ==> (#[trigger] bodies[i]).wf()
}

/// Every material of a table is well-formed.
pub open spec fn materials_wf(materials: Seq<PhysicsMaterial>) -> bool {
    forall|i: int| 0 <= i < materials.len() ==> (#[trigger] materials[i]).wf()
}

/// The candidate pairs the broad phase hands to the narrow phase,
/// rebuilt from scratch every step.
#[derive(Clone, Debug)]
pub struct BroadPhasePairs {
    pub pairs: Vec<(usize, usize)>,
}

impl BroadPhasePairs {
    pub fn new() -> (r: BroadPhasePairs)
        ensures
            r.pairs@ == Seq::<(usize, usize)>::empty(),
    {
        BroadPhasePairs { pairs: Vec::new() }
    }
}

/// One detected collision between the bodies at indices `a` and `b`:
/// the unit contact normal `n` pointing from `b` toward `a`, the
/// penetration depth `p`, the contact point `c`, and the initial force
/// `f` the resolver attaches before resolving.
#[derive(Clone, Copy, Debug, PartialEq, Eq, Structural)]
pub struct Manifold {
    pub a: usize,
    pub b: usize,
    pub n: Vec2,
    pub p: i64,
    pub f: Option<i64>,
    pub c: Vec2,
}

/// The initial force attached to a manifold; zero while none is attached.
pub open spec fn manifold_force_v(m: Manifold) -> int {
    match m.f {
        Some(v) => v as int,
        None => 0,
    }
}

impl Manifold {
    /// The normal is unit-scaled, the penetration and point are in the
    /// derived ranges, and the attached force, if any, is representable.
    pub open spec fn wf(self) -> bool {
        &&& -FX_ONE <= self.n.x <= FX_ONE
        &&& -FX_ONE <= self.n.y <= FX_ONE
        &&& 0 <= self.p
        &&& (self.f matches Some(v) ==> fx_wf(v as int))
    }

    /// The manifold of a contact reported between the bodies at `a` and
    /// `b`.  The contact test already delivers a unit-scaled normal, which
    /// is taken as it is; no initial force is attached yet.
    pub fn new(a: usize, b: usize, collision: Collision) -> (r: Manifold)
        requires
            collision_wf(collision),
        ensures
            r == (Manifold {
                a,
                b,
                n: collision.normal,
                p: collision.penetration,
                f: None::<i64>,
                c: collision.point,
            }),
            r.wf(),
    {
        Manifold {
            a,
            b,
            n: collision.normal,
            p: collision.penetration,
            f: None,
            c: collision.point,
        }
    }

    /// The same manifold with the given initial force attached.
    pub fn with_initial_force(&self, f: i64) -> (r: Manifold)
        ensures
            r == (Manifold { a: self.a, b: self.b, n: self.n, p: self.p, f: Some(f), c: self.c }),
    {
        Manifold { a: self.a, b: self.b, n: self.n, p: self.p, f: Some(f), c: self.c }
    }

    /// The attached initial force, or zero while none is attached.
    pub fn f(&self) -> (r: i64)
        ensures
            r == manifold_force_v(*self),
    {
        match self.f {
            Some(v) => v,
            None => 0,
        }
    }
}

/// The manifolds of one step, rebuilt from scratch every step and never
/// matched across steps.
#[derive(Clone, Debug)]
pub struct Manifolds(pub Vec<Manifold>);

impl Manifolds {
    pub fn new() -> (r: Manifolds)
        ensures
            r.0@ == Seq::<Manifold>::empty(),
    {
        Manifolds(Vec::new())
    }

    /// Replaces the manifolds wholesale with this step's list.
    pub fn set(&mut self, manifolds: Vec<Manifold>)
        ensures
            final(self).0 == manifolds,
    {
        self.0 = manifolds;
    }

    /// All manifolds of the step, in detection order.
    pub fn iter(&self) -> (r: &Vec<Manifold>)
        ensures
            r == &self.0,
    {
        &self.0
    }
}

/// The snapshot of one body the resolver works from: mass `m`, inverse
/// mass `i`, velocity `v`, angular velocity `r`, center of mass `c`,
/// inverse moment of inertia `mi`, restitution `cr`, and the two friction
/// coefficients `sf` and `df` of the body's material.
#[derive(Clone, Copy, Debug, PartialEq, Eq, Structural)]
pub struct ImpulseObject {
    pub m: i64,
    pub i: i64,
    pub v: Vec2,
    pub r: i64,
    pub c: Vec2,
    pub mi: i64,
    pub cr: i64,
    pub sf: i64,
    pub df: i64,
}

impl ImpulseObject {
    pub open spec fn wf(self) -> bool {
        &&& 0 <= self.m <= FX_MAX
        &&& 0 <= self.i <= FX_ONE * FX_ONE
        &&& self.v.wf()
        &&& fx_wf(self.r as int)
        &&& self.c.wf()
        &&& 0 <= self.mi <= FX_ONE * FX_ONE
        &&& 0 <= self.cr <= FX_ONE
        &&& 0 <= self.sf <= FX_MAX
        &&& 0 <= self.df <= FX_MAX
    }
}

/// The outcome of a resolution for one body: its new linear and angular
/// velocity.
#[derive(Clone, Copy, Debug, PartialEq, Eq, Structural)]
pub struct ImpulseResult {
    pub v: Vec2,
    pub r: i64,
}

impl ImpulseResult {
    pub fn new(v: Vec2, r: i64) -> (res: ImpulseResult)
        ensures
            res == (ImpulseResult { v, r }),
    {
        ImpulseResult { v, r }
    }

    /// A pair of resolutions that stop both bodies dead.
    pub fn none() -> (res: (ImpulseResult, ImpulseResult))
        ensures
            res.0 == (ImpulseResult { v: Vec2 { x: 0i64, y: 0i64 }, r: 0i64 }),
            res.1 == (ImpulseResult { v: Vec2 { x: 0i64, y: 0i64 }, r: 0i64 }),
    {
        (
            ImpulseResult { v: Vec2 { x: 0, y: 0 }, r: 0 },
            ImpulseResult { v: Vec2 { x: 0, y: 0 }, r: 0 },
        )
    }
}

impl From<ImpulseObject> for ImpulseResult {
    /// The resolution that leaves a body's velocities as the snapshot
    /// holds them.
    fn from(o: ImpulseObject) -> (res: ImpulseResult) {
        ImpulseResult { v: o.v, r: o.r }
    }
}

impl vstd::std_specs::convert::FromSpecImpl<ImpulseObject> for ImpulseResult {
    open spec fn obeys_from_spec() -> bool {
        true
    }

    open spec fn from_spec(o: ImpulseObject) -> ImpulseResult {
        ImpulseResult { v: o.v, r: o.r }
    }
}

/// The restitution the default material falls back to.
pub const DEFAULT_RESTITUTION: i64 = 32768;

/// The snapshot taken of the body at `idx` for resolution.  A missing
/// velocity reads as rest, a missing mass as an immovable body, and a
/// missing or dangling material handle as the default material; an index
/// outside the body array reads as an immovable body at the origin.  The
/// inverse moment of inertia is carried as one, the angular response
/// being disabled in the default strategy.
pub open spec fn impulse_object_v(
    bodies: Seq<Body>,
    idx: int,
    materials: Seq<PhysicsMaterial>,
) -> ImpulseObject {
    if 0 <= idx < bodies.len() {
        let body = bodies[idx];
        let v = match body.velocity {
            Some(vel) => vel.linear,
            None => Vec2 { x: 0i64, y: 0i64 },
        };
        let r = match body.velocity {
            Some(vel) => vel.angular as int,
            None => 0int,
        };
        let m = match body.mass {
            Some(mass) => mass.0 as int,
            None => 0int,
        };
        let mat = material_of_v(body, materials);
        ImpulseObject {
            m: m as i64,
            i: mass_inv_v(m) as i64,
            v,
            r: r as i64,
            c: body.rb.position,
            mi: FX_ONE,
            cr: mat.restitution,
            sf: mat.static_friction,
            df: mat.dynamic_friction,
        }
    } else {
        ImpulseObject {
            m: 0i64,
            i: 0i64,
            v: Vec2 { x: 0i64, y: 0i64 },
            r: 0i64,
            c: Vec2 { x: 0i64, y: 0i64 },
            mi: FX_ONE,
            cr: DEFAULT_RESTITUTION,
            sf: crate::components::DEFAULT_STATIC_FRICTION,
            df: crate::components::DEFAULT_DYNAMIC_FRICTION,
        }
    }
}

/// The material of a body: the table entry its handle points at, or the
/// default material for a missing or dangling handle.
pub open spec fn material_of_v(body: Body, materials: Seq<PhysicsMaterial>) -> PhysicsMaterial {
    match body.material {
        Some(h) => if 0 <= h < materials.len() {
            materials[h as int]
        } else {
            PhysicsMaterial {
                restitution: DEFAULT_RESTITUTION,
                static_friction: crate::components::DEFAULT_STATIC_FRICTION,
                dynamic_friction: crate::components::DEFAULT_DYNAMIC_FRICTION,
            }
        },
        None => PhysicsMaterial {
            restitution: DEFAULT_RESTITUTION,
            static_friction: crate::components::DEFAULT_STATIC_FRICTION,
            dynamic_friction: crate::components::DEFAULT_DYNAMIC_FRICTION,
        },
    }
}

fn material_of(body: &Body, materials: &Vec<PhysicsMaterial>) -> (r: PhysicsMaterial)
    requires
        materials_wf(materials@),
    ensures
        r == material_of_v(*body, materials@),
        r.wf(),
{
    match body.material {
        Some(h) => {
            if h < materials.len() {
                materials[h]
            } else {
                PhysicsMaterial {
                    restitution: DEFAULT_RESTITUTION,
                    static_friction: crate::components::DEFAULT_STATIC_FRICTION,
                    dynamic_friction: crate::components::DEFAULT_DYNAMIC_FRICTION,
                }
            }
        },
        None => PhysicsMaterial {
            restitution: DEFAULT_RESTITUTION,
            static_friction: crate::components::DEFAULT_STATIC_FRICTION,
            dynamic_friction: crate::components::DEFAULT_DYNAMIC_FRICTION,
        },
    }
}

fn impulse_object(bodies: &Vec<Body>, idx: usize, materials: &Vec<PhysicsMaterial>) -> (r:
    ImpulseObject)
    requires
        bodies_wf(bodies@),
        materials_wf(materials@),
    ensures
        r == impulse_object_v(bodies@, idx as int, materials@),
        r.wf(),
{
    if idx < bodies.len() {
        let body: Body = bodies[idx];
        let v: Vec2 = match body.velocity {
            Some(vel) => vel.linear,
            None => Vec2 { x: 0, y: 0 },
        };
        let r: i64 = match body.velocity {
            Some(vel) => vel.angular,
            None => 0,
        };
        let m: Mass = match body.mass {
            Some(mass) => mass,
            None => Mass(0),
        };
        let mat: PhysicsMaterial = material_of(&body, materials);
        ImpulseObject {
            m: m.0,
            i: m.inv(),
            v,
            r,
            c: body.rb.position,
            mi: FX_ONE,
            cr: mat.restitution,
            sf: mat.static_friction,
            df: mat.dynamic_friction,
        }
    } else {
        ImpulseObject {
            m: 0,
            i: 0,
            v: Vec2 { x: 0, y: 0 },
            r: 0,
            c: Vec2 { x: 0, y: 0 },
            mi: FX_ONE,
            cr: DEFAULT_RESTITUTION,
            sf: crate::components::DEFAULT_STATIC_FRICTION,
            df: crate::components::DEFAULT_DYNAMIC_FRICTION,
        }
    }
}

/// The two resolver snapshots for a manifold's bodies.
pub fn generate_impulse_pair(
    bodies: &Vec<Body>,
    manifold: &Manifold,
    materials: &Vec<PhysicsMaterial>,
) -> (r: (ImpulseObject, ImpulseObject))
    requires
        bodies_wf(bodies@),
        materials_wf(materials@),
    ensures
        r.0 == impulse_object_v(bodies@, manifold.a as int, materials@),
        r.1 == impulse_object_v(bodies@, manifold.b as int, materials@),
        r.0.wf(),
        r.1.wf(),
{
    (impulse_object(bodies, manifold.a, materials), impulse_object(bodies, manifold.b, materials))
}

} // verus!
