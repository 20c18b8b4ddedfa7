//! Per-body kinematic and material state: position and rotation, velocity,
//! the impulse accumulator, mass, inertia, the physics material, and the
//! collider descriptor with its layer mask.

use vstd::prelude::*;
use crate::fx::FX_ONE;
use crate::fx::FX_MAX;
use crate::fx::fx_wf;
use crate::fx::fx_mul_v;
use crate::fx::fx_mul;
use crate::fx::fx_add;
use crate::vec2::Vec2;
use crate::shapes::Circle;
use crate::shapes::Aabr;
use crate::shapes::Line;
use crate::shapes::ShapeWrapper;
use crate::shapes::aabr_from_point_v;
use crate::shapes::shape_bounds_v;

verus! {

/// The layer bit every collider starts on.
pub const DEFAULT_LAYER: u8 = 0b0000_0001;

/// One full turn in rotation units: rotations live in `[0, TURN)`, where
/// a unit of `FX_ONE` is half a turn (pi radians).
pub const TURN: i64 = 131072;

/// Pi in fixed-point scale: the factor from rotation units to radians.
pub const FX_PI: i64 = 205887;

/// A shape descriptor in body-local space, without positional data.
#[derive(Clone, Copy, Debug, PartialEq, Eq, Structural)]
pub enum AbstractShape {
    Circle { radius: i64 },
    Aabr { width: i64, height: i64 },
    Line { start: Vec2, end: Vec2 },
}

/// The world-space shape of a descriptor placed at a body position.
pub open spec fn wrap_v(s: AbstractShape, position: Vec2) -> ShapeWrapper {
    match s {
        AbstractShape::Circle { radius } => ShapeWrapper::Circle(
            Circle { center: position, radius },
        ),
        AbstractShape::Aabr { width, height } => ShapeWrapper::Aabr(
            aabr_from_point_v(position, width as int, height as int),
        ),
        AbstractShape::Line { start, end } => ShapeWrapper::Line(
            Line {
                start: Vec2 { x: (position.x + start.x) as i64, y: (position.y + start.y) as i64 },
                end: Vec2 { x: (position.x + end.x) as i64, y: (position.y + end.y) as i64 },
            },
        ),
    }
}

impl AbstractShape {
    /// Extents are nonnegative stored scalars; line endpoints are stored
    /// offsets.
    pub open spec fn wf(self) -> bool {
        match self {
            AbstractShape::Circle { radius } => 0 <= radius <= FX_MAX,
            AbstractShape::Aabr { width, height } => 0 <= width <= FX_MAX && 0 <= height
                <= FX_MAX,
            AbstractShape::Line { start, end } => start.wf() && end.wf(),
        }
    }

    pub fn circle(radius: i64) -> (r: AbstractShape)
        ensures
            r == (AbstractShape::Circle { radius }),
    {
        AbstractShape::Circle { radius }
    }

    pub fn aabr(width: i64, height: i64) -> (r: AbstractShape)
        ensures
            r == (AbstractShape::Aabr { width, height }),
    {
        AbstractShape::Aabr { width, height }
    }

    pub fn line(start: Vec2, end: Vec2) -> (r: AbstractShape)
        ensures
            r == (AbstractShape::Line { start, end }),
    {
        AbstractShape::Line { start, end }
    }

    /// The descriptor placed at a body position, as a world-space shape.
    pub fn wrap(self, position: Vec2) -> (r: ShapeWrapper)
        requires
            self.wf(),
            position.wf(),
        ensures
            r == wrap_v(self, position),
            r.wf(),
    {
        match self {
            AbstractShape::Circle { radius } => ShapeWrapper::Circle(
                Circle { center: position, radius },
            ),
            AbstractShape::Aabr { width, height } => ShapeWrapper::Aabr(
                Aabr::from_point(position, width, height),
            ),
            AbstractShape::Line { start, end } => ShapeWrapper::Line(
                Line {
                    start: Vec2 { x: position.x + start.x, y: position.y + start.y },
                    end: Vec2 { x: position.x + end.x, y: position.y + end.y },
                },
            ),
        }
    }
}

/// A body's placement: the position of its center of mass in world space
/// and its rotation.  Rotation is kept in the canonical range `[0, TURN)`,
/// counted so that `FX_ONE` is half a turn; `applied_rotation` converts to
/// radians.
#[derive(Clone, Copy, Debug, PartialEq, Eq, Structural)]
pub struct RigidBody {
    pub position: Vec2,
    pub rotation: i64,
}

impl RigidBody {
    pub open spec fn wf(self) -> bool {
        self.position.wf() && 0 <= self.rotation < TURN
    }

    pub fn new(position: Vec2) -> (r: RigidBody)
        requires
            position.wf(),
        ensures
            r == (RigidBody { position, rotation: 0i64 }),
            r.wf(),
    {
        RigidBody { position, rotation: 0 }
    }

    pub fn with_rotation(self, rotation: i64) -> (r: RigidBody)
        requires
            0 <= rotation < TURN,
        ensures
            r == (RigidBody { position: self.position, rotation }),
    {
        RigidBody { position: self.position, rotation }
    }

    pub fn position(&self) -> (r: Vec2)
        ensures
            r == self.position,
    {
        self.position
    }

    pub fn set_position(&mut self, position: Vec2)
        requires
            position.wf(),
        ensures
            *final(self) == (RigidBody { position, rotation: old(self).rotation }),
    {
        self.position = position;
    }

    /// Moves the body by the given offset; an offset that would leave the
    /// representable range moves it not at all.
    pub fn translate(&mut self, translation: Vec2)
        ensures
            fx_wf(old(self).position.x + translation.x) && fx_wf(
                old(self).position.y + translation.y,
            ) ==> *final(self) == (RigidBody {
                position: Vec2 {
                    x: (old(self).position.x + translation.x) as i64,
                    y: (old(self).position.y + translation.y) as i64,
                },
                rotation: old(self).rotation,
            }),
            !(fx_wf(old(self).position.x + translation.x) && fx_wf(
                old(self).position.y + translation.y,
            )) ==> *final(self) == *old(self),
    {
        match self.position.plus(translation) {
            Some(p) => {
                self.position = p;
            },
            None => {},
        }
    }

    /// The rotation converted to radians in fixed-point scale.
    pub fn applied_rotation(&self) -> (r: i64)
        requires
            self.wf(),
        ensures
            r == fx_mul_v(self.rotation as int, FX_PI as int),
    {
        let p: i128 = (self.rotation as i128) * (FX_PI as i128) / (FX_ONE as i128);
        p as i64
    }
}

impl Default for RigidBody {
    /// A body resting at the origin.
    fn default() -> (r: RigidBody)
        ensures
            r == (RigidBody { position: Vec2 { x: 0i64, y: 0i64 }, rotation: 0i64 }),
    {
        RigidBody { position: Vec2 { x: 0, y: 0 }, rotation: 0 }
    }
}

/// A body's linear and angular velocity.  Mutated only by the integrator
/// (from accumulated impulses) and by the impulse resolver (from contacts).
#[derive(Clone, Copy, Debug, PartialEq, Eq, Structural)]
pub struct Velocity {
    pub linear: Vec2,
    pub angular: i64,
}

impl Velocity {
    pub open spec fn wf(self) -> bool {
        self.linear.wf() && fx_wf(self.angular as int)
    }

    pub fn new(linear: Vec2, angular: i64) -> (r: Velocity)
        ensures
            r == (Velocity { linear, angular }),
    {
        Velocity { linear, angular }
    }

    pub fn linear(&self) -> (r: Vec2)
        ensures
            r == self.linear,
    {
        self.linear
    }

    /// The squared speed in fixed-point scale; `None` reports a value out
    /// of range.
    pub fn linear_mag_squared(&self) -> (r: Option<i64>)
        ensures
            ({
                let m = fx_mul_v(self.linear.x as int, self.linear.x as int) + fx_mul_v(
                    self.linear.y as int,
                    self.linear.y as int,
                );
                (fx_wf(fx_mul_v(self.linear.x as int, self.linear.x as int)) && fx_wf(
                    fx_mul_v(self.linear.y as int, self.linear.y as int),
                ) && fx_wf(m)) ==> r == Some(m as i64)
            }),
            !({
                let m = fx_mul_v(self.linear.x as int, self.linear.x as int) + fx_mul_v(
                    self.linear.y as int,
                    self.linear.y as int,
                );
                fx_wf(fx_mul_v(self.linear.x as int, self.linear.x as int)) && fx_wf(
                    fx_mul_v(self.linear.y as int, self.linear.y as int),
                ) && fx_wf(m)
            }) ==> r is None,
    {
        match (fx_mul(self.linear.x, self.linear.x), fx_mul(self.linear.y, self.linear.y)) {
            (Some(mx), Some(my)) => fx_add(mx, my),
            _ => None,
        }
    }

    pub fn set_linear(&mut self, linear: Vec2)
        ensures
            *final(self) == (Velocity { linear, angular: old(self).angular }),
    {
        self.linear = linear;
    }

    /// Adds to the linear velocity; a sum that would leave the
    /// representable range changes nothing.
    pub fn add_linear(&mut self, linear: Vec2)
        ensures
            fx_wf(old(self).linear.x + linear.x) && fx_wf(old(self).linear.y + linear.y)
                ==> *final(self) == (Velocity {
                linear: Vec2 {
                    x: (old(self).linear.x + linear.x) as i64,
                    y: (old(self).linear.y + linear.y) as i64,
                },
                angular: old(self).angular,
            }),
            !(fx_wf(old(self).linear.x + linear.x) && fx_wf(old(self).linear.y + linear.y))
                ==> *final(self) == *old(self),
    {
        match self.linear.plus(linear) {
            Some(v) => {
                self.linear = v;
            },
            None => {},
        }
    }

    /// Subtracts from the linear velocity; a difference that would leave
    /// the representable range changes nothing.
    pub fn sub_linear(&mut self, linear: Vec2)
        ensures
            fx_wf(old(self).linear.x - linear.x) && fx_wf(old(self).linear.y - linear.y)
                ==> *final(self) == (Velocity {
                linear: Vec2 {
                    x: (old(self).linear.x - linear.x) as i64,
                    y: (old(self).linear.y - linear.y) as i64,
                },
                angular: old(self).angular,
            }),
            !(fx_wf(old(self).linear.x - linear.x) && fx_wf(old(self).linear.y - linear.y))
                ==> *final(self) == *old(self),
    {
        match self.linear.minus(linear) {
            Some(v) => {
                self.linear = v;
            },
            None => {},
        }
    }

    pub fn angular(&self) -> (r: i64)
        ensures
            r == self.angular,
    {
        self.angular
    }

    pub fn set_angular(&mut self, angular: i64)
        ensures
            *final(self) == (Velocity { linear: old(self).linear, angular }),
    {
        self.angular = angular;
    }
}

impl Default for Velocity {
    /// A body at rest.
    fn default() -> (r: Velocity)
        ensures
            r == (Velocity { linear: Vec2 { x: 0i64, y: 0i64 }, angular: 0i64 }),
    {
        Velocity { linear: Vec2 { x: 0, y: 0 }, angular: 0 }
    }
}

/// The per-body impulse accumulator, drained once per step by the
/// integrator.
#[derive(Clone, Copy, Debug, PartialEq, Eq, Structural)]
pub struct Forces {
    pub x: i64,
    pub y: i64,
}

impl Forces {
    pub open spec fn wf(self) -> bool {
        fx_wf(self.x as int) && fx_wf(self.y as int)
    }

    /// Adds an impulse to the accumulator; a sum that would leave the
    /// representable range changes nothing.
    pub fn add_impulse(&mut self, impulse: Vec2)
        ensures
            fx_wf(old(self).x + impulse.x) && fx_wf(old(self).y + impulse.y) ==> *final(self)
                == (Forces {
                x: (old(self).x + impulse.x) as i64,
                y: (old(self).y + impulse.y) as i64,
            }),
            !(fx_wf(old(self).x + impulse.x) && fx_wf(old(self).y + impulse.y)) ==> *final(self)
                == *old(self),
    {
        match (fx_add(self.x, impulse.x), fx_add(self.y, impulse.y)) {
            (Some(x), Some(y)) => {
                self.x = x;
                self.y = y;
            },
            _ => {},
        }
    }

    /// Hands the accumulated impulse out and leaves the accumulator empty.
    pub fn collect_impulse(&mut self) -> (r: Vec2)
        ensures
            r == (Vec2 { x: old(self).x, y: old(self).y }),
            *final(self) == (Forces { x: 0i64, y: 0i64 }),
    {
        let impulse: Vec2 = Vec2 { x: self.x, y: self.y };
        self.x = 0;
        self.y = 0;
        impulse
    }
}

impl Default for Forces {
    /// An empty accumulator.
    fn default() -> (r: Forces)
        ensures
            r == (Forces { x: 0i64, y: 0i64 }),
    {
        Forces { x: 0, y: 0 }
    }
}

/// The inverse of a nonzero mass in fixed-point scale; a zero mass encodes
/// an immovable body and inverts to zero rather than dividing by zero.
pub open spec fn mass_inv_v(m: int) -> int {
    if m == 0 {
        0
    } else {
        ((FX_ONE as int) * (FX_ONE as int)) / m
    }
}

/// The mass of a body.  A mass of zero encodes an immovable (static) body:
/// the integrator skips it and its inverse is taken as zero.
#[derive(Clone, Copy, Debug, PartialEq, Eq, Structural)]
pub struct Mass(pub i64);

impl Mass {
    pub open spec fn wf(self) -> bool {
        0 <= self.0 <= FX_MAX
    }

    pub fn new(mass: i64) -> (r: Mass)
        requires
            0 <= mass <= FX_MAX,
        ensures
            r == Mass(mass),
            r.wf(),
    {
        Mass(mass)
    }

    /// The inverse mass; zero for an immovable body.
    pub fn inv(self) -> (r: i64)
        requires
            self.wf(),
        ensures
            r == mass_inv_v(self.0 as int),
            0 <= r <= FX_ONE * FX_ONE,
    {
        if self.0 == 0 {
            0
        } else {
            proof {
                crate::fx::lemma_tdiv_le(
                    (FX_ONE as int) * (FX_ONE as int),
                    self.0 as int,
                    (FX_ONE as int) * (FX_ONE as int),
                );
            }
            let p: i128 = (FX_ONE as i128) * (FX_ONE as i128);
            (p / (self.0 as i128)) as i64
        }
    }

    pub fn raw(self) -> (r: i64)
        ensures
            r == self.0,
    {
        self.0
    }
}

impl Default for Mass {
    /// One hundred units of mass.
    fn default() -> (r: Mass)
        ensures
            r == Mass(6553600i64),
    {
        Mass(6553600)
    }
}

/// The scalar moment of inertia of a body, inverted the same guarded way
/// as mass for angular response.
#[derive(Clone, Copy, Debug, PartialEq, Eq, Structural)]
pub struct Inertia(pub i64);

impl Inertia {
    pub open spec fn wf(self) -> bool {
        0 <= self.0 <= FX_MAX
    }

    pub fn new(inertia: i64) -> (r: Inertia)
        requires
            0 <= inertia <= FX_MAX,
        ensures
            r == Inertia(inertia),
    {
        Inertia(inertia)
    }

    /// The inverse moment of inertia; zero inertia inverts to zero rather
    /// than dividing by zero.
    pub fn inv(&self) -> (r: i64)
        requires
            self.wf(),
        ensures
            r == mass_inv_v(self.0 as int),
    {
        if self.0 == 0 {
            0
        } else {
            proof {
                crate::fx::lemma_tdiv_le(
                    (FX_ONE as int) * (FX_ONE as int),
                    self.0 as int,
                    (FX_ONE as int) * (FX_ONE as int),
                );
            }
            let p: i128 = (FX_ONE as i128) * (FX_ONE as i128);
            (p / (self.0 as i128)) as i64
        }
    }
}

impl Default for Inertia {
    /// No rotational inertia: angular response treats the body as fixed.
    fn default() -> (r: Inertia)
        ensures
            r == Inertia(0i64),
    {
        Inertia(0)
    }
}

/// Surface properties of a body: restitution (bounciness) in `[0, 1]` and
/// the two friction coefficients.  Materials are shared by handle; a body
/// without a valid handle falls back to the default material.
#[derive(Clone, Copy, Debug, PartialEq, Eq, Structural)]
pub struct PhysicsMaterial {
    pub restitution: i64,
    pub static_friction: i64,
    pub dynamic_friction: i64,
}

/// The moderate static friction a material starts with.
pub const DEFAULT_STATIC_FRICTION: i64 = 39322;

/// The moderate dynamic friction a material starts with.
pub const DEFAULT_DYNAMIC_FRICTION: i64 = 26214;

impl PhysicsMaterial {
    pub open spec fn wf(self) -> bool {
        &&& 0 <= self.restitution <= FX_ONE
        &&& 0 <= self.static_friction <= FX_MAX
        &&& 0 <= self.dynamic_friction <= FX_MAX
    }

    /// A material of the given restitution with moderate friction.
    pub fn new(restitution: i64) -> (r: PhysicsMaterial)
        requires
            0 <= restitution <= FX_ONE,
        ensures
            r == (PhysicsMaterial {
                restitution,
                static_friction: DEFAULT_STATIC_FRICTION,
                dynamic_friction: DEFAULT_DYNAMIC_FRICTION,
            }),
            r.wf(),
    {
        PhysicsMaterial {
            restitution,
            static_friction: DEFAULT_STATIC_FRICTION,
            dynamic_friction: DEFAULT_DYNAMIC_FRICTION,
        }
    }

    /// The same material with the given friction coefficients.
    pub fn with_friction(self, static_friction: i64, dynamic_friction: i64) -> (r:
        PhysicsMaterial)
        requires
            0 <= static_friction <= FX_MAX,
            0 <= dynamic_friction <= FX_MAX,
        ensures
            r == (PhysicsMaterial {
                restitution: self.restitution,
                static_friction,
                dynamic_friction,
            }),
    {
        PhysicsMaterial { restitution: self.restitution, static_friction, dynamic_friction }
    }

    /// A very bouncy material.
    pub fn bouncy() -> (r: PhysicsMaterial)
        ensures
            r.restitution == 52429,
            r.wf(),
    {
        PhysicsMaterial::new(52429)
    }

    /// A hard, barely bouncy material.
    pub fn hard() -> (r: PhysicsMaterial)
        ensures
            r.restitution == 6554,
            r.wf(),
    {
        PhysicsMaterial::new(6554)
    }
}

impl Default for PhysicsMaterial {
    /// The documented fallback material: restitution one half, moderate
    /// friction.
    fn default() -> (r: PhysicsMaterial)
        ensures
            r == (PhysicsMaterial {
                restitution: 32768i64,
                static_friction: DEFAULT_STATIC_FRICTION,
                dynamic_friction: DEFAULT_DYNAMIC_FRICTION,
            }),
            r.wf(),
    {
        PhysicsMaterial {
            restitution: 32768,
            static_friction: DEFAULT_STATIC_FRICTION,
            dynamic_friction: DEFAULT_DYNAMIC_FRICTION,
        }
    }
}

/// A body's collision descriptor: a local-space shape and the 8-bit layer
/// mask.  Two colliders can meet only when their masks share a bit.
#[derive(Clone, Copy, Debug, PartialEq, Eq, Structural)]
pub struct Collider {
    pub shape: AbstractShape,
    pub layer: u8,
}

impl Collider {
    pub open spec fn wf(self) -> bool {
        self.shape.wf()
    }

    /// A square collider on the default layer.
    pub fn square(size: i64) -> (r: Collider)
        requires
            0 <= size <= FX_MAX,
        ensures
            r == (Collider {
                shape: AbstractShape::Aabr { width: size, height: size },
                layer: DEFAULT_LAYER,
            }),
            r.wf(),
    {
        Collider { shape: AbstractShape::Aabr { width: size, height: size }, layer: DEFAULT_LAYER }
    }

    /// A rectangular collider on the default layer.
    pub fn rect(width: i64, height: i64) -> (r: Collider)
        requires
            0 <= width <= FX_MAX,
            0 <= height <= FX_MAX,
        ensures
            r == (Collider {
                shape: AbstractShape::Aabr { width, height },
                layer: DEFAULT_LAYER,
            }),
            r.wf(),
    {
        Collider { shape: AbstractShape::Aabr { width, height }, layer: DEFAULT_LAYER }
    }

    /// A circular collider on the default layer.
    pub fn circle(radius: i64) -> (r: Collider)
        requires
            0 <= radius <= FX_MAX,
        ensures
            r == (Collider { shape: AbstractShape::Circle { radius }, layer: DEFAULT_LAYER }),
            r.wf(),
    {
        Collider { shape: AbstractShape::Circle { radius }, layer: DEFAULT_LAYER }
    }

    /// A line-segment collider on the default layer.
    pub fn line(start: Vec2, end: Vec2) -> (r: Collider)
        requires
            start.wf(),
            end.wf(),
        ensures
            r == (Collider { shape: AbstractShape::Line { start, end }, layer: DEFAULT_LAYER }),
            r.wf(),
    {
        Collider { shape: AbstractShape::Line { start, end }, layer: DEFAULT_LAYER }
    }

    /// The same collider moved onto the given layers.
    pub fn with_layers(self, layers: u8) -> (r: Collider)
        ensures
            r == (Collider { shape: self.shape, layer: layers }),
    {
        Collider { shape: self.shape, layer: layers }
    }

    /// The world-space bounding box of the collider on a body.
    pub fn global_aabr(&self, rb: &RigidBody) -> (r: Aabr)
        requires
            self.wf(),
            rb.wf(),
        ensures
            r == shape_bounds_v(wrap_v(self.shape, rb.position)),
            r.wf(),
    {
        let shape: ShapeWrapper = self.shape.wrap(rb.position);
        shape.bounding_rect()
    }

    /// The collider resolved into a world-space shape on a body.
    pub fn as_shape(&self, rb: &RigidBody) -> (r: ShapeWrapper)
        requires
            self.wf(),
            rb.wf(),
        ensures
            r == wrap_v(self.shape, rb.position),
            r.wf(),
    {
        self.shape.wrap(rb.position)
    }
}

/// The descriptor a world-space shape came from, its positional data
/// stripped: a rectangle keeps its extents, a line keeps its endpoints as
/// they stand.
pub open spec fn unwrap_shape_v(s: ShapeWrapper) -> AbstractShape {
    match s {
        ShapeWrapper::Circle(c) => AbstractShape::Circle { radius: c.radius },
        ShapeWrapper::Aabr(a) => AbstractShape::Aabr {
            width: (a.max.x - a.min.x) as i64,
            height: (a.max.y - a.min.y) as i64,
        },
        ShapeWrapper::Line(l) => AbstractShape::Line { start: l.start, end: l.end },
    }
}

impl From<ShapeWrapper> for AbstractShape {
    /// Strips the positional data off a world-space shape.
    fn from(s: ShapeWrapper) -> (r: AbstractShape) {
        match s {
            ShapeWrapper::Circle(c) => AbstractShape::Circle { radius: c.radius },
            ShapeWrapper::Aabr(a) => AbstractShape::Aabr {
                width: #[verifier::truncate] (((a.max.x as i128) - (a.min.x as i128)) as i64),
                height: #[verifier::truncate] (((a.max.y as i128) - (a.min.y as i128)) as i64),
            },
            ShapeWrapper::Line(l) => AbstractShape::Line { start: l.start, end: l.end },
        }
    }
}

impl vstd::std_specs::convert::FromSpecImpl<ShapeWrapper> for AbstractShape {
    open spec fn obeys_from_spec() -> bool {
        true
    }

    open spec fn from_spec(s: ShapeWrapper) -> AbstractShape {
        unwrap_shape_v(s)
    }
}

impl Default for Collider {
    /// A circle of radius one half on the default layer.
    fn default() -> (r: Collider)
        ensures
            r == (Collider {
                shape: AbstractShape::Circle { radius: 32768i64 },
                layer: DEFAULT_LAYER,
            }),
            r.wf(),
    {
        Collider { shape: AbstractShape::Circle { radius: 32768 }, layer: DEFAULT_LAYER }
    }
}

} // verus!
