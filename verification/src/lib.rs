//! A 2D rigid-body physics kernel on fixed-point coordinates.
//!
//! The kernel advances body motion under accumulated impulses, prunes and
//! detects collisions between simple convex shapes, and resolves detected
//! contacts into corrected velocities, one step at a time: integration,
//! broad phase, narrow phase, impulse resolution, in that order.  Every
//! scalar quantity is an `i64` count of `1/65536` of a unit, so each
//! stage's arithmetic is exact and its outcome is stated in full in the
//! function contracts; a value that would leave the representable range
//! is absorbed as "no effect this step", never wrapped and never failed.
//!
//! The host engine — entity storage, scheduling, rendering, editors — is
//! expected to hand the kernel a body array, a material table and a time
//! delta per step, and to read back the moved bodies and the step's
//! contact manifolds.

use vstd::prelude::*;

pub mod fx;
pub mod vec2;
pub mod shapes;
pub mod components;
pub mod pipeline;
pub mod integration;
pub mod broad;
pub mod narrow;
pub mod resolution;
pub mod impulse;
pub mod resources;
pub mod systems;

pub use components::AbstractShape;
pub use components::Collider;
pub use components::Forces;
pub use components::Inertia;
pub use components::Mass;
pub use components::PhysicsMaterial;
pub use components::RigidBody;
pub use components::Velocity;
pub use components::DEFAULT_LAYER;
pub use pipeline::Body;
pub use pipeline::BroadPhasePairs;
pub use pipeline::ImpulseObject;
pub use pipeline::ImpulseResult;
pub use pipeline::Manifold;
pub use pipeline::Manifolds;
pub use pipeline::generate_impulse_pair;
pub use shapes::Aabr;
pub use shapes::Circle;
pub use shapes::Collision;
pub use shapes::Line;
pub use shapes::ShapeWrapper;
pub use vec2::Vec2;
pub use integration::integration;
pub use broad::broad_phase;
pub use narrow::narrow_phase;
pub use impulse::impulse_resolution;
pub use resolution::ClassicImpulseResolver;
pub use resolution::ImpulseResolver;
pub use resolution::resolve_impulse;
pub use resources::FishicsConfig;
pub use systems::speed_limmit;
pub use systems::step;

verus! {

} // verus!
