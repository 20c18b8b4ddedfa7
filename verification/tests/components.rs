//! Component state: placements, shapes on bodies, materials and the
//! configuration, on concrete values.  One unit is 65536 fixed-point
//! steps.

use fishics::components::{FX_PI, TURN};
use fishics::fx::FX_ONE;
use fishics::shapes::{Aabr, ShapeWrapper};
use fishics::vec2::Vec2;
use fishics::{
    AbstractShape, Collider, FishicsConfig, PhysicsMaterial, RigidBody, Velocity, DEFAULT_LAYER,
};

const ONE: i64 = FX_ONE;

#[test]
fn rigid_body_moves_and_rotates() {
    let mut rb = RigidBody::new(Vec2 { x: ONE, y: 0 });
    assert_eq!(rb.position(), Vec2 { x: ONE, y: 0 });
    assert_eq!(rb.rotation, 0);
    rb.translate(Vec2 { x: -ONE, y: 2 * ONE });
    assert_eq!(rb.position(), Vec2 { x: 0, y: 2 * ONE });
    rb.set_position(Vec2 { x: 3, y: 4 });
    assert_eq!(rb.position, Vec2 { x: 3, y: 4 });
    // half a turn reads as pi radians
    let turned = RigidBody::new(Vec2 { x: 0, y: 0 }).with_rotation(TURN / 2);
    assert_eq!(turned.applied_rotation(), FX_PI);
}

#[test]
fn velocity_arithmetic() {
    let mut v = Velocity::default();
    assert_eq!(v.linear(), Vec2 { x: 0, y: 0 });
    v.add_linear(Vec2 { x: ONE, y: ONE });
    v.sub_linear(Vec2 { x: 0, y: 3 * ONE });
    assert_eq!(v.linear(), Vec2 { x: ONE, y: -2 * ONE });
    v.set_angular(7);
    assert_eq!(v.angular(), 7);
    // speed squared of (1, -2) is 5 square units
    assert_eq!(v.linear_mag_squared(), Some(5 * ONE));
}

#[test]
fn collider_constructors() {
    let sq = Collider::square(2 * ONE);
    assert_eq!(
        sq.shape,
        AbstractShape::Aabr {
            width: 2 * ONE,
            height: 2 * ONE
        }
    );
    assert_eq!(sq.layer, DEFAULT_LAYER);
    let c = Collider::circle(ONE).with_layers(0b0000_0110);
    assert_eq!(c.layer, 0b0000_0110);
    let r = Collider::rect(ONE, 2 * ONE);
    assert_eq!(
        r.shape,
        AbstractShape::Aabr {
            width: ONE,
            height: 2 * ONE
        }
    );
    let l = Collider::line(Vec2 { x: 0, y: 0 }, Vec2 { x: ONE, y: 0 });
    assert!(matches!(l.shape, AbstractShape::Line { .. }));
}

#[test]
fn collider_world_placement() {
    let rb = RigidBody::new(Vec2 { x: ONE, y: ONE });
    let c = Collider::circle(ONE / 2);
    let bounds = c.global_aabr(&rb);
    assert_eq!(bounds.min, Vec2 { x: ONE / 2, y: ONE / 2 });
    assert_eq!(bounds.max, Vec2 { x: 3 * ONE / 2, y: 3 * ONE / 2 });
    match c.as_shape(&rb) {
        ShapeWrapper::Circle(circle) => {
            assert_eq!(circle.center, Vec2 { x: ONE, y: ONE });
            assert_eq!(circle.radius, ONE / 2);
        }
        _ => panic!("a circular collider resolves to a circle"),
    }
    // a rectangle is centered on the body
    let boxed = Collider::rect(2 * ONE, ONE);
    let bb: Aabr = boxed.global_aabr(&rb);
    assert_eq!(bb.min, Vec2 { x: 0, y: ONE / 2 });
    assert_eq!(bb.max, Vec2 { x: 2 * ONE, y: 3 * ONE / 2 });
}

#[test]
fn abstract_shape_wrap_offsets_lines() {
    let line = AbstractShape::line(Vec2 { x: 0, y: 0 }, Vec2 { x: ONE, y: ONE });
    match line.wrap(Vec2 { x: ONE, y: 0 }) {
        ShapeWrapper::Line(l) => {
            assert_eq!(l.start, Vec2 { x: ONE, y: 0 });
            assert_eq!(l.end, Vec2 { x: 2 * ONE, y: ONE });
        }
        _ => panic!("a line descriptor wraps to a line"),
    }
}

#[test]
fn material_palette() {
    let default = PhysicsMaterial::default();
    assert_eq!(default.restitution, ONE / 2);
    assert!(PhysicsMaterial::bouncy().restitution > default.restitution);
    assert!(PhysicsMaterial::hard().restitution < default.restitution);
    let custom = PhysicsMaterial::new(ONE / 4).with_friction(ONE, ONE / 2);
    assert_eq!(custom.restitution, ONE / 4);
    assert_eq!(custom.static_friction, ONE);
    assert_eq!(custom.dynamic_friction, ONE / 2);
}

#[test]
fn config_speed_limit_consistency() {
    let mut cfg = FishicsConfig::default();
    assert_eq!(cfg.max_speed(), 0);
    assert_eq!(cfg.max_speed_squared(), 0);
    cfg.set_speed_limmit(3 * ONE);
    assert_eq!(cfg.max_speed(), 3 * ONE);
    assert_eq!(cfg.max_speed_squared(), 9 * ONE);
    // a negative limit is refused and changes nothing
    cfg.set_speed_limmit(-ONE);
    assert_eq!(cfg.max_speed(), 3 * ONE);
}
