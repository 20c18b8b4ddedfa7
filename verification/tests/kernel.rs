//! The simulation pipeline on concrete scenarios.
//! One unit is 65536 fixed-point steps.

use fishics::broad::broad_phase;
use fishics::fx::FX_ONE;
use fishics::impulse::impulse_resolution;
use fishics::integration::integration;
use fishics::narrow::narrow_phase;
use fishics::pipeline::{generate_impulse_pair, Body, Manifold};
use fishics::resolution::{resolve_impulse, ClassicImpulseResolver, ImpulseResolver};
use fishics::resources::FishicsConfig;
use fishics::systems::{speed_limmit, step};
use fishics::vec2::Vec2;
use fishics::{Collider, Forces, Mass, PhysicsMaterial, RigidBody, Velocity};

const ONE: i64 = FX_ONE;

fn dynamic_circle(x: i64, y: i64, radius: i64, mass: i64, vx: i64, vy: i64) -> Body {
    Body {
        rb: RigidBody {
            position: Vec2 { x, y },
            rotation: 0,
        },
        velocity: Some(Velocity {
            linear: Vec2 { x: vx, y: vy },
            angular: 0,
        }),
        forces: Some(Forces { x: 0, y: 0 }),
        mass: Some(Mass(mass)),
        collider: Some(Collider::circle(radius)),
        material: Some(0),
    }
}

fn linear_of(b: &Body) -> Vec2 {
    b.velocity.expect("body carries a velocity").linear
}

/// The kernel's own measure of a body's kinetic energy.
fn energy_of(b: &Body) -> i64 {
    let m = b.mass.map(|m| m.0).unwrap_or(0);
    fishics::resolution::kinetic(m, linear_of(b)).expect("energy in range")
}

#[test]
fn symplectic_first_step() {
    // a body at rest under a one-unit impulse moves already in its first
    // step: the position advances from the *updated* velocity
    let mut body = dynamic_circle(0, 0, ONE / 2, ONE, 0, 0);
    body.forces = Some(Forces { x: ONE, y: 0 });
    let mut bodies = vec![body];
    integration(ONE, &mut bodies);
    let v = linear_of(&bodies[0]);
    assert_eq!(v, Vec2 { x: ONE, y: 0 });
    assert_eq!(bodies[0].rb.position, Vec2 { x: ONE, y: 0 });
    // the accumulator is drained
    assert_eq!(bodies[0].forces, Some(Forces { x: 0, y: 0 }));
}

#[test]
fn integration_scales_with_dt() {
    let mut bodies = vec![dynamic_circle(0, 0, ONE / 2, ONE, 2 * ONE, -ONE)];
    integration(ONE / 4, &mut bodies);
    assert_eq!(bodies[0].rb.position, Vec2 { x: ONE / 2, y: -ONE / 4 });
}

#[test]
fn rotation_stays_canonical() {
    // three quarter-turns per step wrap around within [0, two turns)
    let mut body = dynamic_circle(0, 0, ONE / 2, ONE, 0, 0);
    body.velocity = Some(Velocity {
        linear: Vec2 { x: 0, y: 0 },
        angular: 3 * ONE / 2,
    });
    let mut bodies = vec![body];
    integration(ONE, &mut bodies);
    assert_eq!(bodies[0].rb.rotation, 3 * ONE / 2);
    integration(ONE, &mut bodies);
    assert_eq!(bodies[0].rb.rotation, ONE);
    integration(ONE, &mut bodies);
    assert_eq!(bodies[0].rb.rotation, ONE / 2);
}

#[test]
fn static_body_inert() {
    // a body of mass zero never moves, whatever is thrown at it
    let mut anvil = dynamic_circle(0, 0, ONE, 0, 0, 0);
    anvil.forces = Some(Forces { x: 10 * ONE, y: 10 * ONE });
    let hammer = dynamic_circle(3 * ONE / 2, 0, ONE, ONE, -2 * ONE, 0);
    let mut bodies = vec![anvil, hammer];
    let materials = vec![PhysicsMaterial::default()];
    let cfg = FishicsConfig::default();
    let mut resolver = ClassicImpulseResolver::default();
    for _ in 0..5 {
        step(ONE / 8, &cfg, &mut resolver, &mut bodies, &materials);
        assert_eq!(bodies[0].rb.position, Vec2 { x: 0, y: 0 });
        assert_eq!(bodies[0].rb.rotation, 0);
        assert_eq!(linear_of(&bodies[0]), Vec2 { x: 0, y: 0 });
    }
}

#[test]
fn layer_filtering() {
    // overlapping bodies on disjoint layers: no pair, no manifold
    let mut a = dynamic_circle(0, 0, ONE, ONE, ONE, 0);
    let mut b = dynamic_circle(ONE, 0, ONE, ONE, -ONE, 0);
    a.collider = Some(Collider::circle(ONE).with_layers(0b0000_0001));
    b.collider = Some(Collider::circle(ONE).with_layers(0b0000_0010));
    let bodies = vec![a, b];
    let pairs = broad_phase(&bodies);
    assert!(pairs.pairs.is_empty());
    let manifolds = narrow_phase(&bodies, &pairs);
    assert!(manifolds.iter().is_empty());
}

#[test]
fn broad_phase_pair_dedup() {
    // n mutually overlapping bodies on one layer: exactly n(n-1)/2 pairs,
    // in enumeration order, no duplicates, no self pairs
    let bodies = vec![
        dynamic_circle(0, 0, ONE, ONE, 0, 0),
        dynamic_circle(ONE / 2, 0, ONE, ONE, 0, 0),
        dynamic_circle(0, ONE / 2, ONE, ONE, 0, 0),
        dynamic_circle(ONE / 2, ONE / 2, ONE, ONE, 0, 0),
    ];
    let pairs = broad_phase(&bodies);
    assert_eq!(
        pairs.pairs,
        vec![(0, 1), (0, 2), (0, 3), (1, 2), (1, 3), (2, 3)]
    );
}

#[test]
fn separating_contact_unresolved() {
    // two circles still overlapping but moving apart keep their velocities
    let a = dynamic_circle(0, 0, ONE, ONE, -ONE, 0);
    let b = dynamic_circle(3 * ONE / 2, 0, ONE, ONE, ONE, 0);
    let bodies = vec![a, b];
    let materials = vec![PhysicsMaterial::default()];
    let pairs = broad_phase(&bodies);
    let manifolds = narrow_phase(&bodies, &pairs);
    assert_eq!(manifolds.iter().len(), 1);
    let mut bodies = bodies;
    let mut resolver = ClassicImpulseResolver::default();
    impulse_resolution(&mut resolver, &manifolds, &mut bodies, &materials);
    assert_eq!(linear_of(&bodies[0]), Vec2 { x: -ONE, y: 0 });
    assert_eq!(linear_of(&bodies[1]), Vec2 { x: ONE, y: 0 });
    // the manifold still counts as handled
    assert_eq!(resolver.collisions, 1);
    assert_eq!(resolver.ticks, 1);
}

#[test]
fn restitution_equal_mass_swap() {
    // two unit circles, equal masses, head on at speed two against a body
    // at rest, fully elastic: the velocities swap exactly
    let a = dynamic_circle(0, 0, ONE, ONE, 2 * ONE, 0);
    let b = dynamic_circle(3 * ONE / 2, 0, ONE, ONE, 0, 0);
    let mut bodies = vec![a, b];
    let materials = vec![PhysicsMaterial::new(FX_ONE)];
    let cfg = FishicsConfig::default();
    let mut resolver = ClassicImpulseResolver::default();
    step(0, &cfg, &mut resolver, &mut bodies, &materials);
    assert_eq!(linear_of(&bodies[0]), Vec2 { x: 0, y: 0 });
    assert_eq!(linear_of(&bodies[1]), Vec2 { x: 2 * ONE, y: 0 });
}

#[test]
fn energy_never_increases() {
    // whatever the contact, the pair's kinetic energy never grows
    let cases = vec![
        (PhysicsMaterial::new(FX_ONE), (2 * ONE, 0), (0, 0)),
        (PhysicsMaterial::default(), (3 * ONE, ONE / 2), (-ONE, ONE / 4)),
        (PhysicsMaterial::hard(), (ONE, -ONE / 3), (0, ONE / 7)),
    ];
    for (mat, va, vb) in cases {
        let a = dynamic_circle(0, 0, ONE, 3 * ONE / 2, va.0, va.1);
        let b = dynamic_circle(ONE, ONE / 2, ONE, ONE / 2, vb.0, vb.1);
        let mut bodies = vec![a, b];
        let before = energy_of(&bodies[0]) + energy_of(&bodies[1]);
        let materials = vec![mat];
        let cfg = FishicsConfig::default();
        let mut resolver = ClassicImpulseResolver::default();
        step(0, &cfg, &mut resolver, &mut bodies, &materials);
        let after = energy_of(&bodies[0]) + energy_of(&bodies[1]);
        assert!(after <= before, "energy grew: {} -> {}", before, after);
    }
}

#[test]
fn immovable_pair_absorbed() {
    // two overlapping bodies that are both immovable resolve to a no-op
    let a = dynamic_circle(0, 0, ONE, 0, ONE, 0);
    let b = dynamic_circle(ONE, 0, ONE, 0, -ONE, 0);
    let mut bodies = vec![a, b];
    let materials = vec![PhysicsMaterial::default()];
    let cfg = FishicsConfig::default();
    let mut resolver = ClassicImpulseResolver::default();
    step(0, &cfg, &mut resolver, &mut bodies, &materials);
    assert_eq!(linear_of(&bodies[0]), Vec2 { x: ONE, y: 0 });
    assert_eq!(linear_of(&bodies[1]), Vec2 { x: -ONE, y: 0 });
}

#[test]
fn missing_components_default() {
    // a body without velocity or mass reads as resting and immovable,
    // and a dangling material handle falls back to the default material
    let bare = Body {
        rb: RigidBody {
            position: Vec2 { x: 0, y: 0 },
            rotation: 0,
        },
        velocity: None,
        forces: None,
        mass: None,
        collider: Some(Collider::circle(ONE)),
        material: Some(42),
    };
    let bodies = vec![bare];
    let materials: Vec<PhysicsMaterial> = Vec::new();
    let manifold = Manifold {
        a: 0,
        b: 0,
        n: Vec2 { x: FX_ONE, y: 0 },
        p: 1,
        f: None,
        c: Vec2 { x: 0, y: 0 },
    };
    let (snap, _) = generate_impulse_pair(&bodies, &manifold, &materials);
    assert_eq!(snap.m, 0);
    assert_eq!(snap.i, 0);
    assert_eq!(snap.v, Vec2 { x: 0, y: 0 });
    assert_eq!(snap.cr, PhysicsMaterial::default().restitution);
}

#[test]
fn initial_force_gates_resolution() {
    // a manifold with non-positive initial force resolves to a no-op
    let a = dynamic_circle(0, 0, ONE, ONE, ONE, 0);
    let b = dynamic_circle(ONE, 0, ONE, ONE, -ONE, 0);
    let bodies = vec![a, b];
    let materials = vec![PhysicsMaterial::default()];
    let manifold = Manifold {
        a: 0,
        b: 1,
        n: Vec2 { x: -FX_ONE, y: 0 },
        p: ONE,
        f: Some(0),
        c: Vec2 { x: ONE / 2, y: 0 },
    };
    let (sa, sb) = generate_impulse_pair(&bodies, &manifold, &materials);
    let (ra, rb) = resolve_impulse(&manifold, &sa, &sb, ONE);
    assert_eq!(ra.v, sa.v);
    assert_eq!(rb.v, sb.v);
}

#[test]
fn speed_limit_clamps() {
    let mut cfg = FishicsConfig::default();
    cfg.set_speed_limmit(2 * ONE);
    assert_eq!(cfg.max_speed(), 2 * ONE);
    assert_eq!(cfg.max_speed_squared(), 4 * ONE);
    // a body at speed four along x is pulled back onto the limit
    let mut bodies = vec![dynamic_circle(0, 0, ONE, ONE, 4 * ONE, 0)];
    speed_limmit(&cfg, &mut bodies);
    assert_eq!(linear_of(&bodies[0]), Vec2 { x: 2 * ONE, y: 0 });
    // a body within the limit is left alone
    let mut slow = vec![dynamic_circle(0, 0, ONE, ONE, ONE, ONE)];
    speed_limmit(&cfg, &mut slow);
    assert_eq!(linear_of(&slow[0]), Vec2 { x: ONE, y: ONE });
}

#[test]
fn resolver_counters_tick() {
    let mut resolver = ClassicImpulseResolver::default();
    resolver.tick();
    resolver.tick();
    assert_eq!(resolver.ticks, 2);
    assert_eq!(resolver.collisions, 0);
}

#[test]
fn mass_inversion_guards_zero() {
    assert_eq!(Mass::new(0).inv(), 0);
    assert_eq!(Mass::new(ONE).inv(), ONE);
    assert_eq!(Mass::new(2 * ONE).inv(), ONE / 2);
    assert_eq!(Mass::default().raw(), 100 * ONE);
    assert_eq!(fishics::Inertia::new(0).inv(), 0);
}

#[test]
fn forces_accumulate_and_drain() {
    let mut f = Forces::default();
    f.add_impulse(Vec2 { x: ONE, y: 2 * ONE });
    f.add_impulse(Vec2 { x: ONE, y: -ONE });
    let out = f.collect_impulse();
    assert_eq!(out, Vec2 { x: 2 * ONE, y: ONE });
    assert_eq!(f.collect_impulse(), Vec2 { x: 0, y: 0 });
}

#[test]
fn manifold_force_defaults_to_zero() {
    let m = Manifold {
        a: 0,
        b: 1,
        n: Vec2 { x: FX_ONE, y: 0 },
        p: 1,
        f: None,
        c: Vec2 { x: 0, y: 0 },
    };
    assert_eq!(m.f(), 0);
    assert_eq!(m.with_initial_force(7).f(), 7);
}

#[test]
fn full_step_moves_and_collides() {
    // one moving and one resting circle: after enough steps the mover has
    // advanced and the pair has produced manifolds
    let a = dynamic_circle(-2 * ONE, 0, ONE / 2, ONE, ONE, 0);
    let b = dynamic_circle(0, 0, ONE / 2, ONE, 0, 0);
    let mut bodies = vec![a, b];
    let materials = vec![PhysicsMaterial::bouncy()];
    let cfg = FishicsConfig::default();
    let mut resolver = ClassicImpulseResolver::default();
    let mut contact_seen = false;
    for _ in 0..20 {
        let manifolds = step(ONE / 8, &cfg, &mut resolver, &mut bodies, &materials);
        if !manifolds.iter().is_empty() {
            contact_seen = true;
        }
    }
    assert!(contact_seen);
    assert_eq!(resolver.ticks, 20);
    assert!(bodies[0].rb.position.x > -2 * ONE);
}
