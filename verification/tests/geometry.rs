//! Shape geometry and fixed-point arithmetic, on concrete values.
//! One unit is 65536 fixed-point steps.

use fishics::fx::{fx_add, fx_div, fx_mul, sqrt_u128, FX_MAX, FX_ONE};
use fishics::shapes::{Aabr, Circle, Line, ShapeWrapper};
use fishics::vec2::Vec2;

const ONE: i64 = FX_ONE;

fn circle_at(x: i64, y: i64, r: i64) -> ShapeWrapper {
    ShapeWrapper::Circle(Circle {
        center: Vec2 { x, y },
        radius: r,
    })
}

fn aabr(minx: i64, miny: i64, maxx: i64, maxy: i64) -> ShapeWrapper {
    ShapeWrapper::Aabr(Aabr {
        min: Vec2 { x: minx, y: miny },
        max: Vec2 { x: maxx, y: maxy },
    })
}

#[test]
fn fx_mul_exact() {
    assert_eq!(fx_mul(ONE, ONE), Some(ONE));
    assert_eq!(fx_mul(2 * ONE, 3 * ONE), Some(6 * ONE));
    assert_eq!(fx_mul(-2 * ONE, 3 * ONE), Some(-6 * ONE));
    assert_eq!(fx_mul(ONE / 2, ONE / 2), Some(ONE / 4));
    // a result beyond the representable range is reported, not wrapped
    assert_eq!(fx_mul(FX_MAX, FX_MAX), None);
}

#[test]
fn fx_div_guards_zero() {
    assert_eq!(fx_div(6 * ONE, 3 * ONE), Some(2 * ONE));
    assert_eq!(fx_div(ONE, 0), None);
    assert_eq!(fx_div(ONE, -ONE), None);
    assert_eq!(fx_add(FX_MAX, 1), None);
}

#[test]
fn integer_square_roots() {
    assert_eq!(sqrt_u128(0), 0);
    assert_eq!(sqrt_u128(1), 1);
    assert_eq!(sqrt_u128(3), 1);
    assert_eq!(sqrt_u128(4), 2);
    assert_eq!(sqrt_u128(99), 9);
    assert_eq!(sqrt_u128(1 << 64), 1 << 32);
    assert_eq!(sqrt_u128(u128::MAX), (1 << 64) - 1);
}

#[test]
fn circle_circle_head_on() {
    // radius-one circles, centers one and a half units apart
    let a = circle_at(0, 0, ONE);
    let b = circle_at(3 * ONE / 2, 0, ONE);
    let col = a.collision(&b).expect("overlapping circles must collide");
    // the normal points from b toward a
    assert_eq!(col.normal, Vec2 { x: -ONE, y: 0 });
    // penetration is the radius sum less the center distance
    assert_eq!(col.penetration, ONE / 2);
    // the contact point sits on a's surface toward b
    assert_eq!(col.point, Vec2 { x: ONE, y: 0 });
}

#[test]
fn circle_circle_apart() {
    let a = circle_at(0, 0, ONE);
    let b = circle_at(3 * ONE, 0, ONE);
    assert!(a.collision(&b).is_none());
    // touching circles do not collide
    let c = circle_at(2 * ONE, 0, ONE);
    assert!(a.collision(&c).is_none());
}

#[test]
fn circle_aabr_outside_and_inside() {
    let boxed = aabr(-ONE, -ONE, ONE, ONE);
    // circle left of the box, overlapping its face
    let c = circle_at(-2 * ONE, 0, 3 * ONE / 2);
    let col = c.collision(&boxed).expect("circle reaches into the box");
    assert_eq!(col.normal, Vec2 { x: -ONE, y: 0 });
    assert_eq!(col.penetration, ONE / 2);
    assert_eq!(col.point, Vec2 { x: -ONE, y: 0 });
    // circle center inside the box pushes out through the nearest face
    let inner = circle_at(ONE / 2, 0, ONE / 4);
    let col2 = inner.collision(&boxed).expect("center inside always collides");
    assert_eq!(col2.normal, Vec2 { x: ONE, y: 0 });
    assert_eq!(col2.penetration, ONE / 2 + ONE / 4);
}

#[test]
fn aabr_aabr_least_overlap_axis() {
    let a = aabr(0, 0, 2 * ONE, 2 * ONE);
    // b overlaps a by half a unit in x and fully in y: x is the axis
    let b = aabr(3 * ONE / 2, 0, 7 * ONE / 2, 2 * ONE);
    let col = a.collision(&b).expect("overlapping boxes must collide");
    assert_eq!(col.normal, Vec2 { x: -ONE, y: 0 });
    assert_eq!(col.penetration, ONE / 2);
    // touching boxes do not collide
    let c = aabr(2 * ONE, 0, 3 * ONE, ONE);
    assert!(a.collision(&c).is_none());
}

#[test]
fn line_pairs_report_no_contact() {
    let l = ShapeWrapper::Line(Line {
        start: Vec2 { x: 0, y: 0 },
        end: Vec2 { x: ONE, y: ONE },
    });
    let c = circle_at(0, 0, ONE);
    assert!(l.collision(&c).is_none());
    assert!(c.collision(&l).is_none());
    assert!(l.collision(&l).is_none());
}

#[test]
fn collision_round_trip_antisymmetric() {
    // every supported pair reports antiparallel normals and equal
    // penetration when the argument order is reversed
    let shapes = [
        circle_at(0, 0, ONE),
        circle_at(ONE, ONE / 2, ONE),
        aabr(-ONE, -ONE, ONE / 2, ONE),
        aabr(0, 0, 2 * ONE, ONE),
    ];
    let mut checked = 0;
    for (i, a) in shapes.iter().enumerate() {
        for (j, b) in shapes.iter().enumerate() {
            // two coincident shapes are the documented tie case: both
            // orders report the same canonical normal
            if i == j {
                continue;
            }
            let ab = a.collision(b);
            let ba = b.collision(a);
            assert_eq!(ab.is_some(), ba.is_some());
            if let (Some(c1), Some(c2)) = (ab, ba) {
                assert_eq!(c1.normal.x, -c2.normal.x);
                assert_eq!(c1.normal.y, -c2.normal.y);
                assert_eq!(c1.penetration, c2.penetration);
                checked += 1;
            }
        }
    }
    assert!(checked > 0);
}

#[test]
fn bounding_rects() {
    let c = circle_at(ONE, ONE, ONE / 2);
    let bc = c.bounding_rect();
    assert_eq!(bc.min, Vec2 { x: ONE / 2, y: ONE / 2 });
    assert_eq!(bc.max, Vec2 { x: 3 * ONE / 2, y: 3 * ONE / 2 });
    let l = ShapeWrapper::Line(Line {
        start: Vec2 { x: ONE, y: 0 },
        end: Vec2 { x: 0, y: ONE },
    });
    let bl = l.bounding_rect();
    assert_eq!(bl.min, Vec2 { x: 0, y: 0 });
    assert_eq!(bl.max, Vec2 { x: ONE, y: ONE });
}

#[test]
fn enveloping_cases() {
    let big = circle_at(0, 0, 2 * ONE);
    let small = circle_at(ONE / 2, 0, ONE / 2);
    assert!(big.enveloping(&small));
    assert!(!small.enveloping(&big));
    assert!(small.enveloped_by(&big));
    let boxed = aabr(-2 * ONE, -2 * ONE, 2 * ONE, 2 * ONE);
    assert!(boxed.enveloping(&small));
    assert!(big.enveloping(&aabr(-ONE, -ONE, ONE, ONE)));
    let line = ShapeWrapper::Line(Line {
        start: Vec2 { x: 0, y: 0 },
        end: Vec2 { x: ONE, y: 0 },
    });
    assert!(boxed.enveloping(&line));
    // a line envelops nothing
    assert!(!line.enveloping(&small));
}

#[test]
fn intersects_matches_collision() {
    let a = circle_at(0, 0, ONE);
    let b = circle_at(3 * ONE / 2, 0, ONE);
    let c = circle_at(4 * ONE, 0, ONE);
    assert!(a.intersects(&b));
    assert!(!a.intersects(&c));
    let boxed = aabr(-ONE, -ONE, ONE, ONE);
    assert!(a.intersects(&boxed));
}
