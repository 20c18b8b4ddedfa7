//! The narrow phase: the exact shape test over the broad phase's
//! candidate pairs.  Each candidate pair whose world-placed shapes truly
//! collide contributes one manifold, in pair order; a pair whose shapes do
//! not collide, whose contact is unsupported (a line segment), or whose
//! bodies lack a collider contributes nothing.

use vstd::prelude::*;
use crate::shapes::ShapeWrapper;
use crate::shapes::collision_v;
use crate::components::wrap_v;
use crate::pipeline::Body;
use crate::pipeline::BroadPhasePairs;
use crate::pipeline::Manifold;
use crate::pipeline::Manifolds;
use crate::pipeline::bodies_wf;

verus! {

/// The manifold one candidate pair contributes: the contact of the two
/// world-placed collider shapes, or nothing at all — also when an index is
/// out of range or a body carries no collider, absorbed rather than
/// failed.
pub open spec fn manifold_for_v(bodies: Seq<Body>, p: (usize, usize)) -> Option<Manifold> {
    if p.0 < bodies.len() && p.1 < bodies.len() {
        let a = bodies[p.0 as int];
        let b = bodies[p.1 as int];
        match (a.collider, b.collider) {
            (Some(ca), Some(cb)) => match collision_v(
                wrap_v(ca.shape, a.rb.position),
                wrap_v(cb.shape, b.rb.position),
            ) {
                Some(col) => Some(
                    Manifold {
                        a: p.0,
                        b: p.1,
                        n: col.normal,
                        p: col.penetration,
                        f: None,
                        c: col.point,
                    },
                ),
                None => None,
            },
            _ => None,
        }
    } else {
        None
    }
}

/// The manifolds of a pair list, in pair order.
pub open spec fn narrow_manifolds_v(bodies: Seq<Body>, pairs: Seq<(usize, usize)>) -> Seq<
    Manifold,
>
    decreases pairs.len(),
{
    if pairs.len() == 0 {
        Seq::empty()
    } else {
        narrow_manifolds_v(bodies, pairs.drop_last()) + (match manifold_for_v(
            bodies,
            pairs.last(),
        ) {
            Some(m) => seq![m],
            None => Seq::empty(),
        })
    }
}

/// Every manifold of a pair list takes its body indices from one of the
/// pairs.
pub proof fn lemma_narrow_from_pairs(bodies: Seq<Body>, pairs: Seq<(usize, usize)>)
    ensures
        forall|k: int|
            0 <= k < narrow_manifolds_v(bodies, pairs).len() ==> pairs.contains(
                ((#[trigger] narrow_manifolds_v(bodies, pairs)[k]).a,
                narrow_manifolds_v(bodies, pairs)[k].b),
            ),
    decreases pairs.len(),
{
    if pairs.len() > 0 {
        lemma_narrow_from_pairs(bodies, pairs.drop_last());
        let s = narrow_manifolds_v(bodies, pairs);
        let rest = narrow_manifolds_v(bodies, pairs.drop_last());
        assert forall|k: int| 0 <= k < s.len() implies pairs.contains(
            ((#[trigger] s[k]).a, s[k].b),
        ) by {
            if k < rest.len() {
                assert(s[k] == rest[k]);
                assert(pairs.drop_last().contains((rest[k].a, rest[k].b)));
                let j = choose|j: int|
                    0 <= j < pairs.drop_last().len() && pairs.drop_last()[j] == (
                    rest[k].a,
                    rest[k].b,
                    );
                assert(pairs[j] == (rest[k].a, rest[k].b));
            } else {
                match manifold_for_v(bodies, pairs.last()) {
                    Some(m) => {
                        assert(s[k] == m);
                        assert(pairs[pairs.len() - 1] == (m.a, m.b));
                    },
                    None => {},
                }
            }
        };
    }
}

/// Layer filtering, end to end: two bodies whose layer masks share no bit
/// produce no manifold in either order, however much their shapes
/// overlap, because they never even become a candidate pair.
pub proof fn lemma_layer_filtering_manifolds(bodies: Seq<Body>, a: int, b: int)
    requires
        bodies.len() <= usize::MAX,
        0 <= a < bodies.len(),
        0 <= b < bodies.len(),
        bodies[a].collider is Some,
        bodies[b].collider is Some,
        bodies[a].collider->Some_0.layer & bodies[b].collider->Some_0.layer == 0,
    ensures
        forall|k: int|
            0 <= k < narrow_manifolds_v(bodies, crate::broad::broad_pairs_v(bodies)).len()
                ==> !((#[trigger] narrow_manifolds_v(
                bodies,
                crate::broad::broad_pairs_v(bodies),
            )[k]).a as int == a && narrow_manifolds_v(
                bodies,
                crate::broad::broad_pairs_v(bodies),
            )[k].b as int == b) && !(narrow_manifolds_v(
                bodies,
                crate::broad::broad_pairs_v(bodies),
            )[k].a as int == b && narrow_manifolds_v(
                bodies,
                crate::broad::broad_pairs_v(bodies),
            )[k].b as int == a),
{
    let pairs = crate::broad::broad_pairs_v(bodies);
    let nm = narrow_manifolds_v(bodies, pairs);
    lemma_narrow_from_pairs(bodies, pairs);
    crate::broad::lemma_layer_filtering(bodies, a, b);
    assert forall|k: int| 0 <= k < nm.len() implies !((#[trigger] nm[k]).a as int == a
        && nm[k].b as int == b) && !(nm[k].a as int == b && nm[k].b as int == a) by {
        assert(pairs.contains((nm[k].a, nm[k].b)));
        let j = choose|j: int| 0 <= j < pairs.len() && pairs[j] == (nm[k].a, nm[k].b);
        if nm[k].a as int == a && nm[k].b as int == b {
            assert(pairs[j] == (a as usize, b as usize));
        }
        if nm[k].a as int == b && nm[k].b as int == a {
            assert(pairs[j] == (b as usize, a as usize));
        }
    };
}

/// The narrow-phase pass: the manifolds of this step's candidate pairs,
/// in pair order, each well-formed.
pub fn narrow_phase(bodies: &Vec<Body>, pairs: &BroadPhasePairs) -> (r: Manifolds)
    requires
        bodies_wf(bodies@),
    ensures
        r.0@ == narrow_manifolds_v(bodies@, pairs.pairs@),
        forall|k: int| 0 <= k < r.0@.len() ==> (#[trigger] r.0@[k]).wf(),
{
    let n: usize = pairs.pairs.len();
    let mut out: Vec<Manifold> = Vec::new();
    let mut k: usize = 0;
    proof {
        assert(pairs.pairs@.subrange(0, 0) =~= Seq::<(usize, usize)>::empty());
    }
    while k < n
        invariant
            n == pairs.pairs@.len(),
            bodies_wf(bodies@),
            0 <= k <= n,
            out@ == narrow_manifolds_v(bodies@, pairs.pairs@.subrange(0, k as int)),
            forall|j: int| 0 <= j < out@.len() ==> (#[trigger] out@[j]).wf(),
        decreases n - k,
    {
        let ghost prefix = pairs.pairs@.subrange(0, k as int);
        let ghost next = pairs.pairs@.subrange(0, k as int + 1);
        proof {
            assert(next.drop_last() =~= prefix);
            assert(next.last() == pairs.pairs@[k as int]);
        }
        let p: (usize, usize) = pairs.pairs[k];
        if p.0 < bodies.len() && p.1 < bodies.len() {
            let a: Body = bodies[p.0];
            let b: Body = bodies[p.1];
            match (a.collider, b.collider) {
                (Some(ca), Some(cb)) => {
                    let sa: ShapeWrapper = ca.as_shape(&a.rb);
                    let sb: ShapeWrapper = cb.as_shape(&b.rb);
                    match sa.collision(&sb) {
                        Some(col) => {
                            let m: Manifold = Manifold::new(p.0, p.1, col);
                            out.push(m);
                        },
                        None => {},
                    }
                },
                _ => {},
            }
        }
        proof {
            assert(out@ =~= narrow_manifolds_v(bodies@, next));
        }
        k = k + 1;
    }
    proof {
        assert(pairs.pairs@.subrange(0, n as int) =~= pairs.pairs@);
    }
    Manifolds(out)
}

} // verus!
