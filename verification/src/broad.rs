//! The broad phase: cheap pairwise pruning.  Every unordered pair of
//! bodies that both carry a collider, share a layer bit and overlap in
//! their world-space bounding boxes becomes a candidate pair.  Pairs come
//! out in enumeration order — `(i, j)` with `i < j`, `i` outermost — with
//! no duplicate, reversed or self pair; the stage is deliberately
//! quadratic, with no spatial acceleration structure.

use vstd::prelude::*;
use crate::shapes::aabr_intersecting_v;
use crate::shapes::shape_bounds_v;
use crate::shapes::Aabr;
use crate::components::wrap_v;
use crate::pipeline::Body;
use crate::pipeline::BroadPhasePairs;
use crate::pipeline::bodies_wf;

verus! {

/// Whether the bodies at `i` and `j` are a candidate pair: both carry a
/// collider, their layer masks share a bit, and their world-space bounding
/// boxes overlap.
pub open spec fn candidate_v(bodies: Seq<Body>, i: int, j: int) -> bool {
    let a = bodies[i];
    let b = bodies[j];
    &&& a.collider is Some
    &&& b.collider is Some
    &&& (a.collider->Some_0.layer & b.collider->Some_0.layer) != 0
    &&& aabr_intersecting_v(
        shape_bounds_v(wrap_v(a.collider->Some_0.shape, a.rb.position)),
        shape_bounds_v(wrap_v(b.collider->Some_0.shape, b.rb.position)),
    )
}

/// The candidate pairs `(i, k)` for `k` running from `j` to the end.
pub open spec fn pairs_row_v(bodies: Seq<Body>, i: int, j: int) -> Seq<(usize, usize)>
    decreases bodies.len() - j,
{
    if 0 <= j < bodies.len() {
        let rest = pairs_row_v(bodies, i, j + 1);
        if candidate_v(bodies, i, j) {
            seq![(i as usize, j as usize)] + rest
        } else {
            rest
        }
    } else {
        Seq::empty()
    }
}

/// The candidate pairs with first index at least `i`, in enumeration
/// order.
pub open spec fn pairs_from_v(bodies: Seq<Body>, i: int) -> Seq<(usize, usize)>
    decreases bodies.len() - i,
{
    if 0 <= i < bodies.len() {
        pairs_row_v(bodies, i, i + 1) + pairs_from_v(bodies, i + 1)
    } else {
        Seq::empty()
    }
}

/// All candidate pairs of the body set, in enumeration order.
pub open spec fn broad_pairs_v(bodies: Seq<Body>) -> Seq<(usize, usize)> {
    pairs_from_v(bodies, 0)
}

proof fn lemma_row_elements(bodies: Seq<Body>, i: int, j: int)
    requires
        0 <= i < bodies.len(),
        0 <= j,
        bodies.len() <= usize::MAX,
    ensures
        forall|k: int|
            0 <= k < pairs_row_v(bodies, i, j).len() ==> ((#[trigger] pairs_row_v(bodies, i, j)[k]).0 as int
                == i && j <= (pairs_row_v(bodies, i, j)[k].1 as int) < bodies.len() && candidate_v(
                bodies,
                i,
                pairs_row_v(bodies, i, j)[k].1 as int,
            )),
    decreases bodies.len() - j,
{
    if j < bodies.len() {
        lemma_row_elements(bodies, i, j + 1);
        let s = pairs_row_v(bodies, i, j);
        let rest = pairs_row_v(bodies, i, j + 1);
        assert forall|k: int|
            0 <= k < s.len() implies ((#[trigger] s[k]).0 as int == i && j <= (s[k].1 as int)
            < bodies.len() && candidate_v(bodies, i, s[k].1 as int)) by {
            if candidate_v(bodies, i, j) {
                if k == 0 {
                    assert(s[0] == (i as usize, j as usize));
                } else {
                    assert(s[k] == rest[k - 1]);
                }
            } else {
                assert(s[k] == rest[k]);
            }
        };
    }
}

proof fn lemma_from_elements(bodies: Seq<Body>, i: int)
    requires
        0 <= i,
        bodies.len() <= usize::MAX,
    ensures
        forall|k: int|
            0 <= k < pairs_from_v(bodies, i).len() ==> (i <= (#[trigger] pairs_from_v(bodies, i)[k]).0 as int
                && (pairs_from_v(bodies, i)[k].0 as int) < (pairs_from_v(bodies, i)[k].1 as int)
                < bodies.len() && candidate_v(
                bodies,
                pairs_from_v(bodies, i)[k].0 as int,
                pairs_from_v(bodies, i)[k].1 as int,
            )),
    decreases bodies.len() - i,
{
    if i < bodies.len() {
        lemma_row_elements(bodies, i, i + 1);
        lemma_from_elements(bodies, i + 1);
        let s = pairs_from_v(bodies, i);
        let row = pairs_row_v(bodies, i, i + 1);
        let rest = pairs_from_v(bodies, i + 1);
        assert forall|k: int|
            0 <= k < s.len() implies (i <= ((#[trigger] s[k]).0 as int) && (s[k].0 as int) < (
        s[k].1 as int) < bodies.len() && candidate_v(bodies, s[k].0 as int, s[k].1 as int)) by {
            if k < row.len() {
                assert(s[k] == row[k]);
            } else {
                assert(s[k] == rest[k - row.len()]);
            }
        };
    }
}

/// Every candidate pair the broad phase reports is an ordered pair of
/// distinct body indices whose bodies carry colliders on a shared layer
/// and overlap in their bounding boxes: no self pair and no reversed pair
/// appears.
pub proof fn lemma_broad_pairs_sound(bodies: Seq<Body>)
    requires
        bodies.len() <= usize::MAX,
    ensures
        forall|k: int|
            0 <= k < broad_pairs_v(bodies).len() ==> (((#[trigger] broad_pairs_v(bodies)[k]).0 as int)
                < (broad_pairs_v(bodies)[k].1 as int) < bodies.len() && candidate_v(
                bodies,
                broad_pairs_v(bodies)[k].0 as int,
                broad_pairs_v(bodies)[k].1 as int,
            )),
{
    lemma_from_elements(bodies, 0);
}

/// Layer filtering: two bodies whose layer masks share no bit never form
/// a candidate pair, in either order, however their boxes overlap.
pub proof fn lemma_layer_filtering(bodies: Seq<Body>, a: int, b: int)
    requires
        bodies.len() <= usize::MAX,
        0 <= a < bodies.len(),
        0 <= b < bodies.len(),
        bodies[a].collider is Some,
        bodies[b].collider is Some,
        bodies[a].collider->Some_0.layer & bodies[b].collider->Some_0.layer == 0,
    ensures
        forall|k: int|
            0 <= k < broad_pairs_v(bodies).len() ==> (#[trigger] broad_pairs_v(bodies)[k]) != (
            a as usize,
            b as usize,
            ) && broad_pairs_v(bodies)[k] != (b as usize, a as usize),
{
    lemma_broad_pairs_sound(bodies);
    let la = bodies[a].collider->Some_0.layer;
    let lb = bodies[b].collider->Some_0.layer;
    assert(lb & la == 0) by (bit_vector)
        requires
            la & lb == 0,
    ;
    assert forall|k: int| 0 <= k < broad_pairs_v(bodies).len() implies (
    #[trigger] broad_pairs_v(bodies)[k]) != (a as usize, b as usize) && broad_pairs_v(bodies)[k]
        != (b as usize, a as usize) by {
        if broad_pairs_v(bodies)[k] == (a as usize, b as usize) {
            assert(candidate_v(bodies, a, b));
        }
        if broad_pairs_v(bodies)[k] == (b as usize, a as usize) {
            assert(candidate_v(bodies, b, a));
        }
    };
}

proof fn lemma_row_count_full(bodies: Seq<Body>, i: int, j: int)
    requires
        0 <= i < bodies.len(),
        0 < j,
        forall|k: int| j <= k < bodies.len() ==> #[trigger] candidate_v(bodies, i, k),
    ensures
        pairs_row_v(bodies, i, j).len() == if j < bodies.len() {
            bodies.len() - j
        } else {
            0
        },
    decreases bodies.len() - j,
{
    if j < bodies.len() {
        lemma_row_count_full(bodies, i, j + 1);
    }
}

proof fn lemma_from_count_full(bodies: Seq<Body>, i: int)
    requires
        0 < i,
        forall|x: int, y: int|
            i <= x < y < bodies.len() ==> #[trigger] candidate_v(bodies, x, y),
    ensures
        2 * pairs_from_v(bodies, i).len() == if i < bodies.len() {
            (bodies.len() - i) * (bodies.len() - i - 1)
        } else {
            0
        },
    decreases bodies.len() - i,
{
    if i < bodies.len() {
        lemma_row_count_full(bodies, i, i + 1);
        lemma_from_count_full(bodies, i + 1);
        let m = bodies.len() - i;
        if i + 1 == bodies.len() {
            assert(m * (m - 1) == 0) by (nonlinear_arith)
                requires
                    m == 1,
            ;
        } else {
            assert(2 * (m - 1) + (m - 1) * (m - 2) == m * (m - 1)) by (nonlinear_arith);
        }
    }
}

/// Pair completeness: over bodies that are all mutually candidates — all
/// carrying colliders on shared layers with overlapping boxes — the broad
/// phase reports exactly `n * (n - 1) / 2` pairs.
pub proof fn lemma_broad_pairs_count(bodies: Seq<Body>)
    requires
        bodies.len() >= 1,
        forall|x: int, y: int|
            0 <= x < y < bodies.len() ==> #[trigger] candidate_v(bodies, x, y),
    ensures
        broad_pairs_v(bodies).len() == bodies.len() * (bodies.len() - 1) / 2,
{
    let n = bodies.len() as int;
    lemma_row_count_full(bodies, 0, 1);
    lemma_from_count_full(bodies, 1);
    if n == 1 {
        assert((n - 1) * (n - 2) == 0) by (nonlinear_arith)
            requires
                n == 1,
        ;
    }
    assert(2 * broad_pairs_v(bodies).len() == (n - 1) + (n - 1) + (n - 1) * (n - 2));
    assert((n - 1) + (n - 1) + (n - 1) * (n - 2) == n * (n - 1)) by (nonlinear_arith);
    crate::fx::lemma_div_exact_double(broad_pairs_v(bodies).len() as int, n * (n - 1));
}

proof fn lemma_row_distinct(bodies: Seq<Body>, i: int, j: int)
    requires
        0 <= i < bodies.len(),
        0 <= j,
        bodies.len() <= usize::MAX,
    ensures
        forall|k1: int, k2: int|
            0 <= k1 < k2 < pairs_row_v(bodies, i, j).len() ==> #[trigger] pairs_row_v(
                bodies,
                i,
                j,
            )[k1] != #[trigger] pairs_row_v(bodies, i, j)[k2],
    decreases bodies.len() - j,
{
    if j < bodies.len() {
        lemma_row_distinct(bodies, i, j + 1);
        lemma_row_elements(bodies, i, j + 1);
        let s = pairs_row_v(bodies, i, j);
        let rest = pairs_row_v(bodies, i, j + 1);
        assert forall|k1: int, k2: int|
            0 <= k1 < k2 < s.len() implies #[trigger] s[k1] != #[trigger] s[k2] by {
            if candidate_v(bodies, i, j) {
                if k1 == 0 {
                    assert(s[0] == (i as usize, j as usize));
                    assert(s[k2] == rest[k2 - 1]);
                } else {
                    assert(s[k1] == rest[k1 - 1]);
                    assert(s[k2] == rest[k2 - 1]);
                }
            } else {
                assert(s[k1] == rest[k1]);
                assert(s[k2] == rest[k2]);
            }
        };
    }
}

proof fn lemma_from_distinct(bodies: Seq<Body>, i: int)
    requires
        0 <= i,
        bodies.len() <= usize::MAX,
    ensures
        forall|k1: int, k2: int|
            0 <= k1 < k2 < pairs_from_v(bodies, i).len() ==> #[trigger] pairs_from_v(
                bodies,
                i,
            )[k1] != #[trigger] pairs_from_v(bodies, i)[k2],
    decreases bodies.len() - i,
{
    if i < bodies.len() {
        lemma_row_distinct(bodies, i, i + 1);
        lemma_row_elements(bodies, i, i + 1);
        lemma_from_distinct(bodies, i + 1);
        lemma_from_elements(bodies, i + 1);
        let s = pairs_from_v(bodies, i);
        let row = pairs_row_v(bodies, i, i + 1);
        let rest = pairs_from_v(bodies, i + 1);
        assert forall|k1: int, k2: int|
            0 <= k1 < k2 < s.len() implies #[trigger] s[k1] != #[trigger] s[k2] by {
            if k1 < row.len() {
                assert(s[k1] == row[k1]);
            } else {
                assert(s[k1] == rest[k1 - row.len()]);
            }
            if k2 < row.len() {
                assert(s[k2] == row[k2]);
            } else {
                assert(s[k2] == rest[k2 - row.len()]);
            }
        };
    }
}

/// Pair dedup: the broad phase never reports the same pair twice.
pub proof fn lemma_broad_pairs_distinct(bodies: Seq<Body>)
    requires
        bodies.len() <= usize::MAX,
    ensures
        forall|k1: int, k2: int|
            0 <= k1 < k2 < broad_pairs_v(bodies).len() ==> #[trigger] broad_pairs_v(bodies)[k1]
                != #[trigger] broad_pairs_v(bodies)[k2],
{
    lemma_from_distinct(bodies, 0);
}

fn candidate(bodies: &Vec<Body>, i: usize, j: usize) -> (r: bool)
    requires
        bodies_wf(bodies@),
        i < bodies@.len(),
        j < bodies@.len(),
    ensures
        r == candidate_v(bodies@, i as int, j as int),
{
    let a: Body = bodies[i];
    let b: Body = bodies[j];
    match (a.collider, b.collider) {
        (Some(ca), Some(cb)) => {
            if ca.layer & cb.layer == 0 {
                false
            } else {
                let ba: Aabr = ca.global_aabr(&a.rb);
                let bb: Aabr = cb.global_aabr(&b.rb);
                ba.intersecting(&bb)
            }
        },
        _ => false,
    }
}

/// The broad-phase pass: all candidate pairs of the body set, in
/// enumeration order.
pub fn broad_phase(bodies: &Vec<Body>) -> (r: BroadPhasePairs)
    requires
        bodies_wf(bodies@),
    ensures
        r.pairs@ == broad_pairs_v(bodies@),
{
    let n: usize = bodies.len();
    let mut pairs: Vec<(usize, usize)> = Vec::new();
    let mut i: usize = 0;
    proof {
        assert(pairs@ + pairs_from_v(bodies@, 0) =~= pairs_from_v(bodies@, 0));
    }
    while i < n
        invariant
            n == bodies@.len(),
            bodies_wf(bodies@),
            0 <= i <= n,
            pairs@ + pairs_from_v(bodies@, i as int) == broad_pairs_v(bodies@),
        decreases n - i,
    {
        let mut j: usize = i + 1;
        proof {
            assert((pairs@ + pairs_row_v(bodies@, i as int, i as int + 1)) + pairs_from_v(
                bodies@,
                i as int + 1,
            ) =~= pairs@ + (pairs_row_v(bodies@, i as int, i as int + 1) + pairs_from_v(
                bodies@,
                i as int + 1,
            )));
        }
        while j < n
            invariant
                n == bodies@.len(),
                bodies_wf(bodies@),
                0 <= i < n,
                i + 1 <= j <= n,
                (pairs@ + pairs_row_v(bodies@, i as int, j as int)) + pairs_from_v(
                    bodies@,
                    i as int + 1,
                ) == broad_pairs_v(bodies@),
            decreases n - j,
        {
            let ghost p0 = pairs@;
            if candidate(bodies, i, j) {
                pairs.push((i, j));
                proof {
                    assert(pairs@ =~= p0 + seq![(i, j)]);
                    assert((p0 + seq![(i, j)]) + pairs_row_v(bodies@, i as int, j as int + 1)
                        =~= p0 + (seq![(i, j)] + pairs_row_v(bodies@, i as int, j as int + 1)));
                }
            }
            j = j + 1;
        }
        proof {
            assert(pairs_row_v(bodies@, i as int, n as int) =~= Seq::<(usize, usize)>::empty());
            assert(pairs@ + pairs_row_v(bodies@, i as int, n as int) =~= pairs@);
        }
        i = i + 1;
    }
    proof {
        assert(pairs_from_v(bodies@, n as int) =~= Seq::<(usize, usize)>::empty());
        assert(pairs@ + pairs_from_v(bodies@, n as int) =~= pairs@);
    }
    BroadPhasePairs { pairs }
}

} // verus!
