use vstd::prelude::*;
use crate::hit_record::HitRecord;
use crate::scalar::{less_eq, order_key, Scalar};
use crate::sphere::Sphere;

verus! {

/// The scene: every sphere a ray can hit, in no particular order.
#[derive(Debug)]
pub struct HittableList {
    pub hittables: Vec<Sphere>,
}

/// A candidate that reports a hit no farther than `bound`.
pub open spec fn accepted(candidate: Option<HitRecord>, bound: Scalar) -> bool {
    match candidate {
        Some(h) => less_eq(h.t, bound),
        None => false,
    }
}

pub open spec fn hit_key(candidate: Option<HitRecord>) -> int {
    match candidate {
        Some(h) => order_key(h.t),
        None => 0,
    }
}

/// Candidate `i` is the one the scan keeps: accepted, no farther than any
/// accepted candidate, and strictly nearer than every accepted one before it.
pub open spec fn is_closest(candidates: Seq<Option<HitRecord>>, bound: Scalar, i: int) -> bool {
    &&& 0 <= i < candidates.len()
    &&& accepted(candidates[i], bound)
    &&& forall|j: int|
        0 <= j < candidates.len() && accepted(#[trigger] candidates[j], bound) ==> hit_key(
            candidates[i],
        ) <= hit_key(candidates[j])
    &&& forall|j: int|
        0 <= j < i && accepted(#[trigger] candidates[j], bound) ==> hit_key(candidates[i])
            < hit_key(candidates[j])
}

/// The closest of the hits that the members of a list reported for one ray,
/// among those no farther than `t_max`; the first of equally near ones.
pub fn closest_hit(candidates: &Vec<Option<HitRecord>>, t_max: Scalar) -> (r: Option<HitRecord>)
    ensures
        r is None <==> forall|j: int|
            0 <= j < candidates@.len() ==> !accepted(#[trigger] candidates@[j], t_max),
        r matches Some(h) ==> exists|i: int|
            is_closest(candidates@, t_max, i) && candidates@[i] == Some(h),
{
    let mut best: Option<usize> = None;
    let mut closest_t = t_max;
    let n = candidates.len();
    let mut k: usize = 0;
    while k < n
        invariant
            k <= n == candidates@.len(),
            best is None ==> closest_t == t_max && forall|j: int|
                0 <= j < k ==> !accepted(#[trigger] candidates@[j], t_max),
            best matches Some(b) ==> (b < k && is_closest(candidates@.take(k as int), t_max, b as int)
                && candidates@[b as int] is Some && candidates@[b as int].unwrap().t == closest_t),
        decreases n - k,
    {
        match &candidates[k] {
            Some(hit) => {
                let nearer = match best {
                    None => hit.t.le(&t_max),
                    Some(_) => hit.t.lt(&closest_t),
                };
                if nearer {
                    closest_t = hit.t;
                    best = Some(k);
                }
            },
            None => {},
        }
        proof {
            let prefix = candidates@.take(k as int + 1);
            assert(forall|j: int| 0 <= j <= k ==> prefix[j] == candidates@[j]);
            assert(forall|j: int| 0 <= j < k ==> candidates@.take(k as int)[j] == candidates@[j]);
        }
        k += 1;
    }
    assert(candidates@.take(n as int) =~= candidates@);
    match best {
        Some(b) => Some(candidates[b].unwrap()),
        None => None,
    }
}

/// Which member reports the nearest hit does not depend on the order in
/// which the members are scanned: in any two orders the hit kept is equally
/// near, and there is a hit in one order exactly when there is in the other.
pub proof fn closest_hit_ignores_order(
    first: Seq<Option<HitRecord>>,
    second: Seq<Option<HitRecord>>,
    bound: Scalar,
    i: int,
    j: int,
)
    requires
        first.to_multiset() == second.to_multiset(),
        is_closest(first, bound, i),
        is_closest(second, bound, j),
    ensures
        hit_key(first[i]) == hit_key(second[j]),
{
    assert(first.contains(first[i]));
    vstd::seq_lib::to_multiset_contains(first, first[i]);
    vstd::seq_lib::to_multiset_contains(second, first[i]);
    let a = choose|a: int| 0 <= a < second.len() && second[a] == first[i];
    assert(accepted(second[a], bound));
    assert(second.contains(second[j]));
    vstd::seq_lib::to_multiset_contains(second, second[j]);
    vstd::seq_lib::to_multiset_contains(first, second[j]);
    let b = choose|b: int| 0 <= b < first.len() && first[b] == second[j];
    assert(accepted(first[b], bound));
}

/// Whether any member reports a hit nearer than the bound does not depend on
/// the order in which the members are scanned.
pub proof fn any_hit_ignores_order(
    first: Seq<Option<HitRecord>>,
    second: Seq<Option<HitRecord>>,
    bound: Scalar,
)
    requires
        first.to_multiset() == second.to_multiset(),
    ensures
        (exists|i: int| 0 <= i < first.len() && accepted(#[trigger] first[i], bound)) <==> (exists|
            j: int,
        | 0 <= j < second.len() && accepted(#[trigger] second[j], bound)),
{
    if exists|i: int| 0 <= i < first.len() && accepted(#[trigger] first[i], bound) {
        let i = choose|i: int| 0 <= i < first.len() && accepted(#[trigger] first[i], bound);
        assert(first.contains(first[i]));
        vstd::seq_lib::to_multiset_contains(first, first[i]);
        vstd::seq_lib::to_multiset_contains(second, first[i]);
        let a = choose|a: int| 0 <= a < second.len() && second[a] == first[i];
        assert(accepted(second[a], bound));
    }
    if exists|j: int| 0 <= j < second.len() && accepted(#[trigger] second[j], bound) {
        let j = choose|j: int| 0 <= j < second.len() && accepted(#[trigger] second[j], bound);
        assert(second.contains(second[j]));
        vstd::seq_lib::to_multiset_contains(second, second[j]);
        vstd::seq_lib::to_multiset_contains(first, second[j]);
        let b = choose|b: int| 0 <= b < first.len() && first[b] == second[j];
        assert(accepted(first[b], bound));
    }
}

} // verus!
