//! Decisions over partially ordered values: clamping into a closed range,
//! choosing the root of an intersection that lies inside an open interval, and
//! choosing the nearest of the hits that the members of a scene report.
use vstd::prelude::*;
use core::cmp::Ordering;
use vstd::laws_cmp::obeys_partial_cmp_spec_properties;
use vstd::std_specs::cmp::PartialOrdSpec;

verus! {

/// Whether `a` compares strictly below `b`.
pub open spec fn below<T: PartialOrd>(a: T, b: T) -> bool {
    a.partial_cmp_spec(&b) == Some(Ordering::Less)
}

/// Whether `a` compares strictly above `b`.
pub open spec fn above<T: PartialOrd>(a: T, b: T) -> bool {
    a.partial_cmp_spec(&b) == Some(Ordering::Greater)
}

/// What `clamp(val, min, max)` is: `min` when `val` is below it, else `max`
/// when `val` is above that, else `val` itself. A value that compares with
/// neither bound (a NaN) is handed back unchanged.
pub open spec fn clamp_spec<T: PartialOrd>(val: T, min: T, max: T) -> T {
    if below(val, min) {
        min
    } else if above(val, max) {
        max
    } else {
        val
    }
}

/// Clamps `val` into `[min, max]`, testing the lower bound first.
pub fn clamp<T>(val: T, min: T, max: T) -> (r: T)
    where
        T: Copy + PartialOrd,
    ensures
        r == val || r == min || r == max,
        T::obeys_partial_cmp_spec() ==> r == clamp_spec(val, min, max),
{
    if val < min {
        min
    } else if val > max {
        max
    } else {
        val
    }
}

/// Whether `t` lies strictly inside the open interval `(t_min, t_max)`.
pub open spec fn within<T: PartialOrd>(t: T, t_min: T, t_max: T) -> bool {
    below(t, t_max) && above(t, t_min)
}

/// What `select_root(near, far, t_min, t_max)` is: the nearer root where it
/// lies inside `(t_min, t_max)`, else the farther one where it does, else none.
pub open spec fn select_root_spec<T: PartialOrd>(near: T, far: T, t_min: T, t_max: T) -> Option<T> {
    if within(near, t_min, t_max) {
        Some(near)
    } else if within(far, t_min, t_max) {
        Some(far)
    } else {
        None
    }
}

/// The root of an intersection that a ray reports: the nearer one is tried
/// first, and a root counts only strictly inside `(t_min, t_max)`, so that a
/// bounced ray does not hit the surface it leaves.
pub fn select_root<T>(near: T, far: T, t_min: T, t_max: T) -> (r: Option<T>)
    where
        T: Copy + PartialOrd,
    ensures
        r is None || r == Some(near) || r == Some(far),
        T::obeys_partial_cmp_spec() ==> r == select_root_spec(near, far, t_min, t_max),
{
    if near < t_max && near > t_min {
        Some(near)
    } else if far < t_max && far > t_min {
        Some(far)
    } else {
        None
    }
}

/// Whether the comparison of `T` is specified and behaves as an order: strict
/// comparisons are transitive and agree in both directions.
pub open spec fn ordered<T: PartialOrd>() -> bool {
    T::obeys_partial_cmp_spec() && obeys_partial_cmp_spec_properties::<T>()
}

/// Whether entry `k` of `hits` is a hit that no other hit of `hits` lies
/// strictly before.
pub open spec fn nearest<T: PartialOrd>(hits: Seq<Option<T>>, k: int) -> bool {
    &&& 0 <= k < hits.len()
    &&& hits[k] is Some
    &&& forall|i: int|
        #![trigger hits[i]]
        0 <= i < hits.len() && hits[i] is Some ==> !below(hits[i]->0, hits[k]->0)
}

/// The index of the nearest hit among the hit parameters that the members of
/// a scene report for one ray (`None` for a member that the ray misses), or
/// `None` where the ray misses them all. A later hit replaces the one found
/// so far only where it lies strictly before it.
pub fn closest_hit<T>(hits: &Vec<Option<T>>) -> (r: Option<usize>)
    where
        T: Copy + PartialOrd,
    ensures
        r is None <==> forall|i: int| 0 <= i < hits@.len() ==> hits@[i] is None,
        r matches Some(k) ==> k < hits@.len() && hits@[k as int] is Some,
        ordered::<T>() ==> (r matches Some(k) ==> nearest(hits@, k as int)),
{
    let mut best: Option<usize> = None;
    let mut i: usize = 0;
    while i < hits.len()
        invariant
            i <= hits@.len(),
            best is None <==> forall|j: int| 0 <= j < i ==> hits@[j] is None,
            best matches Some(k) ==> k < i && hits@[k as int] is Some,
            ordered::<T>() ==> (best matches Some(k) ==> forall|j: int|
                #![trigger hits@[j]]
                0 <= j < i && hits@[j] is Some ==> !below(hits@[j]->0, hits@[k as int]->0)),
        decreases hits@.len() - i,
    {
        proof {
            reveal(obeys_partial_cmp_spec_properties);
        }
        if let Some(t) = hits[i] {
            match best {
                None => {
                    best = Some(i);
                },
                Some(k) => {
                    let current = hits[k].unwrap();
                    if t < current {
                        proof {
                            if ordered::<T>() {
                                assert forall|j: int|
                                    #![trigger hits@[j]]
                                    0 <= j < i + 1 && hits@[j] is Some implies !below(
                                        hits@[j]->0,
                                        t,
                                    ) by {
                                    if j < i && below(hits@[j]->0, t) {
                                        assert(below(hits@[j]->0, current));
                                    }
                                }
                            }
                        }
                        best = Some(i);
                    }
                },
            }
        }
        i += 1;
    }
    best
}

/// The hit that `closest_hit` chooses does not depend on the order in which
/// the scene holds its members: over two lists that hold the same hits, in
/// any order, the two nearest hits lie neither before the other.
pub proof fn lemma_closest_hit_order_independent<T: PartialOrd>(
    hits: Seq<Option<T>>,
    other: Seq<Option<T>>,
    k: int,
    m: int,
)
    requires
        forall|h: Option<T>| hits.contains(h) <==> other.contains(h),
        nearest(hits, k),
        nearest(other, m),
    ensures
        !below(hits[k]->0, other[m]->0),
        !below(other[m]->0, hits[k]->0),
{
    assert(other.contains(hits[k]));
    assert(hits.contains(other[m]));
}

} // verus!
