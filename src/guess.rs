use vstd::prelude::*;

verus! {

/// A match is accepted only at a cosine distance strictly below this
/// (0.4, in units of `UNIT`).
pub const MAX_DISTANCE: i64 = 400_000_000;

/// One result of a nearest-neighbour query: the stored label and its
/// cosine distance to the query, in units of `UNIT`.
#[derive(Debug)]
pub struct Neighbor {
    pub label: String,
    pub distance: i64,
}

/// `i` is the first of the neighbours at the smallest distance.
pub open spec fn is_nearest(ns: Seq<Neighbor>, i: int) -> bool {
    &&& 0 <= i < ns.len()
    &&& forall|j: int| 0 <= j < ns.len() ==> ns[i].distance <= (#[trigger] ns[j]).distance
    &&& forall|j: int| 0 <= j < i ==> ns[i].distance < (#[trigger] ns[j]).distance
}

/// The first neighbour at the smallest distance, or `None` for no neighbours.
pub fn nearest(ns: &Vec<Neighbor>) -> (r: Option<usize>)
    ensures
        r is None <==> ns.len() == 0,
        r is Some ==> is_nearest(ns@, r->Some_0 as int),
{
    if ns.len() == 0 {
        return None;
    }
    let mut best: usize = 0;
    let mut i: usize = 1;
    while i < ns.len()
        invariant
            1 <= i <= ns.len(),
            0 <= best < i,
            forall|j: int| 0 <= j < i ==> ns@[best as int].distance <= (#[trigger] ns@[j]).distance,
            forall|j: int| 0 <= j < best ==> ns@[best as int].distance < (#[trigger] ns@[j]).distance,
        decreases ns.len() - i,
    {
        if ns[i].distance < ns[best].distance {
            best = i;
        }
        i = i + 1;
    }
    Some(best)
}

/// The label of the nearest neighbour if its distance is below
/// `MAX_DISTANCE`; `None` (unknown) if it is not, or if there are none.
pub fn guess(ns: &Vec<Neighbor>) -> (r: Option<String>)
    ensures
        ns.len() == 0 ==> r is None,
        forall|i: int| #[trigger] is_nearest(ns@, i) ==> (if ns@[i].distance < MAX_DISTANCE {
            r is Some && r->Some_0@ == ns@[i].label@
        } else {
            r is None
        }),
{
    match nearest(ns) {
        None => None,
        Some(i) => {
            proof { lemma_nearest_unique(ns@, i as int); }
            if ns[i].distance < MAX_DISTANCE {
                Some(ns[i].label.clone())
            } else {
                None
            }
        },
    }
}

/// Only one index is the first nearest.
pub proof fn lemma_nearest_unique(ns: Seq<Neighbor>, i: int)
    requires
        is_nearest(ns, i),
    ensures
        forall|j: int| #[trigger] is_nearest(ns, j) ==> j == i,
{
    assert forall|j: int| #[trigger] is_nearest(ns, j) implies j == i by {
        if j < i {
            assert(ns[i].distance < ns[j].distance);
            assert(ns[j].distance <= ns[i].distance);
        } else if i < j {
            assert(ns[j].distance < ns[i].distance);
            assert(ns[i].distance <= ns[j].distance);
        }
    }
}

} // verus!
