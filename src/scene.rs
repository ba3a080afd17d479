use vstd::prelude::*;

verus! {

/// `d` is no farther than any distance reported in `hits`, and strictly
/// nearer than every one reported before position `i`.
pub open spec fn is_nearest(hits: Seq<Option<u64>>, i: int, d: u64) -> bool {
    &&& 0 <= i < hits.len()
    &&& hits[i] == Some(d)
    &&& forall|j: int| 0 <= j < hits.len() && hits[j] is Some ==> d <= hits[j]->0
    &&& forall|j: int| 0 <= j < i && hits[j] is Some ==> d < hits[j]->0
}

/// Picks the surface whose hit is nearest along a ray.
///
/// `hits[i]` is what surface `i` reported: `None` for a miss, or the hit
/// distance as an ordering key (a larger key is a farther hit). Ties go to the
/// surface that comes first.
pub fn nearest_hit(hits: &[Option<u64>]) -> (r: Option<(usize, u64)>)
    ensures
        r is None <==> (forall|j: int| 0 <= j < hits@.len() ==> hits@[j] is None),
        r matches Some((i, d)) ==> is_nearest(hits@, i as int, d),
{
    let mut best: Option<(usize, u64)> = None;
    let mut k: usize = 0;
    while k < hits.len()
        invariant
            k <= hits@.len(),
            best is None <==> (forall|j: int| 0 <= j < k ==> hits@[j] is None),
            best matches Some((i, d)) ==> {
                &&& 0 <= i < k
                &&& hits@[i as int] == Some(d)
                &&& forall|j: int| 0 <= j < k && hits@[j] is Some ==> d <= hits@[j]->0
                &&& forall|j: int| 0 <= j < i && hits@[j] is Some ==> d < hits@[j]->0
            },
        decreases hits@.len() - k,
    {
        if let Some(d) = hits[k] {
            match best {
                None => {
                    best = Some((k, d));
                },
                Some((_, b)) => {
                    if d < b {
                        best = Some((k, d));
                    }
                },
            }
        }
        k = k + 1;
    }
    best
}

} // verus!
