use vstd::prelude::*;

verus! {

/// The sequences each segment holds, in segment order.
pub open spec fn segments_view(segs: Seq<Vec<i32>>) -> Seq<Seq<i32>> {
    segs.map_values(|v: Vec<i32>| v@)
}

/// Two consecutive segments link up when both have an endpoint to compare and
/// the first one's last element equals the second one's first element. A
/// missing endpoint (an empty segment) never links.
pub open spec fn chain_link(a: Seq<i32>, b: Seq<i32>) -> bool {
    a.len() > 0 && b.len() > 0 && a.last() == b.first()
}

/// A sequence of segments forms a chain when every consecutive pair links up.
/// Empty and single-segment inputs form a chain vacuously.
pub open spec fn forms_chain_spec(segs: Seq<Seq<i32>>) -> bool {
    forall|i: int| 0 <= i && i + 1 < segs.len() ==> #[trigger] chain_link(segs[i], segs[i + 1])
}

/// Reports whether the segments form a chain: the last element of each
/// segment equals the first element of the next one. A consecutive pair with
/// an empty segment on either side breaks the chain rather than faulting.
pub fn forms_chain(list: &Vec<Vec<i32>>) -> (r: bool)
    ensures
        r == forms_chain_spec(segments_view(list@)),
{
    let n: usize = list.len();
    let mut i: usize = 0;
    while i + 1 < n
        invariant
            n == list@.len(),
            n > 0 ==> i < n,
            n == 0 ==> i == 0,
            forall|j: int| 0 <= j < i ==> #[trigger] chain_link(
                segments_view(list@)[j],
                segments_view(list@)[j + 1],
            ),
        decreases n - i,
    {
        let curr_vector: &Vec<i32> = &list[i];
        let next_vector: &Vec<i32> = &list[i + 1];
        let linked: bool = if curr_vector.len() == 0 || next_vector.len() == 0 {
            false
        } else {
            curr_vector[curr_vector.len() - 1] == next_vector[0]
        };
        if !linked {
            proof {
                assert(!chain_link(segments_view(list@)[i as int], segments_view(list@)[i + 1]));
            }
            return false;
        }
        i += 1;
    }
    true
}

} // verus!
