use vstd::prelude::*;

verus! {

/// Number of groups the sliding-pair transform produces: one group per
/// position that has a successor, plus a trailing singleton only when the
/// length is odd.
pub open spec fn pair_up_len<T>(s: Seq<T>) -> nat {
    if s.len() == 0 {
        0
    } else if s.len() % 2 == 1 {
        s.len()
    } else {
        (s.len() - 1) as nat
    }
}

/// The groups of the sliding-pair transform: group `i` is `[s[i], s[i+1]]`
/// wherever position `i` has a successor, and `[s[i]]` for the last position
/// of an odd-length sequence.
pub open spec fn pair_up_spec<T>(s: Seq<T>) -> Seq<Seq<T>> {
    Seq::new(
        pair_up_len(s),
        |i: int|
            if i + 1 < s.len() {
                seq![s[i], s[i + 1]]
            } else {
                seq![s[i]]
            },
    )
}

/// Overlapping "sliding pair" grouping: every element except the last appears
/// in two groups; a singleton group trails only when the input length is odd.
pub fn pair_up<T: Copy>(list: &Vec<T>) -> (r: Vec<Vec<T>>)
    ensures
        r@.len() == pair_up_len(list@),
        forall|i: int| 0 <= i < r@.len() ==> r@[i]@ == pair_up_spec(list@)[i],
{
    let mut return_vector: Vec<Vec<T>> = Vec::new();
    let n: usize = list.len();
    let mut i: usize = 0;
    while i < n
        invariant
            i <= n,
            n == list@.len(),
            return_vector@.len() == (if i < n {
                i as int
            } else {
                pair_up_len(list@) as int
            }),
            forall|j: int| 0 <= j < return_vector@.len() ==> return_vector@[j]@ == pair_up_spec(list@)[j],
        decreases n - i,
    {
        if i + 1 < n {
            let mut group: Vec<T> = Vec::new();
            group.push(list[i]);
            group.push(list[i + 1]);
            proof {
                assert(group@ =~= seq![list@[i as int], list@[i as int + 1]]);
            }
            return_vector.push(group);
        } else if i + 1 == n && n % 2 != 0 {
            let mut group: Vec<T> = Vec::new();
            group.push(list[i]);
            proof {
                assert(group@ =~= seq![list@[i as int]]);
            }
            return_vector.push(group);
        }
        i += 1;
    }
    return_vector
}

} // verus!
