use vstd::prelude::*;
use vstd::seq_lib::lemma_seq_skip_of_skip;

verus! {

/// Length of the maximal run at the front of `s`: how many leading elements
/// equal `s[0]`.
pub open spec fn first_run_len(s: Seq<i32>) -> nat
    decreases s.len(),
{
    if s.len() == 0 {
        0
    } else if s.len() >= 2 && s[1] == s[0] {
        (1 + first_run_len(s.skip(1))) as nat
    } else {
        1
    }
}

/// Run-length encoding as a mathematical sequence: one `(count, value)` pair
/// per maximal run of consecutive equal elements, in input order.
pub open spec fn rle_spec(s: Seq<i32>) -> Seq<(nat, i32)>
    decreases s.len(),
    via rle_spec_decreases
{
    if s.len() == 0 {
        Seq::empty()
    } else {
        seq![(first_run_len(s), s[0])] + rle_spec(s.skip(first_run_len(s) as int))
    }
}

#[via_fn]
proof fn rle_spec_decreases(s: Seq<i32>) {
    if s.len() > 0 {
        lemma_first_run_props(s);
    }
}

/// The run at the front of a non-empty sequence covers at least its first
/// element, every element it covers equals the first, and it stops right
/// before the first differing element.
pub proof fn lemma_first_run_props(s: Seq<i32>)
    requires
        s.len() > 0,
    ensures
        1 <= first_run_len(s) <= s.len(),
        forall|i: int| 0 <= i < first_run_len(s) ==> #[trigger] s[i] == s[0],
        first_run_len(s) < s.len() ==> s[first_run_len(s) as int] != s[0],
    decreases s.len(),
{
    if s.len() >= 2 && s[1] == s[0] {
        lemma_first_run_props(s.skip(1));
        assert forall|i: int| 0 <= i < first_run_len(s) implies #[trigger] s[i] == s[0] by {
            if i >= 1 {
                assert(s.skip(1)[i - 1] == s[i]);
            }
        }
        if first_run_len(s) < s.len() {
            assert(s.skip(1)[first_run_len(s.skip(1)) as int] == s[first_run_len(s) as int]);
        }
    }
}

/// The front run's length is pinned down by its three properties: `m` leading
/// elements equal to the first, and either the end of the sequence or a
/// differing element right after.
pub proof fn lemma_first_run_is(s: Seq<i32>, m: int)
    requires
        1 <= m <= s.len(),
        forall|i: int| 0 <= i < m ==> #[trigger] s[i] == s[0],
        m < s.len() ==> s[m] != s[0],
    ensures
        first_run_len(s) == m,
    decreases m,
{
    if m == 1 {
        if s.len() >= 2 {
            assert(s[1] != s[0]);
        }
    } else {
        assert(s[1] == s[0]);
        let t = s.skip(1);
        assert forall|i: int| 0 <= i < m - 1 implies #[trigger] t[i] == t[0] by {
            assert(t[i] == s[i + 1]);
            assert(s[i + 1] == s[0]);
        }
        if m - 1 < t.len() {
            assert(t[m - 1] == s[m]);
        }
        lemma_first_run_is(t, m - 1);
    }
}

/// The encoder's entries with their `i32` counts read back as mathematical
/// counts, for comparison with `rle_spec`.
pub open spec fn entries_view(e: Seq<(i32, i32)>) -> Seq<(nat, i32)> {
    e.map_values(|p: (i32, i32)| (p.0 as nat, p.1))
}

/// Encodes each maximal run of consecutive equal elements as a
/// `(count, value)` pair, in the order the runs appear. A value recurring in
/// a later, separate run gets a fresh entry: runs are counted, not overall
/// frequencies.
pub fn run_length_encoding(list: &Vec<i32>) -> (r: Vec<(i32, i32)>)
    requires
        list@.len() <= i32::MAX,
    ensures
        entries_view(r@) == rle_spec(list@),
        forall|k: int| 0 <= k < r@.len() ==> 1 <= #[trigger] r@[k].0,
{
    let mut return_vector: Vec<(i32, i32)> = Vec::new();
    let n: usize = list.len();
    let mut i: usize = 0;
    proof {
        assert(list@.skip(0) =~= list@);
        assert(entries_view(return_vector@) + rle_spec(list@) =~= rle_spec(list@));
    }
    while i < n
        invariant
            i <= n,
            n == list@.len(),
            n <= i32::MAX,
            rle_spec(list@) == entries_view(return_vector@) + rle_spec(list@.skip(i as int)),
            forall|k: int| 0 <= k < return_vector@.len() ==> 1 <= #[trigger] return_vector@[k].0,
        decreases n - i,
    {
        let run_value: i32 = list[i];
        let mut j: usize = i + 1;
        while j < n && list[j] == run_value
            invariant
                i < j <= n,
                n == list@.len(),
                run_value == list@[i as int],
                forall|k: int| i <= k < j ==> list@[k] == list@[i as int],
            decreases n - j,
        {
            j += 1;
        }
        let count: i32 = (j - i) as i32;
        proof {
            let suffix = list@.skip(i as int);
            assert forall|k: int| 0 <= k < j - i implies #[trigger] suffix[k] == suffix[0] by {
                assert(list@[i + k] == list@[i as int]);
            }
            if j < n {
                assert(suffix[j - i] == list@[j as int]);
            }
            lemma_first_run_is(suffix, j - i);
            lemma_seq_skip_of_skip(list@, i as int, j - i);
            assert(entries_view(return_vector@.push((count, run_value))) =~= entries_view(
                return_vector@,
            ) + seq![((j - i) as nat, run_value)]);
            assert(rle_spec(list@) =~= entries_view(return_vector@.push((count, run_value)))
                + rle_spec(list@.skip(j as int)));
        }
        return_vector.push((count, run_value));
        i = j;
    }
    proof {
        assert(rle_spec(list@.skip(n as int)) =~= Seq::<(nat, i32)>::empty());
        assert(entries_view(return_vector@) =~= entries_view(return_vector@) + rle_spec(
            list@.skip(n as int),
        ));
    }
    return_vector
}

/// The elements a run-length code stands for: each `(count, value)` entry
/// expanded to `count` copies of `value`, in entry order.
pub open spec fn rle_expand(e: Seq<(nat, i32)>) -> Seq<i32>
    decreases e.len(),
{
    if e.len() == 0 {
        Seq::empty()
    } else {
        Seq::new(e[0].0, |k: int| e[0].1) + rle_expand(e.skip(1))
    }
}

/// Expanding a run-length code recovers the sequence it encodes: the encoding
/// loses nothing.
pub proof fn lemma_rle_expand_roundtrip(s: Seq<i32>)
    ensures
        rle_expand(rle_spec(s)) == s,
    decreases s.len(),
{
    if s.len() == 0 {
        assert(rle_expand(rle_spec(s)) =~= s);
    } else {
        lemma_first_run_props(s);
        let fr = first_run_len(s) as int;
        let rest = rle_spec(s.skip(fr));
        let e = rle_spec(s);
        lemma_rle_expand_roundtrip(s.skip(fr));
        assert(e == seq![(first_run_len(s), s[0])] + rest);
        assert(e.skip(1) =~= rest);
        assert(Seq::new(e[0].0, |k: int| e[0].1) =~= s.take(fr));
        assert(s.take(fr) + s.skip(fr) =~= s);
    }
}

/// Re-encoding the expansion of a run-length code gives the same code back:
/// encoding is idempotent across its own reconstruction.
pub proof fn lemma_rle_idempotent(s: Seq<i32>)
    ensures
        rle_spec(rle_expand(rle_spec(s))) == rle_spec(s),
{
    lemma_rle_expand_roundtrip(s);
}

} // verus!
