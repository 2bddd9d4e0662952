use vstd::prelude::*;

verus! {

/// The largest `n` for which every intermediate product `1!, ..., n!` fits in
/// an `i32` (13! already overflows).
pub const MAX_FACTORIAL_INPUT: i32 = 12;

/// Mathematical factorial.
pub open spec fn fact(k: nat) -> nat
    decreases k,
{
    if k == 0 {
        1
    } else {
        k * fact((k - 1) as nat)
    }
}

/// Factorial never shrinks as its argument grows.
pub proof fn lemma_fact_monotone(a: nat, b: nat)
    requires
        a <= b,
    ensures
        fact(a) <= fact(b),
    decreases b,
{
    if a < b {
        lemma_fact_monotone(a, (b - 1) as nat);
        assert(fact(b) == b * fact((b - 1) as nat));
        assert(b * fact((b - 1) as nat) >= 1 * fact((b - 1) as nat)) by (nonlinear_arith)
            requires
                b >= 1,
        ;
    }
}

proof fn lemma_fact_fits_i32(m: nat)
    requires
        m <= MAX_FACTORIAL_INPUT,
    ensures
        fact(m) <= 479001600,
{
    lemma_fact_monotone(m, 12);
    reveal_with_fuel(fact, 13);
    assert(fact(12) == 479001600);
}

/// The intermediate products recorded while computing `n!` by descending
/// recursion, in the order the recursive calls return: `[1!, 2!, ..., n!]`.
/// The base case's `0!` is never recorded, so `n = 0` yields an empty
/// sequence.
pub fn factorial_numbers(n: i32) -> (r: Vec<i32>)
    requires
        0 <= n <= MAX_FACTORIAL_INPUT,
    ensures
        r@.len() == n,
        forall|i: int| 0 <= i < r@.len() ==> r@[i] as int == fact((i + 1) as nat),
{
    let mut return_vector: Vec<i32> = Vec::new();
    let mut acc: i32 = 1;
    let mut k: i32 = 0;
    while k < n
        invariant
            0 <= k <= n <= MAX_FACTORIAL_INPUT,
            acc as int == fact(k as nat),
            return_vector@.len() == k,
            forall|i: int| 0 <= i < return_vector@.len() ==> return_vector@[i] as int == fact(
                (i + 1) as nat,
            ),
        decreases n - k,
    {
        proof {
            lemma_fact_fits_i32((k + 1) as nat);
            assert(fact((k + 1) as nat) == (k + 1) * fact(k as nat));
            assert(0 <= acc * (k + 1) && acc * (k + 1) == (k + 1) * fact(k as nat))
                by (nonlinear_arith)
                requires
                    acc as int == fact(k as nat),
                    k >= 0,
            ;
        }
        acc = acc * (k + 1);
        return_vector.push(acc);
        k = k + 1;
    }
    return_vector
}

} // verus!
