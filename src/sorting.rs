//! The sort workload: a descending run of distinct integers sorted ascending.
use vstd::prelude::*;

verus! {

/// Relies on slice::sort: the slice ends up in non-decreasing order and
/// holds the same elements as before.
#[verifier::external_body]
fn sort_ascending(v: &mut Vec<i32>)
    ensures
        final(v)@.to_multiset() == old(v)@.to_multiset(),
        forall|a: int, b: int| 0 <= a <= b < final(v)@.len() ==> final(v)[a] <= final(v)[b],
{
    v.sort();
}

/// The values `n - 1, n - 2, ..., 0`.
pub fn descending_values(n: i32) -> (r: Vec<i32>)
    requires
        n >= 0,
    ensures
        r@.len() == n,
        forall|k: int| 0 <= k < n ==> r[k] == n - 1 - k,
{
    let mut r: Vec<i32> = Vec::new();
    let mut next: i32 = n;
    while next > 0
        invariant
            0 <= next <= n,
            r@.len() == n - next,
            forall|k: int| 0 <= k < n - next ==> r[k] == n - 1 - k,
        decreases next,
    {
        next = next - 1;
        r.push(next);
    }
    r
}

/// Builds `n - 1, ..., 0` and sorts it: the result is exactly `0, ..., n - 1`
/// as a set, in strictly ascending order.
pub fn sort_descending_run(n: i32) -> (r: Vec<i32>)
    requires
        n >= 0,
    ensures
        r@.len() == n,
        forall|a: int, b: int| 0 <= a < b < r@.len() ==> r[a] < r[b],
        forall|x: i32| r@.contains(x) <==> 0 <= x < n,
{
    let mut v = descending_values(n);
    let ghost input = v@;
    proof {
        assert(input.no_duplicates());
        input.lemma_multiset_has_no_duplicates();
        input.to_multiset_ensures();
    }
    sort_ascending(&mut v);
    proof {
        v@.to_multiset_ensures();
        v@.lemma_multiset_has_no_duplicates_conv();
        assert forall|x: i32| v@.contains(x) <==> 0 <= x < n by {
            assert(v@.to_multiset().count(x) == input.to_multiset().count(x));
            assert(v@.contains(x) == input.contains(x));
            if 0 <= x < n {
                assert(input[n - 1 - x] == x);
            }
        }
        assert forall|a: int, b: int| 0 <= a < b < v@.len() implies v[a] < v[b] by {
            assert(v[a] != v[b]);
        }
    }
    v
}

} // verus!
