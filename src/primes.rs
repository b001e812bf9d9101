use vstd::arithmetic::div_mod::{
    lemma_fundamental_div_mod, lemma_mod_multiples_basic, lemma_mod_multiples_vanish, lemma_small_mod,
};
use vstd::prelude::*;

verus! {

/// `n` is prime: at least 2, and no number strictly between 1 and `n` divides it.
pub open spec fn is_prime(n: int) -> bool {
    n >= 2 && forall|d: int| 2 <= d < n ==> #[trigger] (n % d) != 0
}

/// `k` is at least 2 and has no divisor `d` with `2 <= d < bound` and `d * d <= k`:
/// what the sieve's marker for `k` says once every `d` below `bound` is done.
pub open spec fn unsieved(k: int, bound: int) -> bool {
    k >= 2 && forall|d: int| 2 <= d < bound && #[trigger] (d * d) <= k ==> k % d != 0
}

proof fn lemma_divides_trans(d: int, i: int, k: int)
    requires
        d > 0,
        i > 0,
        k >= 0,
        i % d == 0,
        k % i == 0,
    ensures
        k % d == 0,
{
    lemma_fundamental_div_mod(i, d);
    lemma_fundamental_div_mod(k, i);
    let a = i / d;
    let b = k / i;
    assert(k == d * (a * b)) by (nonlinear_arith)
        requires
            i == d * a,
            k == i * b,
    ;
    lemma_mod_multiples_basic(a * b, d);
    assert(d * (a * b) == (a * b) * d) by (nonlinear_arith);
}

proof fn lemma_square_monotone(a: int, b: int)
    requires
        0 <= a <= b,
    ensures
        a * a <= b * b,
{
    assert(a * a <= b * b) by (nonlinear_arith)
        requires
            0 <= a <= b,
    ;
}

/// Checking divisors up to the square root decides primality.
proof fn lemma_unsieved_is_prime(k: int)
    requires
        forall|d: int| 2 <= d && #[trigger] (d * d) <= k ==> k % d != 0,
    ensures
        k >= 2 ==> is_prime(k),
{
    if k >= 2 {
        assert forall|d: int| 2 <= d < k implies #[trigger] (k % d) != 0 by {
            if k % d == 0 {
                if d * d <= k {
                } else {
                    lemma_fundamental_div_mod(k, d);
                    let e = k / d;
                    assert(k == d * e);
                    assert(e >= 2 && e < d) by (nonlinear_arith)
                        requires
                            k == d * e,
                            2 <= d < k,
                            d * d > k,
                    ;
                    assert(e * e <= k) by (nonlinear_arith)
                        requires
                            k == d * e,
                            2 <= e < d,
                    ;
                    lemma_mod_multiples_basic(d, e);
                    assert(d * e == e * d) by (nonlinear_arith);
                    assert(k % e == 0);
                }
            }
        }
    }
}

proof fn lemma_prime_unsieved(k: int, bound: int)
    requires
        is_prime(k),
    ensures
        unsieved(k, bound),
{
    assert forall|d: int| 2 <= d < bound && #[trigger] (d * d) <= k implies k % d != 0 by {
        assert(d < k) by (nonlinear_arith)
            requires
                2 <= d,
                d * d <= k,
        ;
    }
}

proof fn lemma_next_multiple(j: int, i: int, k: int)
    requires
        i > 0,
        j >= 0,
        j % i == 0,
        j < k < j + i,
    ensures
        k % i != 0,
{
    lemma_fundamental_div_mod(j, i);
    assert(k == i * (j / i) + (k - j));
    lemma_mod_multiples_vanish(j / i, k - j, i);
    lemma_small_mod((k - j) as nat, i as nat);
}

/// The sieve of Eratosthenes: every prime up to `limit`, in ascending order.
/// `limit + 1` markers must fit in memory, hence the bound on `limit`.
pub fn sieve_of_eratosthenes(limit: usize) -> (r: Vec<usize>)
    requires
        limit < isize::MAX,
    ensures
        forall|a: int, b: int| 0 <= a < b < r.len() ==> r[a] < r[b],
        forall|a: int| 0 <= a < r.len() ==> r[a] <= limit && is_prime(r[a] as int),
        forall|p: int| 0 <= p <= limit && is_prime(p) ==> r@.contains(p as usize),
{
    let mut marks: Vec<bool> = Vec::new();
    let mut k: usize = 0;
    while k <= limit
        invariant
            k <= limit + 1,
            limit < isize::MAX,
            marks.len() == k,
            forall|m: int| 0 <= m < k ==> marks[m],
        decreases limit + 1 - k,
    {
        marks.push(true);
        k = k + 1;
    }
    marks.set(0, false);
    if limit > 0 {
        marks.set(1, false);
    }
    let mut i: usize = 2;
    while i <= limit / i
        invariant
            2 <= i <= limit + 2,
            limit < isize::MAX,
            marks.len() == limit + 1,
            forall|m: int| 0 <= m <= limit ==> marks[m] == unsieved(m, i as int),
        decreases limit + 2 - i,
    {
        proof {
            lemma_fundamental_div_mod(limit as int, i as int);
            assert(i * i <= limit) by (nonlinear_arith)
                requires
                    i <= limit / i,
                    limit == i * (limit / i) + limit % i,
                    limit % i >= 0,
                    i >= 2,
            ;
            assert(i <= limit) by (nonlinear_arith)
                requires
                    i * i <= limit,
                    i >= 2,
            ;
        }
        if marks[i] {
            let mut j: usize = i * i;
            proof {
                lemma_mod_multiples_basic(i as int, i as int);
            }
            while j <= limit
                invariant
                    2 <= i,
                    i * i <= limit,
                    i * i <= j <= limit + i,
                    j % i == 0,
                    limit < isize::MAX,
                    marks.len() == limit + 1,
                    forall|m: int|
                        0 <= m <= limit ==> marks[m] == (unsieved(m, i as int) && !(i * i <= m
                            && m < j && m % (i as int) == 0)),
                decreases limit + i - j,
            {
                marks.set(j, false);
                proof {
                    assert forall|m: int| j < m < j + i implies #[trigger] (m % (i as int)) != 0 by {
                        lemma_next_multiple(j as int, i as int, m);
                    }
                    lemma_fundamental_div_mod(j as int, i as int);
                    lemma_mod_multiples_vanish(j as int / i as int, i as int, i as int);
                    lemma_fundamental_div_mod(i as int, i as int);
                }
                j = j + i;
            }
            proof {
                assert forall|m: int| 0 <= m <= limit implies marks[m] == unsieved(
                    m,
                    i + 1,
                ) by {
                    if unsieved(m, i as int) && i * i <= m && m % (i as int) == 0 {
                        assert(!unsieved(m, i + 1));
                    } else if unsieved(m, i as int) {
                        assert forall|d: int|
                            2 <= d < i + 1 && #[trigger] (d * d) <= m implies m % d != 0 by {
                            if d < i {
                                assert(2 <= d < i && d * d <= m);
                            }
                        }
                    }
                }
            }
        } else {
            proof {
                assert forall|m: int| 0 <= m <= limit implies marks[m] == unsieved(
                    m,
                    i + 1,
                ) by {
                    if unsieved(m, i as int) && i * i <= m && m % (i as int) == 0 {
                        assert(!unsieved(i as int, i as int));
                        let d = choose|d: int|
                            2 <= d < i && #[trigger] (d * d) <= i && (i as int) % d == 0;
                        lemma_divides_trans(d, i as int, m);
                        assert(i <= i * i) by (nonlinear_arith)
                            requires
                                i >= 2,
                        ;
                        assert(d * d <= m);
                        assert(!unsieved(m, i + 1));
                    } else if unsieved(m, i as int) {
                        assert forall|d: int|
                            2 <= d < i + 1 && #[trigger] (d * d) <= m implies m % d != 0 by {
                            if d < i {
                                assert(2 <= d < i && d * d <= m);
                            }
                        }
                    } else if m >= 2 {
                        let d = choose|d: int|
                            2 <= d < i && #[trigger] (d * d) <= m && m % d == 0;
                        assert(2 <= d < i + 1 && d * d <= m);
                    }
                }
            }
        }
        i = i + 1;
    }
    proof {
        lemma_fundamental_div_mod(limit as int, i as int);
        assert(i * i > limit) by (nonlinear_arith)
            requires
                i > limit / i,
                limit == i * (limit / i) + limit % i,
                limit % i < i,
                i >= 2,
        ;
        assert forall|m: int| 0 <= m <= limit implies marks[m] == is_prime(m) by {
            if marks[m] {
                assert(unsieved(m, i as int));
                assert forall|d: int| 2 <= d && #[trigger] (d * d) <= m implies m % d != 0 by {
                    if d < i {
                        assert(2 <= d < i && d * d <= m);
                    } else {
                        lemma_square_monotone(i as int, d);
                    }
                }
                lemma_unsieved_is_prime(m);
            } else if is_prime(m) {
                lemma_prime_unsieved(m, i as int);
            }
        }
    }
    let mut primes: Vec<usize> = Vec::new();
    let mut k: usize = 0;
    while k <= limit
        invariant
            k <= limit + 1,
            limit < isize::MAX,
            marks.len() == limit + 1,
            forall|m: int| 0 <= m <= limit ==> marks[m] == is_prime(m),
            forall|a: int, b: int| 0 <= a < b < primes.len() ==> primes[a] < primes[b],
            forall|a: int|
                0 <= a < primes.len() ==> primes[a] < k && is_prime(primes[a] as int),
            forall|p: int| 0 <= p < k && is_prime(p) ==> primes@.contains(p as usize),
        decreases limit + 1 - k,
    {
        if marks[k] {
            let ghost before = primes@;
            primes.push(k);
            proof {
                assert(primes@[before.len() as int] == k);
                assert forall|p: int| 0 <= p < k + 1 && is_prime(p) implies primes@.contains(
                    p as usize,
                ) by {
                    if p < k {
                        let w = choose|w: int| 0 <= w < before.len() && before[w] == p as usize;
                        assert(primes@[w] == p as usize);
                    }
                }
            }
        }
        k = k + 1;
    }
    primes
}

} // verus!
