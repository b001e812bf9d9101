use vstd::arithmetic::power2::{lemma2_to64, lemma_pow2_unfold, pow2};
use vstd::prelude::*;

verus! {

/// The Fibonacci sequence: `fib(0) == 0`, `fib(1) == 1`.
pub open spec fn fib(n: nat) -> nat
    decreases n,
{
    if n == 0 {
        0
    } else if n == 1 {
        1
    } else {
        fib((n - 1) as nat) + fib((n - 2) as nat)
    }
}

/// `fib(n) < 2^n`, a coarse bound that shows which inputs fit in a `u64`.
pub proof fn lemma_fib_below_pow2(n: nat)
    ensures
        fib(n) < pow2(n),
    decreases n,
{
    lemma2_to64();
    if n >= 2 {
        lemma_fib_below_pow2((n - 1) as nat);
        lemma_fib_below_pow2((n - 2) as nat);
        lemma_pow2_unfold(n);
        lemma_pow2_unfold((n - 1) as nat);
    }
}

/// `fib` never decreases.
pub proof fn lemma_fib_monotone(m: nat, n: nat)
    requires
        m <= n,
    ensures
        fib(m) <= fib(n),
    decreases n - m,
{
    if m < n {
        lemma_fib_monotone(m, (n - 1) as nat);
    }
}

/// Every `n` up to 64 has a Fibonacci number that fits in a `u64`.
pub proof fn lemma_fib_fits_u64(n: nat)
    requires
        n <= 64,
    ensures
        fib(n) <= u64::MAX,
{
    lemma_fib_below_pow2(64);
    lemma_fib_monotone(n, 64);
    lemma2_to64();
}

/// Naive double recursion, exponential in `n` on purpose.
pub fn fibonacci(n: u32) -> (r: u64)
    requires
        fib(n as nat) <= u64::MAX,
    ensures
        r == fib(n as nat),
    decreases n,
{
    match n {
        0 => 0,
        1 => 1,
        _ => {
            proof {
                lemma_fib_monotone((n - 1) as nat, n as nat);
                lemma_fib_monotone((n - 2) as nat, n as nat);
            }
            fibonacci(n - 1) + fibonacci(n - 2)
        },
    }
}

} // verus!
