//! The Fibonacci sequence as a mathematical function, and the facts about
//! it that the rest of the library builds on.

use vstd::prelude::*;

verus! {

/// The n-th Fibonacci term, indexed from zero: 0, 1, 1, 2, 3, 5, 8, ...
pub open spec fn fib(n: nat) -> nat
    decreases n,
{
    if n == 0 {
        0
    } else if n == 1 {
        1
    } else {
        fib((n - 2) as nat) + fib((n - 1) as nat)
    }
}

/// The sequence never decreases from one index to a later one.
pub proof fn lemma_fib_is_monotonic(i: nat, j: nat)
    requires
        i <= j,
    ensures
        fib(i) <= fib(j),
    decreases j - i,
{
    if i < j {
        lemma_fib_is_monotonic(i, (j - 1) as nat);
        assert(fib(j) >= fib((j - 1) as nat));
    }
}

} // verus!
