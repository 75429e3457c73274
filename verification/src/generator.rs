//! A resumable producer of Fibonacci terms over a numeric type, and the
//! one-shot indexed accessor built on it.

use vstd::prelude::*;

use crate::number::Number;
use crate::terms::fib;
use crate::terms::lemma_fib_is_monotonic;

verus! {

/// What an unbounded production run yields at step `k`, counting from zero:
/// the k-th Fibonacci term while that term is representable in `T`, and
/// nothing from the first unrepresentable term on.
pub open spec fn producer_output<T: Number>(k: nat) -> Option<int> {
    if T::in_range(fib(k) as int) {
        Some(fib(k) as int)
    } else {
        None
    }
}

/// A restartable producer of Fibonacci terms over the numeric type `T`.
///
/// A fresh generator emits 0, 1, 1, 2, 3, 5, ... — one term per call of
/// [`Fibonacci::next`] — and reports end of sequence exactly one call after
/// the last term representable in `T`. Once it has reported end of
/// sequence it does so forever; it never stores or returns a wrapped-around
/// value.
#[derive(Clone, Copy)]
pub struct Fibonacci<T: Number> {
    previous: Option<T>,
    current: Option<T>,
    emitted: Ghost<nat>,
}

impl<T: Number> Fibonacci<T> {
    /// How many terms this generator has emitted so far.
    pub closed spec fn emitted(self) -> nat {
        self.emitted@
    }

    /// The most recent production attempt overflowed `T`: the generator is
    /// exhausted and every later call of `next` reports end of sequence.
    pub closed spec fn exhausted(self) -> bool {
        self.current is None && self.previous is Some
    }

    /// The fields hold exactly what the count of emitted terms dictates: a
    /// fresh generator holds nothing; afterwards `previous` holds the last
    /// emitted term and `current` holds the term to emit next, absent
    /// exactly when that term no longer fits `T`.
    pub closed spec fn wf(self) -> bool {
        if self.emitted@ == 0 {
            self.previous is None && self.current is None
        } else {
            &&& self.previous is Some
            &&& self.previous->0.value() == fib((self.emitted@ - 1) as nat) as int
            &&& T::in_range(fib((self.emitted@ - 1) as nat) as int)
            &&& match self.current {
                Some(c) => c.value() == fib(self.emitted@) as int
                    && T::in_range(fib(self.emitted@) as int),
                None => !T::in_range(fib(self.emitted@) as int),
            }
        }
    }

    /// A fresh generator; its first call of `next` emits the 0th term.
    pub fn new() -> (r: Self)
        ensures
            r.wf(),
            r.emitted() == 0,
            !r.exhausted(),
    {
        Fibonacci { previous: None, current: None, emitted: Ghost(0) }
    }

    /// Whether the last production attempt overflowed `T`.
    pub fn has_overflowed(&self) -> (r: bool)
        ensures
            r == self.exhausted(),
    {
        self.current.is_none() && self.previous.is_some()
    }

    /// Produce the next term: the k-th Fibonacci term, where k is the
    /// number of terms already emitted, for as long as that term fits `T`.
    /// An exhausted generator stays exhausted and keeps reporting end of
    /// sequence (`None`), unchanged.
    pub fn next(&mut self) -> (r: Option<T>)
        requires
            old(self).wf(),
        ensures
            final(self).wf(),
            old(self).exhausted() ==> r is None && *final(self) == *old(self),
            !old(self).exhausted() ==> {
                &&& final(self).emitted() == old(self).emitted() + 1
                &&& r is Some
                &&& r->0.value() == fib(old(self).emitted()) as int
                &&& T::in_range(fib(old(self).emitted()) as int)
                &&& producer_output::<T>(old(self).emitted()) == Some(r->0.value())
                &&& (final(self).exhausted() <==> producer_output::<T>(final(self).emitted()) is None)
            },
    {
        if self.has_overflowed() {
            return None;
        }
        let ghost k: nat = self.emitted@;
        proof {
            T::zero_in_range();
        }
        // The term emitted this call: the stored current term, or zero on
        // the very first call.
        let cur = match &self.current {
            Some(c) => c.duplicate(),
            None => T::zero(),
        };
        // The implicit predecessor of the 0th term is one, so the second
        // call correctly emits 1.
        let prev = match &self.previous {
            Some(p) => p.duplicate(),
            None => T::one(),
        };
        proof {
            assert(cur.value() + prev.value() == fib(k + 1) as int);
        }
        let succ = cur.checked_add(&prev);
        let out = cur.duplicate();
        self.previous = Some(cur);
        self.current = succ;
        self.emitted = Ghost(k + 1);
        Some(out)
    }

    /// The n-th Fibonacci term, exactly when it is representable in `T`.
    ///
    /// When it is not, the failure names the largest index whose term is
    /// representable, together with that term — the identical pair for
    /// every index past it.
    pub fn f(n: usize) -> (r: Result<T, (usize, T)>)
        ensures
            match r {
                Ok(v) => T::in_range(fib(n as nat) as int) && v.value() == fib(n as nat) as int,
                Err((m, v)) => {
                    &&& !T::in_range(fib(n as nat) as int)
                    &&& m < n
                    &&& T::in_range(fib(m as nat) as int)
                    &&& !T::in_range(fib(m as nat + 1) as int)
                    &&& v.value() == fib(m as nat) as int
                },
            },
    {
        let mut source = Fibonacci::<T>::new();
        let mut last: Option<T> = None;
        let mut i: usize = 0;
        // Run exactly n production steps — never n + 1, which could not be
        // counted when n is the largest index value — and consult the
        // producer once more after the loop.
        while i < n
            invariant
                i <= n,
                source.wf(),
                source.emitted() == i,
                i == 0 ==> last is None,
                i >= 1 ==> last is Some && last->0.value() == fib((i - 1) as nat) as int,
            decreases n - i,
        {
            match source.next() {
                Some(v) => {
                    last = Some(v);
                }
                None => {
                    // Only an exhausted generator declines, and a generator
                    // cannot be exhausted before emitting at least one term,
                    // so the term at index i - 1 was emitted and the term at
                    // index i overflowed: (i - 1, that term) is the pair.
                    proof {
                        lemma_fib_is_monotonic(i as nat, n as nat);
                        if T::in_range(fib(n as nat) as int) {
                            T::in_range_downward(fib(i as nat) as int, fib(n as nat) as int);
                        }
                    }
                    let m: usize = i - 1;
                    return match last {
                        Some(v) => Err((m, v)),
                        None => unreached(),
                    };
                }
            }
            i = i + 1;
        }
        match source.next() {
            Some(v) => Ok(v),
            None => {
                let m: usize = n - 1;
                match last {
                    Some(v) => Err((m, v)),
                    None => unreached(),
                }
            }
        }
    }
}

/// Every index up to one whose term is representable also has a
/// representable term; by the contract of [`Fibonacci::f`], the accessor
/// therefore succeeds on every index from 0 up to the largest index whose
/// term fits `T`, returning exactly the standard sequence.
pub proof fn lemma_representable_below<T: Number>(n: nat, m: nat)
    requires
        n <= m,
        T::in_range(fib(m) as int),
    ensures
        T::in_range(fib(n) as int),
{
    lemma_fib_is_monotonic(n, m);
    T::in_range_downward(fib(n) as int, fib(m) as int);
}

/// Saturation: there is only one index whose term is representable while
/// the following term is not, so — by the contract of [`Fibonacci::f`] —
/// every call past the overflow threshold fails with the identical pair of
/// that index and its term.
pub proof fn lemma_saturation<T: Number>(m1: nat, m2: nat)
    requires
        T::in_range(fib(m1) as int),
        !T::in_range(fib(m1 + 1) as int),
        T::in_range(fib(m2) as int),
        !T::in_range(fib(m2 + 1) as int),
    ensures
        m1 == m2,
{
    if m1 < m2 {
        lemma_representable_below::<T>(m1 + 1, m2);
    }
    if m2 < m1 {
        lemma_representable_below::<T>(m2 + 1, m1);
    }
}

/// The producer and the one-shot accessor agree: the n-th production
/// output — what the (n + 1)-th call of [`Fibonacci::next`] on a fresh
/// generator emits — carries a value exactly when the n-th term is
/// representable in `T`, the very condition under which [`Fibonacci::f`]
/// returns that term, and the values coincide.
pub proof fn lemma_producer_matches_accessor<T: Number>(n: nat)
    ensures
        producer_output::<T>(n) is Some <==> T::in_range(fib(n) as int),
        producer_output::<T>(n) is Some ==> producer_output::<T>(n)->0 == fib(n) as int,
{
}

impl<T: Number> Default for Fibonacci<T> {
    /// Same as [`Fibonacci::new`]: a fresh generator.
    fn default() -> (r: Self)
        ensures
            r.wf(),
            r.emitted() == 0,
            !r.exhausted(),
    {
        Fibonacci::new()
    }
}

} // verus!
