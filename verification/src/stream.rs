//! An unbounded ascending prime source, backed by primal's incremental
//! prime iterator.

use vstd::prelude::*;

use crate::primality::lemma_primes_upto_empty;
use crate::primality::lemma_primes_upto_gap;
use crate::primality::lemma_primes_upto_last;
use crate::primality::primes_upto;
use crate::primality::spec_prime;
use crate::source::ValueSource;

verus! {

#[verifier::external_type_specification]
#[verifier::external_body]
pub struct ExPrimes(primal::Primes);

/// The primes this iterator has yielded so far, oldest first.
pub uninterp spec fn primes_yielded(p: primal::Primes) -> Seq<usize>;

/// Relies on primal::Primes::all: a fresh iterator that has yielded nothing.
#[verifier::external_body]
pub(crate) fn primes_all() -> (p: primal::Primes)
    ensures
        primes_yielded(p) == Seq::<usize>::empty(),
{
    primal::Primes::all()
}

/// Relies on primal::Primes::next (through Iterator): it yields the primes
/// in ascending order, starting at 2 and skipping none; `None` comes only
/// once the next prime would not fit in `usize`.
#[verifier::external_body]
pub(crate) fn primes_next(p: &mut primal::Primes) -> (r: Option<usize>)
    ensures
        r matches Some(v) ==> {
            &&& spec_prime(v as int)
            &&& primes_yielded(*final(p)) == primes_yielded(*old(p)).push(v)
            &&& (primes_yielded(*old(p)).len() == 0 ==> forall|q: int|
                q < v ==> !spec_prime(q))
            &&& (primes_yielded(*old(p)).len() > 0 ==> primes_yielded(*old(p)).last() < v
                && forall|q: int|
                primes_yielded(*old(p)).last() < q < v ==> !spec_prime(q))
        },
        r is None ==> primes_yielded(*final(p)) == primes_yielded(*old(p)),
{
    p.next()
}

/// The lazy, infinite, non-restartable ascending sequence of primes: after
/// `k` yields, the log is exactly the first `k` primes.
pub struct PrimeStreamSource {
    pub(crate) inner: primal::Primes,
    pub(crate) done: bool,
    pub(crate) cursor: Ghost<int>,
}

impl PrimeStreamSource {
    /// A fresh stream, positioned before 2.
    pub fn new() -> (s: Self)
        ensures
            s.inv(),
            s.log() == Seq::<usize>::empty(),
            !s.exhausted(),
    {
        let s = PrimeStreamSource { inner: primes_all(), done: false, cursor: Ghost(0) };
        s
    }
}

impl ValueSource for PrimeStreamSource {
    open(crate) spec fn inv(&self) -> bool {
        &&& primes_yielded(self.inner) == primes_upto(self.cursor@)
        &&& 0 <= self.cursor@ <= usize::MAX + 1
    }

    open(crate) spec fn log(&self) -> Seq<usize> {
        primes_yielded(self.inner)
    }

    open(crate) spec fn exhausted(&self) -> bool {
        self.done
    }

    open(crate) spec fn total(&self) -> Option<Seq<usize>> {
        None
    }

    open(crate) spec fn measure(&self) -> nat {
        (usize::MAX + 1 - self.cursor@) as nat
    }

    fn next_item(&mut self) -> (r: Option<usize>) {
        if self.done {
            return None;
        }
        let r = primes_next(&mut self.inner);
        match r {
            Some(v) => {
                proof {
                    let c = old(self).cursor@;
                    if primes_upto(c).len() == 0 {
                        lemma_primes_upto_empty(c);
                    } else {
                        lemma_primes_upto_last(c);
                    }
                    assert(c <= v as int);
                    lemma_primes_upto_gap(c, v as int);
                    assert(primes_upto(v as int + 1) == primes_upto(v as int).push(v));
                    self.cursor@ = v as int + 1;
                }
                Some(v)
            },
            None => {
                self.done = true;
                None
            },
        }
    }
}

} // verus!
