//! A prime source backed by a sieve: the backing store (the sieve table) and
//! the borrowing view (a scan position into it) live side by side in one
//! relocatable value, so the pair can move onto a producer task as a unit
//! and no reference into the store is ever held.

use vstd::prelude::*;

use crate::primality::lemma_primes_upto_gap;
use crate::primality::lemma_primes_upto_prefix;
use crate::primality::primes_upto;
use crate::primality::spec_prime;
use crate::source::ValueSource;

verus! {

#[verifier::external_type_specification]
#[verifier::external_body]
pub struct ExSieve(primal::Sieve);

/// The largest number the sieve holds primality information for (its
/// `upper_bound`); queries up to it are valid.
pub uninterp spec fn sieve_covers(s: primal::Sieve) -> usize;

/// Relies on primal::Sieve::new: the sieve covers every number up to at
/// least `limit`.
#[verifier::external_body]
pub(crate) fn sieve_new(limit: usize) -> (s: primal::Sieve)
    ensures
        sieve_covers(s) >= limit,
{
    primal::Sieve::new(limit)
}

/// Relies on primal::Sieve::upper_bound: the exact extent of the sieve.
#[verifier::external_body]
pub(crate) fn sieve_upper_bound(s: &primal::Sieve) -> (r: usize)
    ensures
        r == sieve_covers(*s),
{
    s.upper_bound()
}

/// Relies on primal::Sieve::is_prime: exact primality for any number within
/// the sieved range. It panics above the sieve's upper bound, which the
/// precondition rules out.
#[verifier::external_body]
pub(crate) fn sieve_is_prime(s: &primal::Sieve, n: usize) -> (r: bool)
    requires
        n <= sieve_covers(*s),
    ensures
        r == spec_prime(n as int),
{
    s.is_prime(n)
}

/// The interval primal's estimator returns for the count of primes up to
/// and including `limit`: a pure function of `limit` alone.
pub uninterp spec fn prime_pi_bounds(limit: usize) -> (u64, u64);

/// Relies on primal::estimate_prime_pi: proven lower and upper bounds on the
/// count of primes up to and including `limit`, computed from `limit` alone.
#[verifier::external_body]
pub(crate) fn estimate_prime_count(limit: usize) -> (r: (u64, u64))
    ensures
        r == prime_pi_bounds(limit),
        r.0 as int <= primes_upto(limit as int + 1).len() <= r.1 as int,
{
    primal::estimate_prime_pi(limit as u64)
}

/// A self-truncating ascending prime sequence over `[0, limit]`, read off a
/// sieve it owns. Its complete yield is known in advance: exactly the primes
/// up to `limit`.
pub struct SievePrimeSource {
    pub(crate) sieve: primal::Sieve,
    pub(crate) pos: usize,
    pub(crate) limit: usize,
    pub(crate) done: bool,
}

impl SievePrimeSource {
    /// How far the view has consumed: primes below this bound were yielded.
    pub open(crate) spec fn cut(&self) -> int {
        if self.done {
            self.limit + 1
        } else {
            self.pos as int
        }
    }

    /// The inclusive upper end of the range this view enumerates.
    pub open(crate) spec fn spec_limit(&self) -> usize {
        self.limit
    }

    /// Build a sieve over `[0, limit]` and a view positioned at its start.
    pub fn new(limit: usize) -> (s: Self)
        ensures
            s.inv(),
            s.log() == Seq::<usize>::empty(),
            !s.exhausted(),
            s.spec_limit() == limit,
            s.total() == Some(primes_upto(limit as int + 1)),
    {
        let sieve = sieve_new(limit);
        SievePrimeSource { sieve, pos: 0, limit, done: false }
    }

    /// Build a sieve over `[0, limit]` but let the view run to the sieve's
    /// actual upper bound, past `limit`: no self-truncation at `limit`.
    pub fn new_to_upper_bound(limit: usize) -> (s: Self)
        ensures
            s.inv(),
            s.log() == Seq::<usize>::empty(),
            !s.exhausted(),
            s.spec_limit() >= limit,
            s.total() == Some(primes_upto(s.spec_limit() as int + 1)),
    {
        let sieve = sieve_new(limit);
        let bound = sieve_upper_bound(&sieve);
        SievePrimeSource { sieve, pos: 0, limit: bound, done: false }
    }
}

impl ValueSource for SievePrimeSource {
    open(crate) spec fn inv(&self) -> bool {
        &&& self.limit <= sieve_covers(self.sieve)
        &&& !self.done ==> self.pos <= self.limit
    }

    open(crate) spec fn log(&self) -> Seq<usize> {
        primes_upto(self.cut())
    }

    open(crate) spec fn exhausted(&self) -> bool {
        self.done
    }

    open(crate) spec fn total(&self) -> Option<Seq<usize>> {
        Some(primes_upto(self.limit as int + 1))
    }

    open(crate) spec fn measure(&self) -> nat {
        (self.limit + 1 - self.cut()) as nat
    }

    fn next_item(&mut self) -> (r: Option<usize>) {
        if self.done {
            proof {
                lemma_primes_upto_prefix(self.cut(), self.limit as int + 1);
            }
            return None;
        }
        let mut cur: usize = self.pos;
        loop
            invariant
                *self == *old(self),
                self.inv(),
                !self.done,
                self.pos <= cur <= self.limit,
                forall|q: int| self.pos <= q < cur ==> !spec_prime(q),
            decreases self.limit - cur,
        {
            if sieve_is_prime(&self.sieve, cur) {
                proof {
                    lemma_primes_upto_gap(self.pos as int, cur as int);
                    assert(primes_upto(cur as int + 1) == primes_upto(cur as int).push(cur));
                }
                if cur == self.limit {
                    self.done = true;
                } else {
                    self.pos = cur + 1;
                }
                proof {
                    lemma_primes_upto_prefix(self.cut(), self.limit as int + 1);
                }
                return Some(cur);
            }
            if cur == self.limit {
                self.done = true;
                proof {
                    lemma_primes_upto_gap(self.pos as int, self.limit as int + 1);
                }
                return None;
            }
            cur = cur + 1;
        }
    }
}

} // verus!
