//! Ready-made prime streams: compositions of a prime source, a bridge and a
//! fresh channel.

use vstd::prelude::*;

use crate::bridge::Bridge;
use crate::bridge::make_bounded_bridge;
use crate::bridge::make_unbounded_bridge;
use crate::channel::sender_cap;
use crate::channel::sent_log;
use crate::primality::lemma_primes_upto_len;
use crate::primality::primes_upto;
use crate::sieve::SievePrimeSource;
use crate::sieve::estimate_prime_count;
use crate::sieve::prime_pi_bounds;
use crate::source::ValueSource;
use crate::stream::PrimeStreamSource;

verus! {

/// The channel capacity the bounded generators pick for `limit`: the
/// estimator's upper bound on the count of primes up to `limit`, clamped to
/// what a `usize` can hold.
pub open spec fn spec_capacity_for(limit: usize) -> usize {
    if prime_pi_bounds(limit).1 <= usize::MAX {
        prime_pi_bounds(limit).1 as usize
    } else {
        usize::MAX
    }
}

/// All primes in ascending order over an unlimited-capacity channel: the
/// producer never blocks, so the consumer must drop the receiving end to
/// stop it.
pub fn primes_unbounded() -> (r: (
    Bridge<PrimeStreamSource>,
    crossbeam::channel::Receiver<usize>,
))
    ensures
        r.0.source.inv(),
        r.0.source.log() == Seq::<usize>::empty(),
        !r.0.source.exhausted(),
        sent_log(r.0.tx) == Seq::<usize>::empty(),
        sender_cap(r.0.tx) is None,
{
    make_unbounded_bridge(PrimeStreamSource::new())
}

/// The primes up to and including `limit`, over a channel whose capacity is
/// a proven upper bound on their count: the sequence is self-truncating, so
/// the producer always fits everything into the channel and completes even
/// if nothing is ever read.
pub fn primes_bounded(limit: usize) -> (r: (
    Bridge<SievePrimeSource>,
    crossbeam::channel::Receiver<usize>,
))
    ensures
        r.0.source.inv(),
        r.0.source.log() == Seq::<usize>::empty(),
        !r.0.source.exhausted(),
        r.0.source.total() == Some(primes_upto(limit as int + 1)),
        sent_log(r.0.tx) == Seq::<usize>::empty(),
        sender_cap(r.0.tx) matches Some(c) && primes_upto(limit as int + 1).len() <= c,
        sender_cap(r.0.tx) == Some(spec_capacity_for(limit)),
{
    let (_low, high) = estimate_prime_count(limit);
    let capacity: usize = if high <= usize::MAX as u64 {
        high as usize
    } else {
        proof {
            lemma_primes_upto_len(limit as int + 1);
        }
        usize::MAX
    };
    let source = SievePrimeSource::new(limit);
    make_bounded_bridge(source, capacity)
}

/// Like `primes_bounded`, but without the self-truncation: the view runs to
/// the sieve's actual upper bound, past `limit`, while the capacity is sized
/// only to the estimate for `limit`. If the sieve holds more primes than the
/// estimate, the producer stalls until the consumer drains — a documented
/// risk of this variant, not an error.
pub fn primes_bounded_approx(limit: usize) -> (r: (
    Bridge<SievePrimeSource>,
    crossbeam::channel::Receiver<usize>,
))
    ensures
        r.0.source.inv(),
        r.0.source.log() == Seq::<usize>::empty(),
        !r.0.source.exhausted(),
        r.0.source.spec_limit() >= limit,
        r.0.source.total() == Some(primes_upto(r.0.source.spec_limit() as int + 1)),
        sent_log(r.0.tx) == Seq::<usize>::empty(),
        sender_cap(r.0.tx) == Some(spec_capacity_for(limit)),
{
    let (_low, high) = estimate_prime_count(limit);
    let capacity: usize = if high <= usize::MAX as u64 {
        high as usize
    } else {
        usize::MAX
    };
    let source = SievePrimeSource::new_to_upper_bound(limit);
    make_bounded_bridge(source, capacity)
}

/// A receiving end kept beside the sieve that backs the primes it reads.
pub struct PrimesBounded {
    pub recv: crossbeam::channel::Receiver<usize>,
    pub(crate) sieve: primal::Sieve,
}

/// A source kept beside the sieve that backs it.
pub struct PrimesBoundedIterator<S: ValueSource> {
    pub(crate) it: S,
    pub(crate) sieve: primal::Sieve,
}

} // verus!
