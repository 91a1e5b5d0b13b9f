//! The mathematical model the library's contracts are stated over: primality
//! of an integer, and the ascending sequence of primes below a bound.

use vstd::prelude::*;

verus! {

/// A number is prime when it is at least 2 and no number strictly between
/// 1 and itself divides it.
pub open spec fn spec_prime(n: int) -> bool {
    2 <= n && forall|d: int| 2 <= d < n ==> #[trigger] (n % d) != 0
}

/// The primes strictly below `n`, in ascending order.
pub open spec fn primes_upto(n: int) -> Seq<usize>
    recommends
        n <= usize::MAX + 1,
    decreases n,
{
    if n <= 2 {
        Seq::empty()
    } else if spec_prime(n - 1) {
        primes_upto(n - 1).push((n - 1) as usize)
    } else {
        primes_upto(n - 1)
    }
}

/// A prime-free gap adds nothing: if no number in `[a, b)` is prime, the
/// primes below `b` are exactly the primes below `a`.
pub proof fn lemma_primes_upto_gap(a: int, b: int)
    requires
        0 <= a <= b,
        forall|q: int| a <= q < b ==> !spec_prime(q),
    ensures
        primes_upto(b) == primes_upto(a),
    decreases b - a,
{
    if a < b {
        assert(!spec_prime(b - 1));
        lemma_primes_upto_gap(a, b - 1);
    }
}

/// Every prime is at least 2, so there are at most `n - 2` primes below `n`.
pub proof fn lemma_primes_upto_len(n: int)
    ensures
        primes_upto(n).len() <= (if n >= 2 { n - 2 } else { 0int }),
    decreases n,
{
    if n > 2 {
        lemma_primes_upto_len(n - 1);
    }
}

/// The primes below a smaller bound are a prefix of the primes below a
/// larger one.
pub proof fn lemma_primes_upto_prefix(a: int, b: int)
    requires
        a <= b,
    ensures
        primes_upto(a).is_prefix_of(primes_upto(b)),
    decreases b - a,
{
    if a == b {
        assert(primes_upto(a) =~= primes_upto(b).subrange(0, primes_upto(a).len() as int));
    } else {
        lemma_primes_upto_prefix(a, b - 1);
        let sa = primes_upto(a);
        let sb = primes_upto(b - 1);
        assert(sa =~= sb.subrange(0, sa.len() as int));
        if b > 2 && spec_prime(b - 1) {
            assert(sa =~= sb.push((b - 1) as usize).subrange(0, sa.len() as int));
        }
    }
}

/// When no primes lie below `n`, the empty result is complete.
pub proof fn lemma_primes_upto_empty(n: int)
    requires
        primes_upto(n).len() == 0,
    ensures
        forall|q: int| q < n ==> !spec_prime(q),
    decreases n,
{
    if n > 2 {
        assert(!spec_prime(n - 1));
        lemma_primes_upto_empty(n - 1);
    }
}

/// The last prime below `n` is prime, lies below `n`, and no prime sits
/// between it and `n`.
pub proof fn lemma_primes_upto_last(n: int)
    requires
        primes_upto(n).len() > 0,
        n <= usize::MAX + 1,
    ensures
        primes_upto(n).last() < n,
        spec_prime(primes_upto(n).last() as int),
        forall|q: int| primes_upto(n).last() < q < n ==> !spec_prime(q),
    decreases n,
{
    if n > 2 {
        if spec_prime(n - 1) {
            assert(primes_upto(n).last() == (n - 1) as usize);
        } else {
            lemma_primes_upto_last(n - 1);
            assert(forall|q: int| primes_upto(n).last() < q < n ==> !spec_prime(q));
        }
    }
}

} // verus!
