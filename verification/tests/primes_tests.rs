use primal_crossbeam::primes_bounded;
use primal_crossbeam::primes_bounded_approx;
use primal_crossbeam::primes_unbounded;
use primal_crossbeam::SievePrimeSource;
use primal_crossbeam::ValueSource;

use std::time::Duration;

fn drain(rx: &crossbeam::channel::Receiver<usize>) -> Vec<usize> {
    let mut out: Vec<usize> = Vec::new();
    loop {
        match rx.recv_timeout(Duration::from_secs(10)) {
            Ok(v) => out.push(v),
            Err(_) => break,
        }
    }
    out
}

fn is_prime_naive(n: usize) -> bool {
    if n < 2 {
        return false;
    }
    let mut d: usize = 2;
    while d < n {
        if n % d == 0 {
            return false;
        }
        d += 1;
    }
    true
}

#[test]
fn unbounded_primes_start_with_two_three_five() {
    let (bridge, rx) = primes_unbounded();
    crossbeam::scope(|sc| {
        sc.spawn(move |_| {
            let mut bridge = bridge;
            bridge.run();
        });
        assert_eq!(rx.recv_timeout(Duration::from_secs(10)), Ok(2));
        assert_eq!(rx.recv_timeout(Duration::from_secs(10)), Ok(3));
        assert_eq!(rx.recv_timeout(Duration::from_secs(10)), Ok(5));
        // Dropping the receiving end cancels the producer: the next send
        // fails, so the spawned task finishes and the scope can join.
        drop(rx);
    })
    .unwrap();
}

#[test]
fn early_cancellation_finishes_the_producer() {
    let (bridge, rx) = primes_unbounded();
    crossbeam::scope(|sc| {
        sc.spawn(move |_| {
            let mut bridge = bridge;
            bridge.run();
        });
        // Read nothing at all; the producer must still terminate once the
        // receiving end is gone, or the scope join would hang.
        drop(rx);
    })
    .unwrap();
}

#[test]
fn bounded_primes_complete_without_a_consumer() {
    let (bridge, rx) = primes_bounded(10);
    // The sequence truncates itself at the limit and the capacity is a true
    // upper bound on the count of primes, so the producer finishes even
    // though nothing reads before the join.
    crossbeam::scope(|sc| {
        sc.spawn(move |_| {
            let mut bridge = bridge;
            bridge.run();
        });
    })
    .unwrap();
    assert_eq!(drain(&rx), vec![2, 3, 5, 7]);
    assert!(rx.recv_timeout(Duration::from_millis(50)).is_err());
}

#[test]
fn bounded_primes_of_zero_and_one_are_empty() {
    for limit in [0usize, 1usize] {
        let (bridge, rx) = primes_bounded(limit);
        crossbeam::scope(|sc| {
            sc.spawn(move |_| {
                let mut bridge = bridge;
                bridge.run();
            });
        })
        .unwrap();
        assert_eq!(drain(&rx), Vec::<usize>::new());
    }
}

#[test]
fn relocated_view_yields_what_a_direct_view_yields() {
    // One sieve-backed view is moved onto a producer task and drained over
    // a channel; an identically built one is read in place.
    let (bridge, rx) = primes_bounded(100);
    let relocated = crossbeam::scope(|sc| {
        sc.spawn(move |_| {
            let mut bridge = bridge;
            bridge.run();
        });
        drain(&rx)
    })
    .unwrap();

    let mut direct_view = SievePrimeSource::new(100);
    let mut direct: Vec<usize> = Vec::new();
    while let Some(p) = direct_view.next_item() {
        direct.push(p);
    }

    assert_eq!(relocated, direct);
    assert_eq!(direct.first(), Some(&2));
    assert_eq!(direct.last(), Some(&97));
    assert_eq!(direct.len(), 25);
}

#[test]
fn approx_bounded_primes_run_past_the_limit() {
    let (bridge, rx) = primes_bounded_approx(10);
    // The view is not truncated at the limit, so it may hold more primes
    // than the estimated capacity; a concurrent consumer must drain it.
    let received = crossbeam::scope(|sc| {
        sc.spawn(move |_| {
            let mut bridge = bridge;
            bridge.run();
        });
        drain(&rx)
    })
    .unwrap();
    assert!(received.len() >= 4);
    assert_eq!(&received[..4], &[2, 3, 5, 7]);
    for window in received.windows(2) {
        assert!(window[0] < window[1]);
    }
    for p in &received {
        assert!(is_prime_naive(*p));
    }
}
