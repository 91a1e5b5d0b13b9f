use primal_crossbeam::make_bounded_bridge;
use primal_crossbeam::make_unbounded_bridge;
use primal_crossbeam::IteratorWithPrivateData;
use primal_crossbeam::ValueSource;
use primal_crossbeam::VecSource;

use std::time::Duration;

fn drain(rx: &crossbeam::channel::Receiver<usize>) -> Vec<usize> {
    let mut out: Vec<usize> = Vec::new();
    loop {
        match rx.recv_timeout(Duration::from_secs(10)) {
            Ok(v) => out.push(v),
            Err(_) => break,
        }
    }
    out
}

#[test]
fn vec_source_yields_in_order_and_stays_exhausted() {
    let mut s = VecSource::new(vec![42, 7]);
    assert_eq!(s.next_item(), Some(42));
    assert_eq!(s.next_item(), Some(7));
    assert_eq!(s.next_item(), None);
    assert_eq!(s.next_item(), None);
}

#[test]
fn order_preserved_through_unbounded_bridge() {
    let items: Vec<usize> = vec![10, 20, 30, 40];
    let (bridge, rx) = make_unbounded_bridge(VecSource::new(items.clone()));
    let received = crossbeam::scope(|sc| {
        sc.spawn(move |_| {
            let mut bridge = bridge;
            bridge.run();
        });
        drain(&rx)
    })
    .unwrap();
    assert_eq!(received, items);
}

#[test]
fn order_preserved_through_bounded_bridge() {
    let items: Vec<usize> = vec![9, 8, 7, 6, 5];
    let (bridge, rx) = make_bounded_bridge(VecSource::new(items.clone()), 5);
    // Capacity equals the sequence length, so the producer finishes even
    // though nothing is read until it is joined.
    crossbeam::scope(|sc| {
        sc.spawn(move |_| {
            let mut bridge = bridge;
            bridge.run();
        });
    })
    .unwrap();
    assert_eq!(drain(&rx), items);
    assert!(rx.recv_timeout(Duration::from_millis(50)).is_err());
}

#[test]
fn bounded_bridge_stalls_at_capacity_then_completes() {
    let items: Vec<usize> = vec![1, 2, 3, 4, 5];
    let (bridge, rx) = make_bounded_bridge(VecSource::new(items.clone()), 3);
    crossbeam::scope(|sc| {
        sc.spawn(move |_| {
            let mut bridge = bridge;
            bridge.run();
        });
        // Give the producer time to fill the channel; it must then stall
        // with exactly `capacity` items outstanding.
        let _ = crossbeam::channel::after(Duration::from_millis(300)).recv();
        assert_eq!(rx.len(), 3);
        // Draining frees room, and the producer completes with the rest.
        assert_eq!(drain(&rx), items);
    })
    .unwrap();
}

#[test]
fn iterator_with_private_data_behaves_like_its_source() {
    let items: Vec<usize> = vec![3, 1, 4, 1, 5];
    let carried = String::from("kept alongside the iterator");
    let source = IteratorWithPrivateData::new(VecSource::new(items.clone()), carried);
    let (bridge, rx) = make_unbounded_bridge(source);
    let received = crossbeam::scope(|sc| {
        sc.spawn(move |_| {
            let mut bridge = bridge;
            bridge.run();
        });
        drain(&rx)
    })
    .unwrap();
    assert_eq!(received, items);
}

#[test]
fn empty_sequence_closes_at_once() {
    let (bridge, rx) = make_unbounded_bridge(VecSource::new(Vec::new()));
    crossbeam::scope(|sc| {
        sc.spawn(move |_| {
            let mut bridge = bridge;
            bridge.run();
        });
    })
    .unwrap();
    assert!(rx.recv_timeout(Duration::from_millis(50)).is_err());
}
