//! The sequence-to-channel bridge: a unit of work that drains a source into
//! a channel's sending end, then stops.

use vstd::prelude::*;

use crate::channel::channel_bounded;
use crate::channel::channel_unbounded;
use crate::channel::channel_send;
use crate::channel::sender_cap;
use crate::channel::sent_log;
use crate::source::ValueSource;

verus! {

/// How a producer run ended: the source ran out, or a send failed because
/// the receiving end was gone. Both are terminal; neither is an error.
pub enum BridgeOutcome {
    Exhausted,
    Aborted,
}

/// A producer unit of work: a source bound to the sending end of a channel.
/// It exists to be relocated onto a task and run once; dropping it after the
/// run releases the sending end, which closes the channel for the receiver.
pub struct Bridge<S: ValueSource> {
    pub source: S,
    pub tx: crossbeam::channel::Sender<usize>,
}

impl<S: ValueSource> Bridge<S> {
    /// Drain the source into the channel, in order, stopping at the first
    /// failed send or at the source's natural end.
    ///
    /// The contract carries the order-preservation guarantee: everything the
    /// source yielded during the run was sent, in the source's order, except
    /// that on an abort exactly the last drawn item was not delivered — so a
    /// cancelled producer draws at most one item past the cancellation point.
    pub fn run(&mut self) -> (o: BridgeOutcome)
        requires
            old(self).source.inv(),
        ensures
            final(self).source.inv(),
            final(self).source.total() == old(self).source.total(),
            old(self).source.log().is_prefix_of(final(self).source.log()),
            sender_cap(final(self).tx) == sender_cap(old(self).tx),
            ({
                let delta = final(self).source.log().skip(old(self).source.log().len() as int);
                match o {
                    BridgeOutcome::Exhausted => final(self).source.exhausted() && sent_log(
                        final(self).tx,
                    ) == sent_log(old(self).tx) + delta,
                    BridgeOutcome::Aborted => delta.len() >= 1 && sent_log(final(self).tx)
                        == sent_log(old(self).tx) + delta.take(delta.len() - 1),
                }
            }),
            old(self).source.total() matches Some(t) ==> (o is Exhausted ==> final(self).source.log()
                == t),
    {
        let ghost log0 = self.source.log();
        let ghost sent0 = sent_log(self.tx);
        let ghost cap0 = sender_cap(self.tx);
        let ghost total0 = self.source.total();
        proof {
            assert(log0.is_prefix_of(self.source.log())) by {
                assert(log0 =~= self.source.log().subrange(0, log0.len() as int));
            }
            assert(sent_log(self.tx) =~= sent0 + self.source.log().skip(log0.len() as int));
        }
        loop
            invariant
                log0 == old(self).source.log(),
                sent0 == sent_log(old(self).tx),
                cap0 == sender_cap(old(self).tx),
                total0 == old(self).source.total(),
                self.source.inv(),
                self.source.total() == total0,
                log0.is_prefix_of(self.source.log()),
                sender_cap(self.tx) == cap0,
                sent_log(self.tx) == sent0 + self.source.log().skip(log0.len() as int),
            decreases self.source.measure(),
        {
            let ghost log_before = self.source.log();
            match self.source.next_item() {
                None => {
                    return BridgeOutcome::Exhausted;
                },
                Some(v) => {
                    proof {
                        assert(log0.is_prefix_of(self.source.log())) by {
                            assert(log0 =~= self.source.log().subrange(0, log0.len() as int));
                        }
                    }
                    match channel_send(&mut self.tx, v) {
                        Ok(_) => {
                            proof {
                                assert(sent_log(self.tx) =~= sent0 + self.source.log().skip(
                                    log0.len() as int,
                                )) by {
                                    assert(self.source.log().skip(log0.len() as int)
                                        =~= log_before.skip(log0.len() as int).push(v));
                                }
                            }
                        },
                        Err(_) => {
                            proof {
                                let delta = self.source.log().skip(log0.len() as int);
                                assert(delta.take(delta.len() - 1) =~= log_before.skip(
                                    log0.len() as int,
                                )) by {
                                    assert(delta =~= log_before.skip(log0.len() as int).push(v));
                                }
                            }
                            return BridgeOutcome::Aborted;
                        },
                    }
                },
            }
        }
    }
}

/// Order preservation: a bridge built on a fresh channel over a source that
/// stands for the finite sequence `t`, once run to exhaustion, has handed
/// the channel exactly `t`, in its original order. (Delivery of the sent log
/// to the receiving end in the same order is the channel primitive's own
/// FIFO guarantee.) The requirements are precisely what `make_unbounded_bridge`
/// or `make_bounded_bridge` establishes and what `run` ensures of the bridge
/// before and after the run.
pub proof fn lemma_order_preservation<S: ValueSource>(
    before: Bridge<S>,
    after: Bridge<S>,
    t: Seq<usize>,
)
    requires
        before.source.total() == Some(t),
        sent_log(before.tx) == Seq::<usize>::empty(),
        before.source.log() == Seq::<usize>::empty(),
        after.source.log() == t,
        sent_log(after.tx) == sent_log(before.tx) + after.source.log().skip(
            before.source.log().len() as int,
        ),
    ensures
        sent_log(after.tx) == t,
{
    assert(sent_log(after.tx) =~= t);
}

/// Early cancellation: when a run aborts because the receiving end was gone,
/// everything the source yielded during the run was delivered except exactly
/// the one item whose send failed — the producer drew one item past the
/// cancellation point and none after it. The requirements are what `run`
/// ensures of an aborted run.
pub proof fn lemma_cancellation_overshoot<S: ValueSource>(
    before: Bridge<S>,
    after: Bridge<S>,
)
    requires
        before.source.log().is_prefix_of(after.source.log()),
        after.source.log().skip(before.source.log().len() as int).len() >= 1,
        sent_log(after.tx) == sent_log(before.tx) + ({
            let delta = after.source.log().skip(before.source.log().len() as int);
            delta.take(delta.len() - 1)
        }),
    ensures
        after.source.log().len() - before.source.log().len() == sent_log(after.tx).len()
            - sent_log(before.tx).len() + 1,
{
}

/// Build a bridge over a fresh unlimited-capacity channel; sends never block.
pub fn make_unbounded_bridge<S: ValueSource>(source: S) -> (r: (
    Bridge<S>,
    crossbeam::channel::Receiver<usize>,
))
    ensures
        r.0.source == source,
        sent_log(r.0.tx) == Seq::<usize>::empty(),
        sender_cap(r.0.tx) is None,
{
    let (tx, rx) = channel_unbounded();
    (Bridge { source, tx }, rx)
}

/// Build a bridge over a fresh fixed-capacity channel. If the source emits
/// more than `capacity` items before the consumer drains, the producer's
/// send blocks until room is freed: flow control, not an error.
pub fn make_bounded_bridge<S: ValueSource>(source: S, capacity: usize) -> (r: (
    Bridge<S>,
    crossbeam::channel::Receiver<usize>,
))
    ensures
        r.0.source == source,
        sent_log(r.0.tx) == Seq::<usize>::empty(),
        sender_cap(r.0.tx) == Some(capacity),
{
    let (tx, rx) = channel_bounded(capacity);
    (Bridge { source, tx }, rx)
}

} // verus!
