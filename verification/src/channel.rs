//! The FIFO handoff primitive, taken from crossbeam's channels.
//!
//! The channel's internal synchronization and its FIFO delivery to the
//! receiving end are properties of the primitive itself; the contracts here
//! track what the sending end has accepted, named by `sent_log`, so that the
//! bridge can be proved to hand the channel exactly its source's items, in
//! order.

use vstd::prelude::*;

verus! {

#[verifier::external_type_specification]
#[verifier::external_body]
#[verifier::reject_recursive_types(T)]
pub struct ExSender<T>(crossbeam::channel::Sender<T>);

#[verifier::external_type_specification]
#[verifier::external_body]
#[verifier::reject_recursive_types(T)]
pub struct ExReceiver<T>(crossbeam::channel::Receiver<T>);

/// Every item this sending end has delivered into the channel, oldest first.
pub uninterp spec fn sent_log(s: crossbeam::channel::Sender<usize>) -> Seq<usize>;

/// The capacity the channel was created with; `None` for an unbounded one.
pub uninterp spec fn sender_cap(s: crossbeam::channel::Sender<usize>) -> Option<usize>;

/// Relies on crossbeam_channel::unbounded: a fresh channel of unlimited
/// capacity, into which nothing has been sent yet.
#[verifier::external_body]
pub(crate) fn channel_unbounded() -> (r: (
    crossbeam::channel::Sender<usize>,
    crossbeam::channel::Receiver<usize>,
))
    ensures
        sent_log(r.0) == Seq::<usize>::empty(),
        sender_cap(r.0) is None,
{
    crossbeam::channel::unbounded()
}

/// Relies on crossbeam_channel::bounded: a fresh channel holding at most
/// `cap` outstanding items, into which nothing has been sent yet.
#[verifier::external_body]
pub(crate) fn channel_bounded(cap: usize) -> (r: (
    crossbeam::channel::Sender<usize>,
    crossbeam::channel::Receiver<usize>,
))
    ensures
        sent_log(r.0) == Seq::<usize>::empty(),
        sender_cap(r.0) == Some(cap),
{
    crossbeam::channel::bounded(cap)
}

/// Relies on crossbeam_channel::Sender::send: it delivers `v` into the
/// channel in FIFO order, or gives `v` back once the receiving end is gone.
/// On a full bounded channel it blocks until the consumer frees room or
/// drops the receiving end; it never fails for any other reason.
#[verifier::external_body]
pub(crate) fn channel_send(s: &mut crossbeam::channel::Sender<usize>, v: usize) -> (r: Result<
    (),
    usize,
>)
    ensures
        r is Ok ==> sent_log(*final(s)) == sent_log(*old(s)).push(v),
        r matches Err(w) ==> sent_log(*final(s)) == sent_log(*old(s)) && w == v,
        sender_cap(*final(s)) == sender_cap(*old(s)),
{
    match s.send(v) {
        Ok(()) => Ok(()),
        Err(e) => Err(e.0),
    }
}

} // verus!
