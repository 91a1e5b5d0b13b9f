//! Pull-based sequences that a bridge can drain: the `ValueSource` trait and
//! two sources built from plain data.

use vstd::prelude::*;

verus! {

/// A sequence of `usize` values produced one item at a time.
///
/// The abstract state is the log of items yielded so far; `total()` names
/// the complete sequence where one is known in advance, and `measure()`
/// bounds how many more items can still come, so that drain loops provably
/// make progress.
pub trait ValueSource: Sized {
    /// Structural invariant that `next_item` preserves.
    spec fn inv(&self) -> bool;

    /// The items yielded so far, oldest first.
    spec fn log(&self) -> Seq<usize>;

    /// Whether the source has signalled its end by yielding `None`.
    spec fn exhausted(&self) -> bool;

    /// The complete sequence this source stands for, where it is known in
    /// advance; `None` for a source with no predetermined end.
    spec fn total(&self) -> Option<Seq<usize>>;

    /// An upper bound on how many more items can still be yielded.
    spec fn measure(&self) -> nat;

    /// Yield the next item, or `None` once the sequence is over.
    fn next_item(&mut self) -> (r: Option<usize>)
        requires
            old(self).inv(),
        ensures
            final(self).inv(),
            final(self).total() == old(self).total(),
            r matches Some(v) ==> {
                &&& final(self).log() == old(self).log().push(v)
                &&& !old(self).exhausted()
                &&& final(self).measure() < old(self).measure()
            },
            r is None ==> {
                &&& final(self).log() == old(self).log()
                &&& final(self).exhausted()
                &&& final(self).measure() <= old(self).measure()
            },
            old(self).exhausted() ==> r is None,
            old(self).total() matches Some(t) ==> {
                &&& final(self).log().is_prefix_of(t)
                &&& (r is None ==> final(self).log() == t)
            },
    ;
}

/// A source that yields the elements of a vector, in order.
pub struct VecSource {
    pub(crate) items: Vec<usize>,
    pub(crate) pos: usize,
}

impl VecSource {
    /// The full sequence this source was built over.
    pub open(crate) spec fn contents(&self) -> Seq<usize> {
        self.items@
    }

    /// Wrap a vector as a source positioned at its first element.
    pub fn new(items: Vec<usize>) -> (s: Self)
        ensures
            s.inv(),
            s.log() == Seq::<usize>::empty(),
            s.contents() == items@,
            !s.exhausted() || items@.len() == 0,
            s.total() == Some(items@),
    {
        let s = VecSource { items, pos: 0 };
        proof {
            assert(s.items@.take(0) =~= Seq::<usize>::empty());
        }
        s
    }
}

impl ValueSource for VecSource {
    open(crate) spec fn inv(&self) -> bool {
        self.pos <= self.items@.len()
    }

    open(crate) spec fn log(&self) -> Seq<usize> {
        self.items@.take(self.pos as int)
    }

    open(crate) spec fn exhausted(&self) -> bool {
        self.pos == self.items@.len()
    }

    open(crate) spec fn total(&self) -> Option<Seq<usize>> {
        Some(self.items@)
    }

    open(crate) spec fn measure(&self) -> nat {
        (self.items@.len() - self.pos) as nat
    }

    fn next_item(&mut self) -> (r: Option<usize>) {
        if self.pos < self.items.len() {
            let v = self.items[self.pos];
            self.pos = self.pos + 1;
            proof {
                assert(self.items@.take(self.pos as int) =~= old(self).items@.take(
                    old(self).pos as int,
                ).push(v));
                assert(self.log().is_prefix_of(self.items@)) by {
                    assert(self.log() =~= self.items@.subrange(0, self.log().len() as int));
                }
            }
            Some(v)
        } else {
            proof {
                assert(self.log() =~= self.items@);
            }
            None
        }
    }
}

/// A source paired with a private value it carries along: the source and the
/// extra data move across task boundaries as one unit, while iteration
/// behaves exactly as the inner source alone.
pub struct IteratorWithPrivateData<S: ValueSource, Priv> {
    pub it: S,
    pub(crate) private: Box<Priv>,
}

impl<S: ValueSource, Priv> IteratorWithPrivateData<S, Priv> {
    /// Bind a source and a private value into one relocatable unit.
    pub fn new(it: S, private: Priv) -> (r: Self)
        ensures
            r.inv() == it.inv(),
            r.log() == it.log(),
            r.exhausted() == it.exhausted(),
            r.total() == it.total(),
            r.measure() == it.measure(),
    {
        IteratorWithPrivateData { it, private: Box::new(private) }
    }
}

impl<S: ValueSource, Priv> ValueSource for IteratorWithPrivateData<S, Priv> {
    open(crate) spec fn inv(&self) -> bool {
        self.it.inv()
    }

    open(crate) spec fn log(&self) -> Seq<usize> {
        self.it.log()
    }

    open(crate) spec fn exhausted(&self) -> bool {
        self.it.exhausted()
    }

    open(crate) spec fn total(&self) -> Option<Seq<usize>> {
        self.it.total()
    }

    open(crate) spec fn measure(&self) -> nat {
        self.it.measure()
    }

    fn next_item(&mut self) -> (r: Option<usize>) {
        self.it.next_item()
    }
}

} // verus!
