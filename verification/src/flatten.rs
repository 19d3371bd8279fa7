//! The lazy flattening adapter.
//!
//! [`Flatten`] wraps an outer producer whose items are themselves producers
//! ("inner sequences") and hands out the inner elements as one flat producer:
//! the concatenation, in outer order, of each inner sequence's elements.  Both
//! ends can be consumed; at most one inner cursor is open per end, installed
//! lazily and replaced when exhausted.  Once the outer producer is exhausted
//! for a direction, that direction drains whatever the opposite end's cursor
//! still holds before reporting the end — so the two ends meet exactly, with
//! no element handed out twice and none skipped.

use crate::producer::{BidiProducer, Producer};
use vstd::prelude::*;

verus! {

/// The remaining elements of an optional inner cursor: none when no cursor
/// is open.
pub open spec fn cursor_seq<P: Producer>(c: Option<P>) -> Seq<P::Item> {
    match c {
        Some(p) => p.remaining(),
        None => Seq::empty(),
    }
}

/// The remaining inner sequences of an outer producer, one per outer item.
pub open spec fn seqs_of<O>(o: O) -> Seq<Seq<<O::Item as Producer>::Item>> where
    O: Producer,
    O::Item: Producer,
{
    o.remaining().map_values(|p: O::Item| p.remaining())
}

/// The flat view of an outer producer: all inner elements, in outer order.
pub open spec fn flat_of<O>(o: O) -> Seq<<O::Item as Producer>::Item> where
    O: Producer,
    O::Item: Producer,
{
    seqs_of(o).flatten()
}

/// Peeling the first inner sequence off a flattened sequence of sequences.
pub(crate) proof fn lemma_flatten_unfold_front<T>(ss: Seq<Seq<T>>)
    requires
        ss.len() > 0,
    ensures
        ss.flatten() == ss[0] + ss.drop_first().flatten(),
{
    assert(ss.first() == ss[0]);
}

/// Peeling the last inner sequence off a flattened sequence of sequences.
pub(crate) proof fn lemma_flatten_unfold_back<T>(ss: Seq<Seq<T>>)
    requires
        ss.len() > 0,
    ensures
        ss.flatten() == ss.drop_last().flatten() + ss.last(),
{
    ss.lemma_flatten_and_flatten_alt_are_equivalent();
    ss.drop_last().lemma_flatten_and_flatten_alt_are_equivalent();
    assert(ss.flatten_alt() == ss.drop_last().flatten_alt() + ss.last());
}

/// A lazy, bidirectional flattening adapter over an outer producer of inner
/// sequences.  Its remaining elements are: what the front cursor still holds,
/// then the flat view of the untouched outer items, then what the back cursor
/// still holds.
pub struct Flatten<O> where O: Producer, O::Item: Producer {
    pub outer: O,
    pub inner_current_front: Option<O::Item>,
    pub inner_current_back: Option<O::Item>,
}

impl<O> Flatten<O> where O: Producer, O::Item: Producer {
    /// Wrap an outer producer; both cursors start absent, so the remaining
    /// elements are exactly the flat view of the outer producer.
    pub fn new(outer: O) -> (r: Self)
        ensures
            r == (Flatten { outer, inner_current_front: None, inner_current_back: None }),
            r.remaining() == flat_of(outer),
    {
        let r = Flatten { outer, inner_current_front: None, inner_current_back: None };
        proof {
            assert(r.remaining() =~= flat_of(r.outer));
        }
        r
    }
}

impl<O> Producer for Flatten<O> where O: Producer, O::Item: Producer {
    type Item = <O::Item as Producer>::Item;

    open spec fn remaining(&self) -> Seq<Self::Item> {
        cursor_seq(self.inner_current_front) + flat_of(self.outer) + cursor_seq(
            self.inner_current_back,
        )
    }

    fn pull_front(&mut self) -> (r: Option<Self::Item>) {
        loop
            invariant
                self.remaining() == old(self).remaining(),
            decreases self.outer.remaining().len(),
        {
            let ghost pre = *self;
            if self.inner_current_front.is_some() {
                let mut cur = self.inner_current_front.take().unwrap();
                let ghost cur0 = cur;
                let x = cur.pull_front();
                self.inner_current_front = Some(cur);
                proof {
                    if cur0.remaining().len() > 0 {
                        assert(pre.remaining()[0] == cur0.remaining()[0]);
                        assert(self.remaining() =~= pre.remaining().drop_first());
                    } else {
                        assert(self.remaining() =~= pre.remaining());
                    }
                }
                if x.is_some() {
                    return x;
                }
            }
            // Here no front-side element was available: the front cursor is
            // absent or empty.
            let ghost mid = *self;
            proof {
                assert(cursor_seq(mid.inner_current_front).len() == 0);
            }
            match self.outer.pull_front() {
                Some(inner) => {
                    self.inner_current_front = Some(inner);
                    proof {
                        lemma_flatten_unfold_front(seqs_of(mid.outer));
                        assert(seqs_of(self.outer) =~= seqs_of(mid.outer).drop_first());
                        assert(seqs_of(mid.outer)[0] == inner.remaining());
                        assert(self.remaining() =~= mid.remaining());
                    }
                },
                None => {
                    // The outer producer is exhausted: drain what the back
                    // cursor still holds, from its front end.
                    proof {
                        assert(seqs_of(self.outer).len() == 0);
                        assert(flat_of(self.outer).len() == 0);
                    }
                    if self.inner_current_back.is_some() {
                        let mut cur = self.inner_current_back.take().unwrap();
                        let ghost cur0 = cur;
                        let x = cur.pull_front();
                        self.inner_current_back = Some(cur);
                        proof {
                            if cur0.remaining().len() > 0 {
                                assert(mid.remaining()[0] == cur0.remaining()[0]);
                                assert(self.remaining() =~= mid.remaining().drop_first());
                            } else {
                                assert(self.remaining() =~= mid.remaining());
                                assert(mid.remaining().len() == 0);
                            }
                        }
                        return x;
                    }
                    proof {
                        assert(self.remaining().len() == 0);
                    }
                    return None;
                },
            }
        }
    }
}

impl<O> BidiProducer for Flatten<O> where O: BidiProducer, O::Item: BidiProducer {
    fn pull_back(&mut self) -> (r: Option<Self::Item>) {
        loop
            invariant
                self.remaining() == old(self).remaining(),
            decreases self.outer.remaining().len(),
        {
            let ghost pre = *self;
            if self.inner_current_back.is_some() {
                let mut cur = self.inner_current_back.take().unwrap();
                let ghost cur0 = cur;
                let x = cur.pull_back();
                self.inner_current_back = Some(cur);
                proof {
                    if cur0.remaining().len() > 0 {
                        assert(pre.remaining().last() == cur0.remaining().last());
                        assert(self.remaining() =~= pre.remaining().drop_last());
                    } else {
                        assert(self.remaining() =~= pre.remaining());
                    }
                }
                if x.is_some() {
                    return x;
                }
            }
            // Here no back-side element was available: the back cursor is
            // absent or empty.
            let ghost mid = *self;
            proof {
                assert(cursor_seq(mid.inner_current_back).len() == 0);
            }
            match self.outer.pull_back() {
                Some(inner) => {
                    self.inner_current_back = Some(inner);
                    proof {
                        lemma_flatten_unfold_back(seqs_of(mid.outer));
                        assert(seqs_of(self.outer) =~= seqs_of(mid.outer).drop_last());
                        assert(seqs_of(mid.outer).last() == inner.remaining());
                        assert(self.remaining() =~= mid.remaining());
                    }
                },
                None => {
                    // The outer producer is exhausted: drain what the front
                    // cursor still holds, from its back end.
                    proof {
                        assert(seqs_of(self.outer).len() == 0);
                        assert(flat_of(self.outer).len() == 0);
                    }
                    if self.inner_current_front.is_some() {
                        let mut cur = self.inner_current_front.take().unwrap();
                        let ghost cur0 = cur;
                        let x = cur.pull_back();
                        self.inner_current_front = Some(cur);
                        proof {
                            if cur0.remaining().len() > 0 {
                                assert(mid.remaining().last() == cur0.remaining().last());
                                assert(self.remaining() =~= mid.remaining().drop_last());
                            } else {
                                assert(self.remaining() =~= mid.remaining());
                                assert(mid.remaining().len() == 0);
                            }
                        }
                        return x;
                    }
                    proof {
                        assert(self.remaining().len() == 0);
                    }
                    return None;
                },
            }
        }
    }
}

/// Wrap a producer of inner sequences in a flattening adapter.
pub fn flatten<O>(outer: O) -> (r: Flatten<O>) where O: Producer, O::Item: Producer
    ensures
        r == (Flatten { outer, inner_current_front: None, inner_current_back: None }),
        r.remaining() == flat_of(outer),
{
    Flatten::new(outer)
}

/// Extension sugar: lets any producer of inner sequences be flattened in a
/// method chain; behaviourally identical to the free function [`flatten`].
pub trait IteratorExt: Producer where Self::Item: Producer {
    fn our_flatten(self) -> (r: Flatten<Self>)
        ensures
            r == (Flatten { outer: self, inner_current_front: None, inner_current_back: None }),
            r.remaining() == flat_of(self),
    ;
}

impl<T> IteratorExt for T where T: Producer, T::Item: Producer {
    fn our_flatten(self) -> (r: Flatten<T>) {
        flatten(self)
    }
}

} // verus!
