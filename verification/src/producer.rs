//! The pull-based producer interface that the flattening adapter is built on.
//!
//! A producer is modelled by the mathematical sequence of elements it has left
//! to hand out, read front to back.  Pulls consume that sequence one element
//! at a time; once it is empty it stays empty, so a `None` answer is final.

use vstd::prelude::*;

verus! {

/// A source of elements consumed one pull at a time from the front.
pub trait Producer: Sized {
    type Item;

    /// The elements still to be handed out, front to back.
    spec fn remaining(&self) -> Seq<Self::Item>;

    /// Hand out the next element from the front end, or report that none are
    /// left.  Once `None` has been returned, the remaining sequence is empty
    /// and stays empty, so every later pull returns `None` as well.
    fn pull_front(&mut self) -> (r: Option<Self::Item>)
        ensures
            old(self).remaining().len() == 0 ==> r is None
                && final(self).remaining() == old(self).remaining(),
            old(self).remaining().len() > 0 ==> r == Some(old(self).remaining()[0])
                && final(self).remaining() == old(self).remaining().drop_first(),
    ;
}

/// A producer that can also be consumed from its back end.
pub trait BidiProducer: Producer {
    /// Hand out the next element from the back end, or report that none are
    /// left.  The same termination promise as for `pull_front` holds: after a
    /// `None`, the remaining sequence is empty for good.
    fn pull_back(&mut self) -> (r: Option<Self::Item>)
        ensures
            old(self).remaining().len() == 0 ==> r is None
                && final(self).remaining() == old(self).remaining(),
            old(self).remaining().len() > 0 ==> r == Some(old(self).remaining().last())
                && final(self).remaining() == old(self).remaining().drop_last(),
    ;
}

/// A `Vec` is a producer of its elements in order: front pulls take from
/// index zero, back pulls take from the end.
impl<T> Producer for Vec<T> {
    type Item = T;

    open spec fn remaining(&self) -> Seq<T> {
        self@
    }

    fn pull_front(&mut self) -> (r: Option<T>) {
        if self.len() == 0 {
            None
        } else {
            let x = self.remove(0);
            proof {
                assert(self@ =~= old(self)@.drop_first());
            }
            Some(x)
        }
    }
}

impl<T> BidiProducer for Vec<T> {
    fn pull_back(&mut self) -> (r: Option<T>) {
        self.pop()
    }
}

/// Drain a producer from the front into a `Vec`: forward pulls hand out the
/// remaining sequence in order, left to right, and then stop.
pub fn collect_front<P: Producer>(p: P) -> (v: Vec<P::Item>)
    ensures
        v@ == p.remaining(),
{
    let ghost total = p.remaining();
    let mut q = p;
    let mut v: Vec<P::Item> = Vec::new();
    loop
        invariant
            total == p.remaining(),
            v@ + q.remaining() == total,
        decreases q.remaining().len(),
    {
        match q.pull_front() {
            Some(x) => {
                v.push(x);
                proof {
                    assert(v@ + q.remaining() =~= total);
                }
            },
            None => {
                proof {
                    assert(v@ =~= total);
                }
                return v;
            },
        }
    }
}

/// Drain a producer from the back into a `Vec`: backward pulls hand out the
/// remaining sequence in order, right to left, and then stop.
pub fn collect_back<P: BidiProducer>(p: P) -> (v: Vec<P::Item>)
    ensures
        v@ == p.remaining().reverse(),
{
    let ghost total = p.remaining();
    let mut q = p;
    let mut v: Vec<P::Item> = Vec::new();
    loop
        invariant
            total == p.remaining(),
            q.remaining() + v@.reverse() == total,
        decreases q.remaining().len(),
    {
        match q.pull_back() {
            Some(x) => {
                v.push(x);
                proof {
                    assert(q.remaining() + v@.reverse() =~= total);
                }
            },
            None => {
                proof {
                    assert(v@ =~= total.reverse());
                }
                return v;
            },
        }
    }
}

/// Drain a producer from the front and report how many elements it handed
/// out: exactly the length of its remaining sequence.
pub fn count<P: Producer>(p: P) -> (n: usize)
    requires
        p.remaining().len() <= usize::MAX,
    ensures
        n == p.remaining().len(),
{
    let ghost total = p.remaining().len();
    let mut q = p;
    let mut n: usize = 0;
    loop
        invariant
            total == p.remaining().len(),
            n + q.remaining().len() == total,
            total <= usize::MAX,
        decreases q.remaining().len(),
    {
        match q.pull_front() {
            Some(_) => {
                n = n + 1;
            },
            None => {
                return n;
            },
        }
    }
}

} // verus!
