//! Laws of the flat view.
//!
//! These proof functions state, over the producer models alone, the global
//! properties of flattening: an empty outer producer (or one whose inner
//! sequences are all empty) flattens to nothing, the flat view keeps every
//! inner element exactly once, and flattening twice equals flattening the
//! two-level view.

use crate::flatten::{flat_of, lemma_flatten_unfold_front, seqs_of, Flatten};
use crate::producer::Producer;
use vstd::prelude::*;

verus! {

/// The total element count of a sequence of inner sequences.
pub open spec fn total_count<T>(ss: Seq<Seq<T>>) -> nat
    decreases ss.len(),
{
    if ss.len() == 0 {
        0
    } else {
        ss[0].len() + total_count(ss.drop_first())
    }
}

proof fn lemma_flatten_total_count<T>(ss: Seq<Seq<T>>)
    ensures
        ss.flatten().len() == total_count(ss),
    decreases ss.len(),
{
    if ss.len() > 0 {
        lemma_flatten_unfold_front(ss);
        lemma_flatten_total_count(ss.drop_first());
    }
}

/// Emptiness: an outer producer with no items at all flattens to no elements.
pub proof fn lemma_flat_of_empty_outer<O>(o: O) where O: Producer, O::Item: Producer
    requires
        o.remaining().len() == 0,
    ensures
        flat_of(o).len() == 0,
{
    assert(seqs_of(o).len() == 0);
}

/// Emptiness: however many inner sequences the outer producer holds, if each
/// is empty the flat view is empty.
pub proof fn lemma_flat_of_empty_inners<O>(o: O) where O: Producer, O::Item: Producer
    requires
        forall|k: int|
            0 <= k < o.remaining().len() ==> (#[trigger] o.remaining()[k]).remaining().len() == 0,
    ensures
        flat_of(o).len() == 0,
{
    lemma_count_preservation(o);
    lemma_total_count_all_empty(seqs_of(o));
}

proof fn lemma_total_count_all_empty<T>(ss: Seq<Seq<T>>)
    requires
        forall|k: int| 0 <= k < ss.len() ==> (#[trigger] ss[k]).len() == 0,
    ensures
        total_count(ss) == 0,
    decreases ss.len(),
{
    if ss.len() > 0 {
        assert(forall|k: int|
            0 <= k < ss.drop_first().len() ==> (#[trigger] ss.drop_first()[k]).len() == 0);
        lemma_total_count_all_empty(ss.drop_first());
    }
}

/// Count preservation: the flat view holds exactly as many elements as all
/// the inner sequences together.
pub proof fn lemma_count_preservation<O>(o: O) where O: Producer, O::Item: Producer
    ensures
        flat_of(o).len() == total_count(seqs_of(o)),
{
    lemma_flatten_total_count(seqs_of(o));
}

proof fn lemma_flatten_map_flatten<A, B>(ss: Seq<Seq<A>>, f: spec_fn(A) -> Seq<B>)
    ensures
        ss.flatten().map_values(f).flatten() == ss.map_values(
            |s: Seq<A>| s.map_values(f).flatten(),
        ).flatten(),
    decreases ss.len(),
{
    let g = (|s: Seq<A>| s.map_values(f).flatten());
    if ss.len() == 0 {
        assert(ss.flatten().map_values(f).len() == 0);
        assert(ss.map_values(g).len() == 0);
    } else {
        let rest = ss.drop_first();
        lemma_flatten_unfold_front(ss);
        lemma_flatten_map_flatten(rest, f);
        assert((ss[0] + rest.flatten()).map_values(f) =~= ss[0].map_values(f)
            + rest.flatten().map_values(f));
        vstd::seq_lib::lemma_flatten_concat(ss[0].map_values(f), rest.flatten().map_values(f));
        lemma_flatten_unfold_front(ss.map_values(g));
        assert(ss.map_values(g)[0] == g(ss[0]));
        assert(ss.map_values(g).drop_first() =~= rest.map_values(g));
    }
}

/// The two-level flat view of an outer producer whose items are themselves
/// producers of inner sequences: every leaf element, in outer order.
pub open spec fn deep_flat_of<O>(o: O) -> Seq<<<O::Item as Producer>::Item as Producer>::Item> where
    O: Producer,
    O::Item: Producer,
    <O::Item as Producer>::Item: Producer,
{
    o.remaining().map_values(|m: O::Item| flat_of(m)).flatten()
}

/// Composability: one flattening pass over a two-level producer leaves a
/// producer of inner sequences; flattening that flattens everything.  Any
/// producer `q` whose remaining elements are the flat view of `o` — such as
/// the adapter built over `o` — flattens to the two-level flat view of `o`.
pub proof fn lemma_flatten_compose<O, Q>(o: O, q: Q) where
    O: Producer,
    O::Item: Producer,
    <O::Item as Producer>::Item: Producer,
    Q: Producer<Item = <O::Item as Producer>::Item>,

    requires
        q.remaining() == flat_of(o),
    ensures
        flat_of(q) == deep_flat_of(o),
{
    let f = (|p: <O::Item as Producer>::Item| p.remaining());
    let g = (|s: Seq<<O::Item as Producer>::Item>| s.map_values(f).flatten());
    lemma_flatten_map_flatten(seqs_of(o), f);
    assert(seqs_of(q) =~= flat_of(o).map_values(f));
    assert forall|k: int| 0 <= k < o.remaining().len() implies seqs_of(o).map_values(g)[k]
        == o.remaining().map_values(|m: O::Item| flat_of(m))[k] by {
        let m = o.remaining()[k];
        assert(seqs_of(o)[k] == m.remaining());
        assert(m.remaining().map_values(f) =~= seqs_of(m));
    }
    assert(seqs_of(o).map_values(g) =~= o.remaining().map_values(|m: O::Item| flat_of(m)));
}

/// Composability at the adapter: wrapping a two-level producer in the
/// adapter twice yields exactly the two-level flat view — full depth-two
/// flattening with no special casing.
pub proof fn lemma_adapter_compose<O>(outer: O, once: Flatten<O>, twice: Flatten<Flatten<O>>) where
    O: Producer,
    O::Item: Producer,
    <O::Item as Producer>::Item: Producer,

    requires
        once == (Flatten { outer, inner_current_front: None, inner_current_back: None }),
        twice == (Flatten { outer: once, inner_current_front: None, inner_current_back: None }),
    ensures
        twice.remaining() == deep_flat_of(outer),
{
    assert(once.remaining() =~= flat_of(outer));
    lemma_flatten_compose::<O, Flatten<O>>(outer, once);
    assert(twice.remaining() =~= flat_of(once));
}

} // verus!
