//! Append-only event streams.
//!
//! Every component of this crate reports what it does by appending events to a
//! vector that stands for its outbound channel.  The definitions here say, for
//! any element type with a view, that a vector only grew (`extends`) and what
//! the views of the newly appended events are (`emitted`).

use vstd::prelude::*;

verus! {

/// The views of the elements of a sequence.
pub open spec fn views_of<T: View>(s: Seq<T>) -> Seq<T::V> {
    s.map_values(|x: T| x@)
}

/// `post` begins with exactly the elements of `pre`: nothing already published
/// was lost, duplicated or reordered.
pub open spec fn extends<T>(pre: Seq<T>, post: Seq<T>) -> bool {
    &&& post.len() >= pre.len()
    &&& post.subrange(0, pre.len() as int) =~= pre
}

/// The views of the events that were appended to `pre` to reach `post`.
pub open spec fn emitted<T: View>(pre: Seq<T>, post: Seq<T>) -> Seq<T::V> {
    views_of(post.skip(pre.len() as int))
}

/// A stream extends itself and emits nothing.
pub proof fn lemma_extends_refl<T: View>(s: Seq<T>)
    ensures
        extends(s, s),
        emitted(s, s) =~= Seq::<T::V>::empty(),
{
}

/// Pushing one element emits exactly that element's view.
pub proof fn lemma_push_emits<T: View>(pre: Seq<T>, e: T)
    ensures
        extends(pre, pre.push(e)),
        emitted(pre, pre.push(e)) =~= seq![e@],
{
    assert(pre.push(e).skip(pre.len() as int) =~= seq![e]);
}

/// Growing a stream twice emits the two batches in order.
pub proof fn lemma_extends_trans<T: View>(a: Seq<T>, b: Seq<T>, c: Seq<T>)
    requires
        extends(a, b),
        extends(b, c),
    ensures
        extends(a, c),
        emitted(a, c) =~= emitted(a, b) + emitted(b, c),
{
    assert(c.subrange(0, a.len() as int) =~= b.subrange(0, a.len() as int));
    assert(c.skip(a.len() as int) =~= b.skip(a.len() as int) + c.skip(b.len() as int));
}

/// Law: events already published before a stream grew remain in it, exactly
/// once, at their original positions.
pub proof fn published_events_are_stable<T>(pre: Seq<T>, post: Seq<T>)
    requires
        extends(pre, post),
    ensures
        forall|i: int| 0 <= i < pre.len() ==> post[i] == pre[i],
{
}

} // verus!
