//! The channel's delivery guarantees, stated and proved over the
//! mathematical model of the queue.
//!
//! The model of a channel's pending content is a `Seq<T>`, oldest value
//! first. A send appends at the back; a receive removes the front. The
//! lemmas below state the guarantees the channel gives its callers:
//! first-in-first-out delivery, exact round trips, and a complete drain
//! with no value lost and none duplicated.

use vstd::prelude::*;

verus! {

use vstd::multiset::Multiset;

/// One send: the value joins the pending content at the back.
pub open spec fn push_model<T>(q: Seq<T>, v: T) -> Seq<T> {
    q.push(v)
}

/// A run of sends, in the order the lock linearized them. Sends from
/// different sender clones differ in nothing: every send appends to the
/// same shared content.
pub open spec fn push_all_model<T>(q: Seq<T>, vs: Seq<T>) -> Seq<T> {
    q + vs
}

/// One receive from non-empty pending content: the remaining content and
/// the value handed out, which is the oldest one.
pub open spec fn pop_model<T>(q: Seq<T>) -> (Seq<T>, T)
    recommends
        q.len() > 0,
{
    (q.skip(1), q[0])
}

/// `n` receives in a row: the remaining content and the values handed
/// out, in the order they were handed out.
pub open spec fn drain_model<T>(q: Seq<T>, n: nat) -> (Seq<T>, Seq<T>)
    recommends
        n <= q.len(),
    decreases n,
{
    if n == 0 {
        (q, Seq::empty())
    } else {
        let (q1, v) = pop_model(q);
        let (q2, out) = drain_model(q1, (n - 1) as nat);
        (q2, seq![v] + out)
    }
}

/// Receives deliver the oldest pending values first: `n` receives from
/// pending content `q` hand out exactly the first `n` values of `q`, in
/// order, and leave the rest.
pub proof fn lemma_drain_in_order<T>(q: Seq<T>, n: nat)
    requires
        n <= q.len(),
    ensures
        drain_model(q, n).1 == q.subrange(0, n as int),
        drain_model(q, n).0 == q.skip(n as int),
    decreases n,
{
    if n == 0 {
        assert(drain_model(q, n).1 =~= q.subrange(0, 0));
        assert(drain_model(q, n).0 =~= q.skip(0));
    } else {
        lemma_drain_in_order(q.skip(1), (n - 1) as nat);
        assert(seq![q[0]] + q.skip(1).subrange(0, n - 1) =~= q.subrange(0, n as int));
        assert(q.skip(1).skip(n - 1) =~= q.skip(n as int));
    }
}

/// First-in-first-out order: sending `vs[0], vs[1], ...` on a fresh
/// channel, from any mix of sender clones, and then receiving `vs.len()`
/// times yields `vs[0], vs[1], ...` in exactly that order.
pub proof fn lemma_fifo_order<T>(vs: Seq<T>)
    ensures
        drain_model(push_all_model(Seq::<T>::empty(), vs), vs.len()).1 == vs,
{
    assert(push_all_model(Seq::<T>::empty(), vs) =~= vs);
    lemma_drain_in_order(vs, vs.len());
    assert(vs.subrange(0, vs.len() as int) =~= vs);
}

/// Round trip: on a fresh channel, sending `v` and then receiving yields
/// `v` itself and leaves the channel empty again.
pub proof fn lemma_round_trip<T>(v: T)
    ensures
        pop_model(push_model(Seq::<T>::empty(), v)).1 == v,
        pop_model(push_model(Seq::<T>::empty(), v)).0.len() == 0,
{
    assert(push_model(Seq::<T>::empty(), v) =~= seq![v]);
}

/// No duplication, no loss: sending the values `vs` across any number of
/// sender clones and receiving exactly `vs.len()` times hands out every
/// sent value exactly once — the same multiset — and drains the channel
/// completely, so one further receive would find nothing and block.
pub proof fn lemma_exact_drain<T>(vs: Seq<T>)
    ensures
        drain_model(push_all_model(Seq::<T>::empty(), vs), vs.len()).0.len() == 0,
        drain_model(push_all_model(Seq::<T>::empty(), vs), vs.len()).1.to_multiset()
            == vs.to_multiset(),
{
    assert(push_all_model(Seq::<T>::empty(), vs) =~= vs);
    lemma_drain_in_order(vs, vs.len());
    assert(vs.skip(vs.len() as int) =~= Seq::<T>::empty());
    lemma_fifo_order(vs);
}

} // verus!
