//! The shared channel state: a first-in-first-out queue of pending values,
//! together with a ghost record of the full send history.
//!
//! The ghost record is what makes the channel's guarantee precise: at all
//! times the pending values are exactly the sent-but-undelivered values,
//! in the order the sends were linearized.

use vstd::prelude::*;

verus! {

use std::collections::VecDeque;
use crate::laws::pop_model;
use crate::laws::push_model;

/// The state block every handle of one channel shares: the pending values,
/// plus a ghost history of every value ever enqueued and a ghost count of
/// how many of those have been handed out.
pub struct Fifo<T> {
    items: VecDeque<T>,
    history: Ghost<Seq<T>>,
    delivered: Ghost<nat>,
}

impl<T> Fifo<T> {
    /// The values enqueued but not yet dequeued, oldest first.
    pub closed spec fn pending(self) -> Seq<T> {
        self.items@
    }

    /// Every value ever enqueued, in the order the enqueues happened.
    pub closed spec fn sent(self) -> Seq<T> {
        self.history@
    }

    /// How many values from the front of `sent` have been dequeued.
    pub closed spec fn taken(self) -> nat {
        self.delivered@
    }

    /// The queue invariant: what is pending is exactly the undelivered
    /// suffix of the send history, in send order. This is the heart of
    /// the channel's first-in-first-out, no-loss, no-duplication story.
    pub open spec fn wf(self) -> bool {
        &&& self.taken() <= self.sent().len()
        &&& self.pending() == self.sent().skip(self.taken() as int)
    }

    /// A fresh, empty queue with an empty history.
    pub fn new() -> (q: Self)
        ensures
            q.pending() == Seq::<T>::empty(),
            q.sent() == Seq::<T>::empty(),
            q.taken() == 0,
            q.wf(),
    {
        let q = Fifo {
            items: VecDeque::new(),
            history: Ghost(Seq::empty()),
            delivered: Ghost(0),
        };
        proof {
            assert(q.pending() =~= q.sent().skip(0));
        }
        q
    }

    /// How many values are pending.
    pub fn len(&self) -> (n: usize)
        ensures
            n == self.pending().len(),
    {
        self.items.len()
    }

    /// True when nothing is pending.
    pub fn is_empty(&self) -> (r: bool)
        ensures
            r <==> self.pending().len() == 0,
    {
        self.items.len() == 0
    }

    /// Enqueue `t` at the back: one send step of the model in [`crate::laws`].
    /// The value becomes the newest pending value and the newest entry of
    /// the send history. Never fails, never rejects a value.
    pub fn push(&mut self, t: T)
        ensures
            final(self).pending() == push_model(old(self).pending(), t),
            final(self).sent() == push_model(old(self).sent(), t),
            final(self).taken() == old(self).taken(),
            old(self).wf() ==> final(self).wf(),
    {
        let ghost v = t;
        self.items.push_back(t);
        proof {
            self.history@ = self.history@.push(v);
            if old(self).wf() {
                assert(self.pending() =~= self.sent().skip(self.delivered@ as int));
            }
        }
    }

    /// Dequeue the oldest pending value, or report that none is pending:
    /// one receive step of the model in [`crate::laws`]. Returns `Some`
    /// exactly when the queue is non-empty, and then hands out the front
    /// value: entry `taken()` of the send history once the invariant
    /// holds.
    pub fn pop(&mut self) -> (t: Option<T>)
        ensures
            final(self).sent() == old(self).sent(),
            match t {
                Option::Some(v) => {
                    &&& old(self).pending().len() > 0
                    &&& v == pop_model(old(self).pending()).1
                    &&& final(self).pending() == pop_model(old(self).pending()).0
                    &&& final(self).taken() == old(self).taken() + 1
                },
                Option::None => {
                    &&& old(self).pending().len() == 0
                    &&& final(self).pending() == old(self).pending()
                    &&& final(self).taken() == old(self).taken()
                },
            },
            old(self).wf() ==> final(self).wf(),
    {
        let t = self.items.pop_front();
        match &t {
            Option::Some(_) => {
                proof {
                    self.delivered@ = self.delivered@ + 1;
                    assert(self.pending() =~= old(self).pending().skip(1));
                    if old(self).wf() {
                        assert(self.pending() =~= self.sent().skip(self.delivered@ as int));
                    }
                }
            },
            Option::None => {
            },
        }
        t
    }

    /// First-in-first-out, read off the invariant: every pending value
    /// sits in the send history right after the delivered prefix, so the
    /// receiver hands values out in exactly the order they were sent.
    pub proof fn lemma_pending_in_send_order(self, i: int)
        requires
            self.wf(),
            0 <= i < self.pending().len(),
        ensures
            self.pending()[i] == self.sent()[self.taken() + i],
    {
    }
}

} // verus!
