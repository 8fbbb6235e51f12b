//! A blocking, in-process, multi-producer/single-consumer channel.
//!
//! Any number of cloned [`Sender`] handles hand values of one type `T` to
//! a single [`Receiver`], which blocks until a value is available. All
//! handles share one state block: a mutex-protected [`queue::Fifo`] and a
//! condition variable. The queue logic — what is pending, what a send
//! adds, what a receive removes — is verified against the model in
//! [`laws`], which also proves the channel's delivery guarantees:
//! first-in-first-out order, exact round trips, and a complete drain with
//! no value lost and none duplicated. Only the thin shims around the
//! standard library's lock and condition variable are taken on trust.

pub mod laws;
pub mod queue;

use vstd::prelude::*;

verus! {

use std::sync::Arc;
use std::sync::Condvar;
use std::sync::Mutex;
use std::sync::MutexGuard;
use crate::queue::Fifo;

/// Declares `std::sync::Mutex` to the verifier as an opaque type.
#[verifier::external_type_specification]
#[verifier::external_body]
#[verifier::reject_recursive_types(T)]
pub struct ExMutex<T: ?Sized>(Mutex<T>);

/// Declares `std::sync::MutexGuard` to the verifier as an opaque type.
#[verifier::external_type_specification]
#[verifier::external_body]
#[verifier::reject_recursive_types(T)]
pub struct ExMutexGuard<'a, T: ?Sized + 'a>(MutexGuard<'a, T>);

/// Declares `std::sync::Condvar` to the verifier as an opaque type.
#[verifier::external_type_specification]
#[verifier::external_body]
pub struct ExCondvar(Condvar);

#[verifier::reject_recursive_types(T)]
struct Inner<T> {
    queue: Mutex<Fifo<T>>,
    available: Condvar,
}

/// A cloneable producer handle: appends values to the shared queue and
/// wakes the receiver.
#[verifier::reject_recursive_types(T)]
pub struct Sender<T> {
    inner: Arc<Inner<T>>,
}

/// The single consumer handle: removes the oldest pending value, blocking
/// while none is available.
#[verifier::reject_recursive_types(T)]
pub struct Receiver<T> {
    inner: Arc<Inner<T>>,
}

/// Relies on `Arc::clone`: the returned handle points to the same
/// allocation as `a`, so it dereferences to the same value.
#[verifier::external_body]
fn arc_clone<T>(a: &Arc<T>) -> (r: Arc<T>)
    ensures
        r == *a,
{
    Arc::clone(a)
}

/// Relies on `Mutex::new`: wraps `q` in an unlocked mutex.
#[verifier::external_body]
fn mutex_new<T>(q: Fifo<T>) -> (m: Mutex<Fifo<T>>) {
    Mutex::new(q)
}

/// Relies on `Mutex::lock`: blocks until the lock is free, then grants
/// exclusive access to the queue until the guard is dropped. A poisoned
/// lock is unwrapped; this library never panics while holding the lock,
/// so it never poisons it.
#[verifier::external_body]
fn lock<'a, T>(m: &'a Mutex<Fifo<T>>) -> (g: MutexGuard<'a, Fifo<T>>) {
    m.lock().unwrap()
}

/// Relies on `MutexGuard`'s `DerefMut`: the guard dereferences to the
/// queue the mutex protects.
#[verifier::external_body]
fn locked_queue<'a, 'b, T>(g: &'b mut MutexGuard<'a, Fifo<T>>) -> (q: &'b mut Fifo<T>) {
    &mut **g
}

/// Relies on dropping a `MutexGuard`: releases the lock.
#[verifier::external_body]
fn unlock<T>(g: MutexGuard<'_, Fifo<T>>) {
    drop(g);
}

/// Relies on `Condvar::new`: a fresh condition variable with no waiters.
#[verifier::external_body]
fn condvar_new() -> (cv: Condvar) {
    Condvar::new()
}

/// Relies on `Condvar::notify_one`: wakes at most one thread blocked on
/// `cv`; a no-op when none is waiting.
#[verifier::external_body]
fn notify_one(cv: &Condvar) {
    cv.notify_one();
}

/// Relies on `Condvar::wait_while`: atomically releases the lock and
/// blocks while the closure returns true, re-checking under the same
/// lock after every wakeup, so no wakeup is lost between a check and the
/// wait. The closure only calls the verified [`Fifo::pop`], so it returns
/// false exactly when it has taken the front value, which this function
/// then hands out; it blocks indefinitely while the queue stays empty.
#[verifier::external_body]
fn wait_pop<'a, T>(cv: &Condvar, g: MutexGuard<'a, Fifo<T>>) -> (t: T) {
    let mut taken: Option<T> = None;
    let g2 = cv
        .wait_while(g, |q: &mut Fifo<T>| {
            taken = q.pop();
            match &taken {
                None => true,
                Some(_) => false,
            }
        })
        .unwrap();
    drop(g2);
    taken.unwrap()
}

impl<T> Sender<T> {
    /// True when this sender feeds the channel that `r` drains.
    pub closed spec fn connected(self, r: Receiver<T>) -> bool {
        self.inner == r.inner
    }

    /// True when both senders feed the same channel.
    pub closed spec fn same_channel(self, other: Sender<T>) -> bool {
        self.inner == other.inner
    }

    /// Enqueue `t` at the back of the shared queue, then wake the
    /// receiver if it is blocked. Never fails, never rejects a value, and
    /// never blocks beyond the lock's critical section; the value is
    /// durably enqueued when this returns. The notification is issued
    /// after the lock is released.
    pub fn send(&mut self, t: T)
        ensures
            *final(self) == *old(self),
    {
        let mut g = lock(&self.inner.queue);
        let q = locked_queue(&mut g);
        q.push(t);
        unlock(g);
        notify_one(&self.inner.available);
    }
}

impl<T> Clone for Sender<T> {
    /// Duplicate the handle, never the queue: the clone feeds the very
    /// same channel.
    fn clone(&self) -> (res: Self)
        ensures
            res == *self,
            res.same_channel(*self),
    {
        Sender { inner: arc_clone(&self.inner) }
    }
}

impl<T> Receiver<T> {
    /// True when this receiver drains the channel that `s` feeds.
    pub closed spec fn connected(self, s: Sender<T>) -> bool {
        self.inner == s.inner
    }

    /// Remove and return the oldest pending value: first a verified
    /// attempt to pop the front of the queue; when nothing is pending,
    /// wait on the condition variable, re-checking under the lock, until
    /// a send makes a value available. Blocks forever if nothing is ever
    /// sent again.
    pub fn recv(&mut self) -> (t: T)
        ensures
            *final(self) == *old(self),
    {
        let mut g = lock(&self.inner.queue);
        let q = locked_queue(&mut g);
        let first = q.pop();
        match first {
            Option::Some(t) => {
                unlock(g);
                t
            },
            Option::None => wait_pop(&self.inner.available, g),
        }
    }

    /// Remove and return the oldest pending value, or `None` when nothing
    /// is pending right now. Never blocks beyond the lock's critical
    /// section.
    pub fn try_recv(&mut self) -> (t: Option<T>)
        ensures
            *final(self) == *old(self),
    {
        let mut g = lock(&self.inner.queue);
        let q = locked_queue(&mut g);
        let first = q.pop();
        unlock(g);
        first
    }
}

/// Construct a channel: one shared state block holding an empty queue
/// and a fresh condition variable, and one `Sender` and one `Receiver`
/// both referencing it. Further senders come only from cloning the
/// returned one.
pub fn channel<T>() -> (handles: (Sender<T>, Receiver<T>))
    ensures
        handles.0.connected(handles.1),
        handles.1.connected(handles.0),
{
    let inner = Arc::new(
        Inner { queue: mutex_new(Fifo::new()), available: condvar_new() },
    );
    let tx = Sender { inner: arc_clone(&inner) };
    let rx = Receiver { inner };
    (tx, rx)
}

} // verus!
