//! A consume-once channel: each published value is delivered to the consumer
//! at most once, and a newer value replaces an unread older one.
use std::sync::Arc;
use vstd::prelude::*;
use vstd::rwlock::{RwLock, RwLockPredicate};
use crate::utility::ring::RingStore;

verus! {

/// The abstract state of a consume-once channel: every value written so far
/// and whether the latest one still waits for the consumer.
pub ghost struct DrainModel<T> {
    pub history: Seq<T>,
    pub available: bool,
}

impl<T> DrainModel<T> {
    /// A fresh channel: nothing written, nothing to read.
    pub open spec fn empty() -> Self {
        DrainModel { history: Seq::empty(), available: false }
    }

    /// The value the next `consume` returns.
    pub open spec fn pending(self) -> Option<T> {
        if self.available { Some(self.history.last()) } else { None }
    }

    /// The state after the producer publishes `value`.
    pub open spec fn after_set(self, value: T) -> Self {
        DrainModel { history: self.history.push(value), available: true }
    }

    /// The state after the consumer takes the pending value.
    pub open spec fn after_consume(self) -> Self {
        DrainModel { history: self.history, available: false }
    }
}

/// The ring of a consume-once channel with its availability flag.
pub struct DrainState<T> {
    ring: RingStore<T>,
    available: bool,
}

impl<T: Copy> View for DrainState<T> {
    type V = DrainModel<T>;

    closed spec fn view(&self) -> DrainModel<T> {
        DrainModel { history: self.ring.history(), available: self.available }
    }
}

impl<T: Copy> DrainState<T> {
    pub closed spec fn wf(&self) -> bool {
        self.ring.wf() && (self.available ==> self.ring.history().len() > 0)
    }

    /// An empty channel state.
    pub fn new() -> (r: Self)
        ensures
            r.wf(),
            r@ == DrainModel::<T>::empty(),
    {
        DrainState { ring: RingStore::new(), available: false }
    }

    /// Writes `value` into the ring, then marks it available.
    pub fn set(&mut self, value: T)
        requires
            old(self).wf(),
        ensures
            final(self).wf(),
            final(self)@ == old(self)@.after_set(value),
    {
        self.ring.write(value);
        self.available = true;
    }

    /// Takes the pending value: none if nothing is available, else the latest
    /// write, after which nothing is available until the next `set`.
    pub fn consume(&mut self) -> (r: Option<T>)
        requires
            old(self).wf(),
        ensures
            final(self).wf(),
            r == old(self)@.pending(),
            final(self)@ == old(self)@.after_consume(),
    {
        if !self.available {
            None
        } else {
            self.available = false;
            Some(self.ring.read())
        }
    }
}

/// A fresh channel has nothing to consume.
pub proof fn lemma_fresh_is_empty<T>()
    ensures
        DrainModel::<T>::empty().pending() is None,
{
}

/// A value published once is consumed once: the first `consume` after a `set`
/// returns it, the one right after returns nothing.
pub proof fn lemma_consumed_once<T>(s: DrainModel<T>, v: T)
    ensures
        s.after_set(v).pending() == Some(v),
        s.after_set(v).after_consume().pending() is None,
{
}

/// Of two writes with no `consume` in between only the second is delivered,
/// and after it nothing is.
pub proof fn lemma_newer_replaces_unread<T>(s: DrainModel<T>, b: T, c: T)
    ensures
        s.after_set(b).after_set(c).pending() == Some(c),
        s.after_set(b).after_set(c).after_consume().pending() is None,
{
}

/// What the shared state satisfies whenever it is not being updated.
pub struct WellFormed;

impl<T: Copy> RwLockPredicate<DrainState<T>> for WellFormed {
    open spec fn inv(self, v: DrainState<T>) -> bool {
        v.wf()
    }
}

/// Makes a channel whose consumer reads nothing until the first `set`.
pub fn make<T: Copy>() -> (r: (Producer<T>, Consumer<T>))
    ensures
        r.0.channel() == r.1.channel(),
{
    let lock = RwLock::new(DrainState::new(), Ghost(WellFormed));
    let buffer = Arc::new(lock);
    (Producer { buffer: buffer.clone() }, Consumer { buffer })
}

/// A handle which publishes values on the channel.
pub struct Producer<T: Copy> {
    buffer: Arc<RwLock<DrainState<T>, WellFormed>>,
}

/// A handle which takes published values from the channel.
pub struct Consumer<T: Copy> {
    buffer: Arc<RwLock<DrainState<T>, WellFormed>>,
}

impl<T: Copy> Producer<T> {
    /// The lock that holds the channel state this handle works on.
    pub closed spec fn channel(&self) -> RwLock<DrainState<T>, WellFormed> {
        *self.buffer
    }

    /// Publishes `value`; an unread earlier value is dropped.
    pub fn set(&self, value: T) {
        let (mut state, handle) = self.buffer.acquire_write();
        state.set(value);
        handle.release_write(state);
    }
}

impl<T: Copy> Consumer<T> {
    /// The lock that holds the channel state this handle works on.
    pub closed spec fn channel(&self) -> RwLock<DrainState<T>, WellFormed> {
        *self.buffer
    }

    /// Takes the latest published value if it was not taken yet. The producer
    /// may publish at any time, so what comes back depends on when the state
    /// was read.
    pub fn consume(&self) -> Option<T> {
        let (mut state, handle) = self.buffer.acquire_write();
        let r = state.consume();
        handle.release_write(state);
        r
    }
}

} // verus!
