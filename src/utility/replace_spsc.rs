//! A latest-value-wins channel: the producer overwrites the current value, the
//! consumer reads the most recently published value as often as it likes.
use std::sync::Arc;
use vstd::prelude::*;
use vstd::rwlock::{RwLock, RwLockPredicate};
use crate::utility::ring::RingStore;

verus! {

/// The value a consumer reads from a channel whose writes are `history`.
pub open spec fn current<T>(history: Seq<T>) -> T {
    history.last()
}

/// What the shared ring satisfies whenever it is not being updated: it is well
/// formed and holds at least the initial value.
pub struct Initialised;

impl<T: Copy> RwLockPredicate<RingStore<T>> for Initialised {
    open spec fn inv(self, v: RingStore<T>) -> bool {
        v.wf() && v.history().len() > 0
    }
}

/// The ring of a freshly made channel: `initial` is its one write.
pub fn initial_ring<T: Copy>(initial: T) -> (r: RingStore<T>)
    ensures
        r.wf(),
        r.history() == seq![initial],
        current(r.history()) == initial,
{
    let mut ring = RingStore::new();
    ring.write(initial);
    assert(ring.history() =~= seq![initial]);
    ring
}

/// Publishes `value` on `ring`: it becomes the current value.
pub fn publish<T: Copy>(ring: &mut RingStore<T>, value: T)
    requires
        old(ring).wf(),
        old(ring).history().len() > 0,
    ensures
        final(ring).wf(),
        final(ring).history() == old(ring).history().push(value),
        current(final(ring).history()) == value,
{
    ring.write(value);
}

/// The current value of `ring`; reading changes nothing.
pub fn current_value<T: Copy>(ring: &RingStore<T>) -> (r: T)
    requires
        ring.wf(),
        ring.history().len() > 0,
    ensures
        r == current(ring.history()),
{
    ring.read()
}

/// A channel made with `initial` reads `initial` before any write.
pub proof fn lemma_initial_visible<T>(initial: T)
    ensures
        current(seq![initial]) == initial,
{
}

/// After any non-empty run of writes with no reads in between, the channel
/// reads the last of them, whatever it held before.
pub proof fn lemma_last_write_wins<T>(before: Seq<T>, writes: Seq<T>)
    requires
        writes.len() > 0,
    ensures
        current(before + writes) == writes.last(),
{
}

/// Makes a channel whose consumer reads `initial` until the first `set`.
pub fn make<T: Copy>(initial: T) -> (r: (Producer<T>, Consumer<T>))
    ensures
        r.0.channel() == r.1.channel(),
{
    let lock = RwLock::new(initial_ring(initial), Ghost(Initialised));
    let buffer = Arc::new(lock);
    (Producer { buffer: buffer.clone() }, Consumer { buffer })
}

/// A handle which publishes values on the channel.
pub struct Producer<T: Copy> {
    buffer: Arc<RwLock<RingStore<T>, Initialised>>,
}

/// A handle which reads the channel's current value.
pub struct Consumer<T: Copy> {
    buffer: Arc<RwLock<RingStore<T>, Initialised>>,
}

impl<T: Copy> Producer<T> {
    /// The lock that holds the channel state this handle works on.
    pub closed spec fn channel(&self) -> RwLock<RingStore<T>, Initialised> {
        *self.buffer
    }

    /// Publishes `value`, overwriting whatever was current, read or not.
    pub fn set(&self, value: T) {
        let (mut ring, handle) = self.buffer.acquire_write();
        publish(&mut ring, value);
        handle.release_write(ring);
    }
}

impl<T: Copy> Consumer<T> {
    /// The lock that holds the channel state this handle works on.
    pub closed spec fn channel(&self) -> RwLock<RingStore<T>, Initialised> {
        *self.buffer
    }

    /// The most recently published value. The producer may publish at any
    /// time, so the value is whichever write was last when the ring was read.
    pub fn get(&self) -> T {
        let handle = self.buffer.acquire_read();
        let r = current_value(handle.borrow());
        handle.release_read();
        r
    }
}

} // verus!
