use vstd::prelude::*;

verus! {

/// Number of slots in a ring.
pub const BUFFER_SIZE: usize = 16;

/// A fixed-capacity circular store of 16 slots with a write cursor and a
/// published slot that names the most recently completed write.
///
/// The store is viewed as the sequence of every value ever written to it; a
/// slot is filled the first time the cursor reaches it, so no slot is read
/// before it holds a written value.
pub struct RingStore<T> {
    slots: Vec<T>,
    cursor: usize,
    published: usize,
    history: Ghost<Seq<T>>,
}

/// The smallest index of a write that is still held by some slot.
pub open spec fn window_start(len: int) -> int {
    if len >= BUFFER_SIZE as int { len - BUFFER_SIZE as int } else { 0 }
}

impl<T: Copy> RingStore<T> {
    /// Every value written so far, oldest first.
    pub closed spec fn history(&self) -> Seq<T> {
        self.history@
    }

    /// The most recently written value (meaningful once a write happened).
    pub open spec fn latest(&self) -> T {
        self.history().last()
    }

    pub closed spec fn wf(&self) -> bool {
        let h = self.history@;
        let n = h.len() as int;
        &&& self.slots@.len() == if n < 16 { n } else { 16 }
        &&& self.cursor as int == n % 16
        &&& n > 0 ==> self.published as int == (n - 1) % 16
        &&& forall|j: int| window_start(n) <= j < n ==> #[trigger] h[j] == self.slots@[j % 16]
    }

    /// An empty ring: nothing written yet. Room for every slot is reserved
    /// here, so no write allocates.
    pub fn new() -> (r: Self)
        ensures
            r.wf(),
            r.history() == Seq::<T>::empty(),
    {
        RingStore { slots: Vec::with_capacity(BUFFER_SIZE), cursor: 0, published: 0, history: Ghost(Seq::empty()) }
    }

    /// Whether any value has been written.
    pub fn has_value(&self) -> (r: bool)
        requires
            self.wf(),
        ensures
            r == (self.history().len() > 0),
    {
        self.slots.len() > 0
    }

    /// Stores `value` in the slot under the cursor, publishes that slot and
    /// advances the cursor modulo the slot count.
    pub fn write(&mut self, value: T)
        requires
            old(self).wf(),
        ensures
            final(self).wf(),
            final(self).history() == old(self).history().push(value),
    {
        let ghost h = self.history@;
        let x = self.cursor;
        if self.slots.len() < BUFFER_SIZE {
            self.slots.push(value);
        } else {
            self.slots.set(x, value);
        }
        self.published = x;
        self.cursor = (x + 1) % BUFFER_SIZE;
        self.history = Ghost(h.push(value));
        proof {
            let nh = h.push(value);
            assert forall|j: int|
                window_start(nh.len() as int) <= j < nh.len() implies #[trigger] nh[j] == self.slots@[j % 16] by {
                if j < h.len() {
                    assert(nh[j] == h[j]);
                    assert(j % 16 != h.len() % 16);
                }
            }
        }
    }

    /// The value in the published slot: the most recent write.
    pub fn read(&self) -> (r: T)
        requires
            self.wf(),
            self.history().len() > 0,
        ensures
            r == self.latest(),
    {
        let ghost h = self.history@;
        assert(h[h.len() - 1] == self.slots@[(h.len() - 1) % 16]);
        self.slots[self.published]
    }
}

/// However many writes a ring took, and however often its cursor wrapped round,
/// a ring that went on to take `writes` reads the last of them.
pub proof fn lemma_read_after_wrap<T: Copy>(earlier: RingStore<T>, later: RingStore<T>, writes: Seq<T>)
    requires
        writes.len() > 0,
        later.history() == earlier.history() + writes,
    ensures
        later.latest() == writes.last(),
{
}

} // verus!
