//! One-time initialised value holders: an inert placeholder that keeps a
//! factory, filled once by `init` and read through `deref` from then on.
use vstd::prelude::*;

verus! {

/// Holds its value inline, once `init` has run the factory.
#[verifier::reject_recursive_types(T)]
pub struct StaticStack<T, F: Fn() -> T> {
    store: Option<T>,
    initializer: F,
}

/// Holds its value in a separate heap allocation, once `init` has run the
/// factory.
#[verifier::reject_recursive_types(T)]
pub struct StaticHeap<T, F: Fn() -> T> {
    store: Option<Box<T>>,
    initializer: F,
}

impl<T, F: Fn() -> T> StaticStack<T, F> {
    /// The factory this holder runs on `init`.
    pub closed spec fn factory(&self) -> F {
        self.initializer
    }

    /// Whether `init` has run.
    pub closed spec fn is_init(&self) -> bool {
        self.store is Some
    }

    /// The stored value (meaningful once `init` has run).
    pub closed spec fn value(&self) -> T {
        self.store->Some_0
    }

    /// An inert placeholder that keeps `initializer` and holds no value yet.
    pub fn new(initializer: F) -> (r: Self)
        ensures
            r.factory() == initializer,
            !r.is_init(),
    {
        StaticStack { store: None, initializer }
    }

    /// Runs the factory once and stores what it returns.
    pub fn init(&mut self)
        requires
            old(self).factory().requires(()),
        ensures
            final(self).is_init(),
            final(self).factory() == old(self).factory(),
            old(self).factory().ensures((), final(self).value()),
    {
        let value = (self.initializer)();
        self.store = Some(value);
    }

    /// The stored value; only after `init`.
    pub fn deref(&self) -> (r: &T)
        requires
            self.is_init(),
        ensures
            *r == self.value(),
    {
        self.store.as_ref().unwrap()
    }
}

impl<T, F: Fn() -> T> StaticHeap<T, F> {
    /// The factory this holder runs on `init`.
    pub closed spec fn factory(&self) -> F {
        self.initializer
    }

    /// Whether `init` has run.
    pub closed spec fn is_init(&self) -> bool {
        self.store is Some
    }

    /// The stored value (meaningful once `init` has run).
    pub closed spec fn value(&self) -> T {
        *self.store->Some_0
    }

    /// An inert placeholder that keeps `initializer` and allocates nothing.
    pub fn new(initializer: F) -> (r: Self)
        ensures
            r.factory() == initializer,
            !r.is_init(),
    {
        StaticHeap { store: None, initializer }
    }

    /// Runs the factory once and moves what it returns to the heap.
    pub fn init(&mut self)
        requires
            old(self).factory().requires(()),
        ensures
            final(self).is_init(),
            final(self).factory() == old(self).factory(),
            old(self).factory().ensures((), final(self).value()),
    {
        let value = (self.initializer)();
        self.store = Some(Box::new(value));
    }

    /// The stored value; only after `init`.
    pub fn deref(&self) -> (r: &T)
        requires
            self.is_init(),
        ensures
            *r == self.value(),
    {
        self.store.as_ref().unwrap()
    }
}

/// What `deref` yields after `init` is what the factory produced: a holder in
/// the state `init` leaves, whose factory returns `v` on every call, holds `v`.
pub proof fn lemma_stack_yields_factory_value<T, F: Fn() -> T>(holder: StaticStack<T, F>, v: T)
    requires
        holder.is_init(),
        holder.factory().ensures((), holder.value()),
        forall|r: T| holder.factory().ensures((), r) ==> r == v,
    ensures
        holder.value() == v,
{
}

/// What `deref` yields after `init` is what the factory produced: a holder in
/// the state `init` leaves, whose factory returns `v` on every call, holds `v`.
pub proof fn lemma_heap_yields_factory_value<T, F: Fn() -> T>(holder: StaticHeap<T, F>, v: T)
    requires
        holder.is_init(),
        holder.factory().ensures((), holder.value()),
        forall|r: T| holder.factory().ensures((), r) ==> r == v,
    ensures
        holder.value() == v,
{
}

} // verus!
