use std::cell::Cell;
use storm::init::{StaticHeap, StaticStack};

fn answer() -> u64 {
    42
}

#[test]
fn stack_holder_stores_factory_value() {
    let mut holder = StaticStack::new(answer);
    holder.init();
    assert_eq!(*holder.deref(), 42);
}

#[test]
fn heap_holder_stores_factory_value() {
    let mut holder = StaticHeap::new(|| vec![1u8, 2, 3]);
    holder.init();
    assert_eq!(*holder.deref(), vec![1u8, 2, 3]);
}

#[test]
fn stack_factory_runs_once_per_init() {
    let calls = Cell::new(0u32);
    let mut holder = StaticStack::new(|| {
        calls.set(calls.get() + 1);
        calls.get() * 10
    });
    assert_eq!(calls.get(), 0);
    holder.init();
    assert_eq!(calls.get(), 1);
    assert_eq!(*holder.deref(), 10);
    assert_eq!(*holder.deref(), 10);
    assert_eq!(calls.get(), 1);
}

#[test]
fn heap_factory_runs_once_per_init() {
    let calls = Cell::new(0u32);
    let mut holder = StaticHeap::new(|| {
        calls.set(calls.get() + 1);
        String::from("config")
    });
    assert_eq!(calls.get(), 0);
    holder.init();
    assert_eq!(calls.get(), 1);
    assert_eq!(holder.deref().as_str(), "config");
    assert_eq!(calls.get(), 1);
}
