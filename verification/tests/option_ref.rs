use atomic_option_ref::AtomicOptionRef;
use std::sync::atomic::AtomicUsize;
use std::sync::atomic::Ordering;
use std::sync::Arc;

/// A value that reports its destruction to a shared counter.
struct Foo {
    drops: Arc<AtomicUsize>,
}

impl Drop for Foo {
    fn drop(&mut self) {
        self.drops.fetch_add(1, Ordering::SeqCst);
    }
}

#[test]
fn test_store_load() {
    let m = AtomicOptionRef::<String>::new();

    // Store
    m.store(String::from("2"));

    // Load and assert
    assert_eq!(m.load().unwrap().as_ref(), "2");
}

#[test]
fn test_overwrite() {
    let m = AtomicOptionRef::<String>::new();

    // Store
    m.store(String::from("Hello World"));

    // Take a reference
    let m0 = m.load();

    // Store (again)
    m.store(String::from("Goodbye World"));

    // Compare value of stored
    assert_eq!(m0.unwrap().as_ref(), "Hello World");

    // Compare value of new
    assert_eq!(m.load().unwrap().as_ref(), "Goodbye World");
}

#[test]
fn test_drop() {
    let drops = Arc::new(AtomicUsize::new(0));
    let m = AtomicOptionRef::<Foo>::new();

    m.swap(Foo { drops: Arc::clone(&drops) });
    m.swap(Foo { drops: Arc::clone(&drops) });

    assert_eq!(drops.load(Ordering::SeqCst), 1);
}

#[test]
fn test_empty_cell() {
    let m = AtomicOptionRef::<u32>::new();
    assert!(m.load().is_none());
    assert!(!m.is_some());
    let prev = m.swap(5u32);
    assert!(prev.is_none());
    assert_eq!(*m.load().unwrap(), 5);
    assert!(m.is_some());
}

#[test]
fn test_swap_returns_previous() {
    let m = AtomicOptionRef::<u32>::new();
    m.store(1u32);
    let p = m.swap(2u32);
    assert_eq!(*p.unwrap(), 1);
    assert_eq!(*m.load().unwrap(), 2);
}

#[test]
fn test_from_initial_value() {
    let m = AtomicOptionRef::from(String::from("seed"));
    assert!(m.is_some());
    assert_eq!(m.load().unwrap().as_ref(), "seed");
}

#[test]
fn test_store_none_empties() {
    let m = AtomicOptionRef::<u32>::from(3u32);
    m.store(None::<Arc<u32>>);
    assert!(m.load().is_none());
    assert!(!m.is_some());
}

#[test]
fn test_drop_timing() {
    let first = Arc::new(AtomicUsize::new(0));
    let second = Arc::new(AtomicUsize::new(0));
    let third = Arc::new(AtomicUsize::new(0));
    let m = AtomicOptionRef::<Foo>::new();

    m.store(Foo { drops: Arc::clone(&first) });
    let held = m.load();

    // The slot's unit of the first value is released, but the loaded handle
    // still keeps the value alive.
    m.store(Foo { drops: Arc::clone(&second) });
    assert_eq!(first.load(Ordering::SeqCst), 0);

    // Releasing the last outstanding unit fires the destructor, once.
    drop(held);
    assert_eq!(first.load(Ordering::SeqCst), 1);

    // Displacing the second value releases its only unit.
    m.store(Foo { drops: Arc::clone(&third) });
    assert_eq!(second.load(Ordering::SeqCst), 1);
    assert_eq!(first.load(Ordering::SeqCst), 1);

    // Destroying the cell releases the resident value.
    assert_eq!(third.load(Ordering::SeqCst), 0);
    drop(m);
    assert_eq!(third.load(Ordering::SeqCst), 1);
}
