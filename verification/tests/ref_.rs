use atomic_option_ref::AtomicRef;
use std::sync::Arc;

#[test]
fn test_ref_new_default() {
    let m = AtomicRef::<u32>::new();
    assert_eq!(*m.load(), 0);
}

#[test]
fn test_ref_from_load() {
    let m = AtomicRef::<String>::from(String::from("init"));
    assert_eq!(m.load().as_ref(), "init");
}

#[test]
fn test_ref_store_swap() {
    let m = AtomicRef::from(10u32);
    m.store(11u32);
    assert_eq!(*m.load(), 11);
    let prev = m.swap(Arc::new(12u32));
    assert_eq!(*prev, 11);
    assert_eq!(*m.load(), 12);
}

#[test]
fn test_ref_handle_survives_store() {
    let m = AtomicRef::from(1u32);
    let h = m.load();
    m.store(2u32);
    assert_eq!(*h, 1);
    assert_eq!(*m.load(), 2);
}
