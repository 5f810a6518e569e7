use smart::{SharedPointer, SyncPointer};
use std::rc::Rc;
use std::sync::Arc;

static X: i32 = 0;

// All of these clone to exercise both duplicating and releasing a handle.

#[test]
fn construct_shared_from_static() {
    assert_eq!(*SharedPointer::from(&X).clone(), 0);
}

#[test]
fn construct_shared_from_rc() {
    assert_eq!(*SharedPointer::from(Rc::new(0)).clone(), 0);
}

#[test]
fn construct_shared_from_arc() {
    assert_eq!(*SharedPointer::from(Arc::new(0)).clone(), 0);
}

#[test]
fn construct_sync_from_static() {
    assert_eq!(*SyncPointer::from(&X).clone(), 0);
}

#[test]
fn construct_sync_from_arc() {
    assert_eq!(*SyncPointer::from(Arc::new(0)).clone(), 0);
}

#[test]
fn construct_shared_new() {
    let shared = SharedPointer::new(41);
    assert_eq!(*shared, 41);
    assert!(shared.is_sync());
}

#[test]
fn construct_sync_new() {
    let sync = SyncPointer::new(String::from("payload"));
    assert_eq!(*sync, "payload");
    assert_eq!(sync.len(), 7);
}

#[test]
fn read_yields_the_value_for_every_backend() {
    assert_eq!(*SharedPointer::from(Rc::new(7u64)), 7);
    assert_eq!(*SharedPointer::from(Arc::new(8u64)), 8);
    assert_eq!(*SharedPointer::from(&X), 0);
    assert_eq!(*SyncPointer::from(Arc::new(9u64)), 9);
    assert_eq!(*SyncPointer::from(&X), 0);
}

#[test]
fn static_handles_read_the_referenced_place() {
    let shared = SharedPointer::from(&X);
    let sync = SyncPointer::from(&X);
    assert!(std::ptr::eq(&*shared, &X));
    assert!(std::ptr::eq(&*sync, &X));
    assert!(std::ptr::eq(&*shared.clone(), &X));
}

#[test]
fn counted_handles_read_the_given_allocation() {
    let rc = Rc::new(5);
    let arc = Arc::new(6);
    let from_rc = SharedPointer::from(rc.clone());
    let from_arc = SyncPointer::from(arc.clone());
    assert!(std::ptr::eq(&*from_rc, &*rc));
    assert!(std::ptr::eq(&*from_arc, &*arc));
}

#[test]
fn unsized_payloads() {
    let text: Rc<str> = Rc::from("shared text");
    let shared = SharedPointer::from(text);
    assert_eq!(&*shared, "shared text");

    let bytes: Arc<[u8]> = Arc::from(vec![1u8, 2, 3]);
    let sync = SyncPointer::from(bytes);
    assert_eq!(&*sync, &[1u8, 2, 3][..]);
    assert_eq!(sync.clone().len(), 3);

    let literal: SharedPointer<str> = SharedPointer::from("literal");
    assert_eq!(&*literal.clone(), "literal");
}

#[test]
fn is_sync_tells_the_backend() {
    assert!(!SharedPointer::from(Rc::new(0)).is_sync());
    assert!(SharedPointer::from(Arc::new(0)).is_sync());
    assert!(SharedPointer::from(&X).is_sync());
    assert!(SharedPointer::new(0).is_sync());
    assert!(!SharedPointer::from(Rc::new(0)).clone().is_sync());
    assert!(SharedPointer::from(Arc::new(0)).clone().is_sync());
}
