use smart::{SharedPointer, SyncPointer};
use std::cell::Cell;
use std::rc::Rc;
use std::sync::atomic::{AtomicUsize, Ordering};
use std::sync::Arc;

static X: i32 = 0;

/// A payload that counts how often it is dropped.
struct Counted {
    drops: Rc<Cell<usize>>,
    value: i32,
}

impl Drop for Counted {
    fn drop(&mut self) {
        self.drops.set(self.drops.get() + 1);
    }
}

/// The same for payloads that have to be `Send` and `Sync`.
struct CountedSync {
    drops: Arc<AtomicUsize>,
    value: i32,
}

impl Drop for CountedSync {
    fn drop(&mut self) {
        self.drops.fetch_add(1, Ordering::SeqCst);
    }
}

#[test]
fn clone_reads_the_same_value() {
    let shared = SharedPointer::from(Rc::new(17));
    let copy = shared.clone();
    assert_eq!(*copy, *shared);
    assert_eq!(*copy, 17);

    let sync = SyncPointer::from(Arc::new(18));
    let copy = sync.clone();
    assert_eq!(*copy, *sync);
    assert_eq!(*copy, 18);
}

#[test]
fn releasing_the_original_keeps_the_clone() {
    let shared = SharedPointer::from(Rc::new(1));
    let copy = shared.clone();
    drop(shared);
    assert_eq!(*copy, 1);

    let shared = SharedPointer::from(Arc::new(2));
    let copy = shared.clone();
    drop(shared);
    assert_eq!(*copy, 2);

    let shared = SharedPointer::from(&X);
    let copy = shared.clone();
    drop(shared);
    assert_eq!(*copy, 0);

    let sync = SyncPointer::new(3);
    let copy = sync.clone();
    drop(sync);
    assert_eq!(*copy, 3);
}

#[test]
fn releasing_the_clone_keeps_the_original() {
    let shared = SharedPointer::from(Rc::new(1));
    drop(shared.clone());
    assert_eq!(*shared, 1);

    let shared = SharedPointer::from(Arc::new(2));
    drop(shared.clone());
    assert_eq!(*shared, 2);

    let shared = SharedPointer::from(&X);
    drop(shared.clone());
    assert_eq!(*shared, 0);

    let sync = SyncPointer::from(&X);
    drop(sync.clone());
    assert_eq!(*sync, 0);
}

#[test]
fn clones_share_one_allocation() {
    let shared = SharedPointer::from(Rc::new(5));
    assert!(std::ptr::eq(&*shared, &*shared.clone()));
    let sync = SyncPointer::new(6);
    assert!(std::ptr::eq(&*sync, &*sync.clone()));
}

#[test]
fn rc_share_count_follows_clone_and_release() {
    let rc = Rc::new(0);
    assert_eq!(Rc::strong_count(&rc), 1);
    let first = SharedPointer::from(rc.clone());
    assert_eq!(Rc::strong_count(&rc), 2);
    let second = first.clone();
    let third = second.clone();
    assert_eq!(Rc::strong_count(&rc), 4);
    drop(second);
    assert_eq!(Rc::strong_count(&rc), 3);
    drop(first);
    drop(third);
    assert_eq!(Rc::strong_count(&rc), 1);
}

#[test]
fn arc_share_count_follows_clone_convert_and_release() {
    let arc = Arc::new(0);
    let shared = SharedPointer::from(arc.clone());
    let sync = SyncPointer::from(arc.clone());
    assert_eq!(Arc::strong_count(&arc), 3);
    let shared_copy = shared.clone();
    let sync_copy = sync.clone();
    assert_eq!(Arc::strong_count(&arc), 5);
    let upgraded = shared.try_into_sync().unwrap();
    let demoted = SharedPointer::from(sync);
    assert_eq!(Arc::strong_count(&arc), 5);
    drop(upgraded);
    drop(demoted);
    assert_eq!(Arc::strong_count(&arc), 3);
    drop(shared_copy);
    drop(sync_copy);
    assert_eq!(Arc::strong_count(&arc), 1);
}

#[test]
fn failed_upgrade_releases_its_share() {
    let rc = Rc::new(0);
    let shared = SharedPointer::from(rc.clone());
    assert_eq!(Rc::strong_count(&rc), 2);
    assert!(shared.try_into_sync().is_err());
    assert_eq!(Rc::strong_count(&rc), 1);
}

#[test]
fn rc_payload_is_dropped_once_with_the_last_handle() {
    let drops = Rc::new(Cell::new(0));
    let first = SharedPointer::from(Rc::new(Counted { drops: drops.clone(), value: 9 }));
    let second = first.clone();
    let third = first.clone();
    assert_eq!(third.value, 9);
    drop(first);
    assert_eq!(drops.get(), 0);
    drop(third);
    assert_eq!(drops.get(), 0);
    assert_eq!(second.value, 9);
    drop(second);
    assert_eq!(drops.get(), 1);
}

#[test]
fn arc_payload_is_dropped_once_with_the_last_handle() {
    let drops = Arc::new(AtomicUsize::new(0));
    let first = SharedPointer::new(CountedSync { drops: drops.clone(), value: 4 });
    let second = first.clone();
    let third = second.clone().try_into_sync().unwrap();
    let fourth = third.clone();
    let fifth = SharedPointer::from(fourth.clone());
    drop(first);
    drop(second);
    drop(third);
    assert_eq!(drops.load(Ordering::SeqCst), 0);
    drop(fourth);
    assert_eq!(drops.load(Ordering::SeqCst), 0);
    assert_eq!(fifth.value, 4);
    drop(fifth);
    assert_eq!(drops.load(Ordering::SeqCst), 1);
}

#[test]
fn sync_new_payload_is_dropped_once() {
    let drops = Arc::new(AtomicUsize::new(0));
    let sync = SyncPointer::new(CountedSync { drops: drops.clone(), value: 2 });
    let copy = sync.clone();
    drop(sync);
    assert_eq!(drops.load(Ordering::SeqCst), 0);
    assert_eq!(copy.value, 2);
    drop(copy);
    assert_eq!(drops.load(Ordering::SeqCst), 1);
}
