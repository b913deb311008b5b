use atomiq::{Ordering, OrderingExt};

#[test]
fn for_load_canonicalizes() {
    assert_eq!(Ordering::Relaxed.for_load(), Ordering::Relaxed);
    assert_eq!(Ordering::Acquire.for_load(), Ordering::Acquire);
    assert_eq!(Ordering::AcqRel.for_load(), Ordering::Acquire);
    assert_eq!(Ordering::SeqCst.for_load(), Ordering::SeqCst);
}

#[test]
fn for_store_canonicalizes() {
    assert_eq!(Ordering::Relaxed.for_store(), Ordering::Relaxed);
    assert_eq!(Ordering::Release.for_store(), Ordering::Release);
    assert_eq!(Ordering::AcqRel.for_store(), Ordering::Release);
    assert_eq!(Ordering::SeqCst.for_store(), Ordering::SeqCst);
}
