use atomiq::option::AtomicOption;
use atomiq::{Ordering, OrderingExt, try_init_model};

#[test]
fn test_atomic_option_loom_sync() {
    try_init_model(move || {
        let ordering = Ordering::Relaxed;
        let mut option: AtomicOption<i32> = AtomicOption::none();

        assert!(option.is_none(ordering.for_load()));
        assert!(!option.is_some(ordering.for_load()));
        assert_eq!(option.load(ordering.for_load()), None);

        option.store_some(42, ordering.for_store());

        assert!(!option.is_none(ordering.for_load()));
        assert!(option.is_some(ordering.for_load()));
        assert_eq!(option.load(ordering.for_load()), Some(42));

        option.store_none(ordering.for_store());

        assert!(option.is_none(ordering.for_load()));
        assert!(!option.is_some(ordering.for_load()));
        assert_eq!(option.load(ordering.for_load()), None);
    });
}

#[test]
fn publish_is_observed_in_full() {
    let mut option: AtomicOption<i32> = AtomicOption::none();
    assert_eq!(option.load(Ordering::Acquire), None);

    option.store(Some(42), Ordering::Release);

    let observed = option.load(Ordering::Acquire);
    assert_eq!(observed, Some(42));
    assert_ne!(observed, Some(0));
}

#[test]
fn retract_leaves_none() {
    let mut option: AtomicOption<u32> = AtomicOption::some(7u32);
    assert!(option.is_some(Ordering::Acquire));
    assert_eq!(option.unwrap(Ordering::Acquire), 7);

    option.store_none(Ordering::Release);

    assert!(!option.is_some(Ordering::Acquire));
    assert!(option.is_none(Ordering::Acquire));
    assert_eq!(option.load(Ordering::Acquire), None);
}

#[test]
fn store_takes_both_directions() {
    let mut option: AtomicOption<u8> = AtomicOption::none();

    option.store(Some(9), Ordering::SeqCst);
    assert_eq!(option.load(Ordering::SeqCst), Some(9));

    option.store(None, Ordering::SeqCst);
    assert_eq!(option.load(Ordering::SeqCst), None);

    option.store(Some(11), Ordering::SeqCst);
    assert_eq!(option.unwrap(Ordering::SeqCst), 11);
}

#[test]
fn from_option_constructors() {
    let some: AtomicOption<i64> = AtomicOption::from(Some(-4i64));
    assert!(some.is_some(Ordering::Acquire));
    assert_eq!(some.load(Ordering::Acquire), Some(-4));

    let none: AtomicOption<i64> = AtomicOption::from(None);
    assert!(none.is_none(Ordering::Acquire));
    assert_eq!(none.load(Ordering::Acquire), None);
}
