use atomiq::{Atomic, Atomize, Ordering, try_init_model};

#[test]
fn atomic_usize_test() {
    try_init_model(|| {
        let x: usize = 1;

        let mut atomic: Atomic<usize> = Atomic::from(x);

        assert_eq!(atomic.load(Ordering::Relaxed), 1);

        atomic.store(2, Ordering::Relaxed);

        assert_eq!(atomic.load(Ordering::Relaxed), 2);
    });
}

#[test]
fn store_then_load_observes_value() {
    let mut atomic: Atomic<u32> = Atomic::from(0u32);
    atomic.store(41, Ordering::Release);
    assert_eq!(atomic.load(Ordering::Acquire), 41);
    atomic.store(17, Ordering::SeqCst);
    assert_eq!(atomic.load(Ordering::SeqCst), 17);
}

#[test]
fn default_holds_zero() {
    let atomic: Atomic<u64> = Atomic::default();
    assert_eq!(atomic.load(Ordering::Relaxed), 0);
    let flag: Atomic<bool> = Atomic::default();
    assert_eq!(flag.load(Ordering::Relaxed), false);
}

#[test]
fn swap_returns_previous() {
    let mut atomic: Atomic<i32> = Atomic::from(-3i32);
    let prev = atomic.swap(12, Ordering::AcqRel);
    assert_eq!(prev, -3);
    assert_eq!(atomic.load(Ordering::Relaxed), 12);
}

#[test]
fn compare_exchange_success_and_failure() {
    let mut atomic: Atomic<u8> = Atomic::from(5u8);

    let ok = atomic.compare_exchange(5, 7, Ordering::AcqRel, Ordering::Acquire);
    assert_eq!(ok, Ok(5));
    assert_eq!(atomic.load(Ordering::Relaxed), 7);

    let err = atomic.compare_exchange(5, 9, Ordering::AcqRel, Ordering::Acquire);
    assert_eq!(err, Err(7));
    assert_eq!(atomic.load(Ordering::Relaxed), 7);
}

#[test]
fn compare_exchange_weak_success_eventually() {
    let mut atomic: Atomic<u16> = Atomic::from(1u16);
    loop {
        match atomic.compare_exchange_weak(1, 2, Ordering::AcqRel, Ordering::Acquire) {
            Ok(prev) => {
                assert_eq!(prev, 1);
                break;
            }
            Err(prev) => {
                assert_eq!(prev, 1);
            }
        }
    }
    assert_eq!(atomic.load(Ordering::Relaxed), 2);
}

#[test]
fn fetch_update_none_never_modifies() {
    let mut atomic: Atomic<u32> = Atomic::from(10u32);
    let result = atomic.fetch_update(Ordering::Relaxed, Ordering::Relaxed, |_| None);
    assert_eq!(result, Err(10));
    assert_eq!(atomic.load(Ordering::Relaxed), 10);
}

#[test]
fn fetch_update_some_commits() {
    let mut atomic: Atomic<u32> = Atomic::from(10u32);
    let result = atomic.fetch_update(Ordering::Relaxed, Ordering::Relaxed, |x| Some(x + 1));
    assert_eq!(result, Ok(10));
    assert_eq!(atomic.load(Ordering::Relaxed), 11);
}

#[test]
fn bit_and_int_fetch_ops_eight_bit() {
    let mut atomic: Atomic<u8> = Atomic::from(42u8);

    assert_eq!(atomic.fetch_and(3, Ordering::Relaxed), 42);
    assert_eq!(atomic.load(Ordering::Relaxed), 2);

    assert_eq!(atomic.fetch_add(1, Ordering::Relaxed), 2);
    assert_eq!(atomic.load(Ordering::Relaxed), 3);
}

#[test]
fn bitwise_fetch_ops() {
    let mut atomic: Atomic<u8> = Atomic::from(0b1100u8);

    assert_eq!(atomic.fetch_or(0b0011, Ordering::Relaxed), 0b1100);
    assert_eq!(atomic.load(Ordering::Relaxed), 0b1111);

    assert_eq!(atomic.fetch_xor(0b0101, Ordering::Relaxed), 0b1111);
    assert_eq!(atomic.load(Ordering::Relaxed), 0b1010);

    assert_eq!(atomic.fetch_nand(0b1000, Ordering::Relaxed), 0b1010);
    assert_eq!(atomic.load(Ordering::Relaxed), 0b1111_0111);
}

#[test]
fn bool_fetch_ops() {
    let mut flag: Atomic<bool> = Atomic::from(true);
    assert_eq!(flag.fetch_and(false, Ordering::Relaxed), true);
    assert_eq!(flag.load(Ordering::Relaxed), false);
    assert_eq!(flag.fetch_or(true, Ordering::Relaxed), false);
    assert_eq!(flag.load(Ordering::Relaxed), true);
    assert_eq!(flag.fetch_xor(true, Ordering::Relaxed), true);
    assert_eq!(flag.load(Ordering::Relaxed), false);
    assert_eq!(flag.fetch_nand(false, Ordering::Relaxed), false);
    assert_eq!(flag.load(Ordering::Relaxed), true);
}

#[test]
fn arithmetic_fetch_ops_wrap() {
    let mut atomic: Atomic<u8> = Atomic::from(250u8);
    assert_eq!(atomic.fetch_add(10, Ordering::Relaxed), 250);
    assert_eq!(atomic.load(Ordering::Relaxed), 4);

    assert_eq!(atomic.fetch_sub(10, Ordering::Relaxed), 4);
    assert_eq!(atomic.load(Ordering::Relaxed), 250);

    let mut signed: Atomic<i8> = Atomic::from(127i8);
    assert_eq!(signed.fetch_add(1, Ordering::Relaxed), 127);
    assert_eq!(signed.load(Ordering::Relaxed), -128);
}

#[test]
fn min_max_fetch_ops() {
    let mut atomic: Atomic<i64> = Atomic::from(5i64);
    assert_eq!(atomic.fetch_min(3, Ordering::Relaxed), 5);
    assert_eq!(atomic.load(Ordering::Relaxed), 3);
    assert_eq!(atomic.fetch_min(9, Ordering::Relaxed), 3);
    assert_eq!(atomic.load(Ordering::Relaxed), 3);
    assert_eq!(atomic.fetch_max(8, Ordering::Relaxed), 3);
    assert_eq!(atomic.load(Ordering::Relaxed), 8);
    assert_eq!(atomic.fetch_max(-1, Ordering::Relaxed), 8);
    assert_eq!(atomic.load(Ordering::Relaxed), 8);
}

#[test]
fn atomize_packs_the_value() {
    let atomic: Atomic<u16> = 9u16.atomize();
    assert_eq!(atomic.load(Ordering::Relaxed), 9);
}
