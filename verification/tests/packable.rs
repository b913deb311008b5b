use atomiq::{Atomic, Atomizable, Counter, Ordering, Phase};

#[test]
fn primitive_round_trips_are_identity() {
    assert_eq!(bool::unpack(true.pack()), true);
    assert_eq!(u8::unpack(200u8.pack()), 200);
    assert_eq!(u64::unpack(u64::MAX.pack()), u64::MAX);
    assert_eq!(i32::unpack((-5i32).pack()), -5);
    assert_eq!(usize::unpack(0usize.pack()), 0);
}

#[test]
fn counter_round_trips() {
    let value = Counter(123456);
    assert_eq!(value.pack(), 123456);
    assert_eq!(Counter::unpack(value.pack()), value);
}

#[test]
fn phase_round_trips() {
    assert_eq!(Phase::Idle.pack(), 0);
    assert_eq!(Phase::Running.pack(), 1);
    assert_eq!(Phase::Done.pack(), 2);
    assert_eq!(Phase::unpack(Phase::Idle.pack()), Phase::Idle);
    assert_eq!(Phase::unpack(Phase::Running.pack()), Phase::Running);
    assert_eq!(Phase::unpack(Phase::Done.pack()), Phase::Done);
}

#[test]
fn phase_container_operations() {
    let mut atomic: Atomic<Phase> = Atomic::from(Phase::Idle);
    assert_eq!(atomic.load(Ordering::Acquire), Phase::Idle);

    atomic.store(Phase::Running, Ordering::Release);
    assert_eq!(atomic.load(Ordering::Acquire), Phase::Running);

    let prev = atomic.swap(Phase::Done, Ordering::AcqRel);
    assert_eq!(prev, Phase::Running);
    assert_eq!(atomic.load(Ordering::Acquire), Phase::Done);

    let exchanged = atomic.compare_exchange(
        Phase::Done,
        Phase::Idle,
        Ordering::AcqRel,
        Ordering::Acquire,
    );
    assert_eq!(exchanged, Ok(Phase::Done));
    assert_eq!(atomic.load(Ordering::Acquire), Phase::Idle);
}

#[test]
fn counter_container_arithmetic() {
    let mut atomic: Atomic<Counter> = Atomic::from(Counter(10));
    let prev = atomic.fetch_add(Counter(5), Ordering::Relaxed);
    assert_eq!(prev, Counter(10));
    assert_eq!(atomic.load(Ordering::Relaxed), Counter(15));

    let prev = atomic.fetch_and(Counter(0b110), Ordering::Relaxed);
    assert_eq!(prev, Counter(15));
    assert_eq!(atomic.load(Ordering::Relaxed), Counter(0b110));
}
