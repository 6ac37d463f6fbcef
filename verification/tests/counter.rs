use shared_counter::counter::Counter;

#[test]
fn fresh_counter_holds_zero() {
    let counter = Counter::new();
    assert_eq!(counter.get(), 0);
}

#[test]
fn counter_init_read_increment_increment_read() {
    let mut counter = Counter::new();
    assert_eq!(counter.get(), 0);
    assert_eq!(counter.increment(), 1);
    assert_eq!(counter.increment(), 2);
    assert_eq!(counter.get(), 2);
}

#[test]
fn counter_reads_n_after_n_increments() {
    for n in [0, 1, 2, 7, 1000] {
        let mut counter = Counter::new();
        for _ in 0..n {
            counter.increment();
        }
        assert_eq!(counter.get(), n);
    }
}

#[test]
fn counter_read_does_not_change_the_value() {
    let mut counter = Counter::new();
    counter.increment();
    counter.increment();
    counter.increment();
    for _ in 0..10 {
        assert_eq!(counter.get(), 3);
    }
    assert_eq!(counter.increment(), 4);
}

#[test]
fn increment_reaches_the_largest_value() {
    let mut counter = Counter::with_value(i32::MAX - 1).unwrap();
    assert_eq!(counter.increment(), i32::MAX);
    assert_eq!(counter.get(), i32::MAX);
}

#[test]
fn with_value_goes_on_from_the_value() {
    let mut counter = Counter::with_value(41).unwrap();
    assert_eq!(counter.get(), 41);
    assert_eq!(counter.increment(), 42);
    let zero = Counter::with_value(0).unwrap();
    assert_eq!(zero.get(), 0);
}

#[test]
fn with_value_refuses_a_negative_value() {
    assert!(Counter::with_value(-1).is_none());
    assert!(Counter::with_value(i32::MIN).is_none());
}
