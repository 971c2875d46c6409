use battlefield::Counter;

#[test]
fn increment() {
    let mut contract = Counter { val: 0 };
    contract.increment();
    println!("Value after increment: {}", contract.get_num());
    assert_eq!(1, contract.get_num());
}

#[test]
fn decrement() {
    let mut contract = Counter { val: 0 };
    contract.decrement();
    println!("Value after decrement: {}", contract.get_num());
    assert_eq!(-1, contract.get_num());
}

#[test]
fn increment_and_reset() {
    let mut contract = Counter { val: 0 };
    contract.increment();
    contract.reset();
    println!("Value after reset: {}", contract.get_num());
    assert_eq!(0, contract.get_num());
}

#[test]
fn increment_wraps_at_the_top() {
    let mut c = Counter::new(127);
    c.increment();
    assert_eq!(c.get_num(), -128);
}

#[test]
fn decrement_wraps_at_the_bottom() {
    let mut c = Counter::new(-128);
    c.decrement();
    assert_eq!(c.get_num(), 127);
}
