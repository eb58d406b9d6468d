use request_counter::counter::{sequential_values, Counter};
use request_counter::routes::counter_message;

#[test]
fn new_counter_starts_at_zero() {
    let c = Counter::new();
    assert_eq!(c.value, 0);
}

#[test]
fn increment_returns_each_new_value() {
    let mut c = Counter::new();
    assert_eq!(c.increment(), 1);
    assert_eq!(c.increment(), 2);
    assert_eq!(c.value, 2);
}

#[test]
fn sequential_values_are_one_to_n() {
    let mut c = Counter::new();
    let vals = sequential_values(&mut c, 5);
    assert_eq!(vals, vec![1, 2, 3, 4, 5]);
    assert_eq!(c.value, 5);
}

#[test]
fn sequential_values_have_no_duplicates_and_no_gaps() {
    let mut c = Counter::new();
    let n: u32 = 100;
    let mut vals = sequential_values(&mut c, n);
    vals.sort();
    let expected: Vec<i32> = (1..=(n as i32)).collect();
    assert_eq!(vals, expected);
}

#[test]
fn sequential_values_continue_from_current_value() {
    let mut c = Counter::new();
    c.increment();
    c.increment();
    let vals = sequential_values(&mut c, 3);
    assert_eq!(vals, vec![3, 4, 5]);
}

#[test]
fn counter_message_exact_text() {
    assert_eq!(counter_message(1), "Request number: 1");
    assert_eq!(counter_message(0), "Request number: 0");
    assert_eq!(counter_message(2147483647), "Request number: 2147483647");
}
