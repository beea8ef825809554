use rust_sdk::{rust_sdk_add, rust_sdk_fibonacci, rust_sdk_init, rust_sdk_version, MAX_FIBONACCI_INDEX};

#[test]
fn init_succeeds() {
    assert!(rust_sdk_init());
    assert!(rust_sdk_init());
}

#[test]
fn add_small_values() {
    assert_eq!(rust_sdk_add(2, 3), 5);
    assert_eq!(rust_sdk_add(-7, 3), -4);
}

#[test]
fn add_wraps_on_overflow() {
    assert_eq!(rust_sdk_add(i32::MAX, 1), i32::MIN);
    assert_eq!(rust_sdk_add(i32::MIN, -1), i32::MAX);
    assert_eq!(rust_sdk_add(i32::MAX, i32::MAX), -2);
}

#[test]
fn fibonacci_known_values() {
    assert_eq!(rust_sdk_fibonacci(0), 0);
    assert_eq!(rust_sdk_fibonacci(1), 1);
    assert_eq!(rust_sdk_fibonacci(2), 1);
    assert_eq!(rust_sdk_fibonacci(10), 55);
    assert_eq!(rust_sdk_fibonacci(30), 832040);
    assert_eq!(rust_sdk_fibonacci(MAX_FIBONACCI_INDEX), 7540113804746346429);
}

#[test]
fn fibonacci_is_sum_of_two_before() {
    for n in 2..=MAX_FIBONACCI_INDEX {
        assert_eq!(
            rust_sdk_fibonacci(n),
            rust_sdk_fibonacci(n - 1) + rust_sdk_fibonacci(n - 2)
        );
    }
}

#[test]
fn fibonacci_small_negative_index_is_returned() {
    assert_eq!(rust_sdk_fibonacci(-1), -1);
    assert_eq!(rust_sdk_fibonacci(-5), -5);
}

#[test]
fn version_is_fixed_and_terminated() {
    let v = rust_sdk_version();
    assert_eq!(v.as_slice(), b"1.0.0\0".as_slice());
    assert_eq!(v, rust_sdk_version());
    assert!(v.len() > 1);
    assert_eq!(v.last(), Some(&0u8));
    assert!(!v[..v.len() - 1].contains(&0u8));
}
