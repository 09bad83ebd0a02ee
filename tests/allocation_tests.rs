use std::alloc::Layout;

use fallible_alloc::alloc_error::AllocErrorType;
use fallible_alloc::allocation::check_array_allocation;
use fallible_alloc::allocation::check_value_allocation;
use fallible_alloc::decimal::push_decimal;
use fallible_alloc::layout::create_value_layout;
use fallible_alloc::layout::create_vec_layout;

struct SmallType([u128; 10]);
struct BigType([u128; 100000000000]);

/// An allocator that declines every request above a fixed number of bytes.
fn small_allocator_grants(layout: &Layout) -> bool {
    layout.size() <= 30000
}

#[test]
fn big_value_under_small_allocator_fails() {
    let layout = create_value_layout::<BigType>();
    assert_eq!(layout.size(), std::mem::size_of::<BigType>());
    let error = check_value_allocation(small_allocator_grants(&layout)).unwrap_err();
    assert_eq!(error.error_type(), AllocErrorType::FailedAllocation);
    assert_eq!(error.message(), "Failed to allocate a value");
}

#[test]
fn small_value_under_small_allocator_succeeds() {
    let layout = create_value_layout::<SmallType>();
    assert_eq!(layout.size(), std::mem::size_of::<SmallType>());
    assert!(check_value_allocation(small_allocator_grants(&layout)).is_ok());
}

#[test]
fn large_float_array_under_small_allocator_fails() {
    let count: usize = 5000000000;
    let layout = create_vec_layout::<f64>(count).unwrap();
    let error = check_array_allocation(count, small_allocator_grants(&layout)).unwrap_err();
    assert_eq!(error.error_type(), AllocErrorType::FailedAllocation);
    assert_eq!(
        error.message(),
        "Failed to allocate an array with size = 5000000000"
    );
}

#[test]
fn arrays_succeed_when_memory_suffices() {
    for count in [0usize, 1, 10, 3750] {
        let layout = create_vec_layout::<f64>(count).unwrap();
        assert_eq!(layout.size(), count * 8);
        assert!(check_array_allocation(count, small_allocator_grants(&layout)).is_ok());
    }
    assert!(check_array_allocation(usize::MAX, true).is_ok());
}

#[test]
fn array_failure_names_the_size() {
    let error = check_array_allocation(0, false).unwrap_err();
    assert_eq!(error.message(), "Failed to allocate an array with size = 0");
    let error = check_array_allocation(10, false).unwrap_err();
    assert_eq!(
        error.to_string(),
        "error caused by failed allocation, reason: Failed to allocate an array with size = 10"
    );
}

#[test]
fn decimal_text_of_numbers() {
    for n in [0usize, 7, 10, 99, 100, 1234567890, usize::MAX] {
        let mut text = String::from("n=");
        push_decimal(&mut text, n);
        assert_eq!(text, format!("n={}", n));
    }
}
