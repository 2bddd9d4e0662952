use list_utils::factorial::factorial_numbers;

#[test]
fn test_factorial_numbers() {
    assert_eq!(factorial_numbers(1), vec![1]);
    assert_eq!(factorial_numbers(4), vec![1, 2, 6, 24]);
    assert_eq!(
        factorial_numbers(10),
        vec![1, 2, 6, 24, 120, 720, 5040, 40320, 362880, 3628800]
    );
}

#[test]
fn factorial_numbers_of_zero_is_empty() {
    assert_eq!(factorial_numbers(0), Vec::<i32>::new());
}

#[test]
fn factorial_numbers_at_largest_input() {
    let r = factorial_numbers(12);
    assert_eq!(r.len(), 12);
    assert_eq!(r[11], 479001600);
}
