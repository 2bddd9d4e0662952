use list_utils::pairing::pair_up;

#[test]
fn test_pair_up() {
    let empty: Vec<i32> = vec![];
    assert_eq!(pair_up(&empty), Vec::<Vec<i32>>::new());
    assert_eq!(pair_up(&vec![1]), vec![vec![1]]);
    assert_eq!(pair_up(&vec![1, 2]), vec![vec![1, 2]]);
    assert_eq!(
        pair_up(&vec![1, 2, 3, 4, 5]),
        vec![vec![1, 2], vec![2, 3], vec![3, 4], vec![4, 5], vec![5]]
    );
}

#[test]
fn pair_up_odd_length_has_trailing_singleton() {
    assert_eq!(pair_up(&vec![10, 20, 30]), vec![vec![10, 20], vec![20, 30], vec![30]]);
}

#[test]
fn pair_up_even_length_has_no_trailing_singleton() {
    assert_eq!(pair_up(&vec![1, 2, 3, 4]), vec![vec![1, 2], vec![2, 3], vec![3, 4]]);
}

#[test]
fn pair_up_works_on_other_copy_types() {
    assert_eq!(pair_up(&vec!['a', 'b', 'c']), vec![vec!['a', 'b'], vec!['b', 'c'], vec!['c']]);
}
