use list_utils::chain::forms_chain;

#[test]
fn test_forms_chain() {
    assert!(forms_chain(&Vec::<Vec<i32>>::new()));
    assert!(forms_chain(&vec![vec![1, 2], vec![2, 1]]));
    assert!(!forms_chain(&vec![vec![1, 2], vec![5, 3]]));
    assert!(forms_chain(&vec![vec![1, 5, 0], vec![0, 2, 3], vec![3, 2], vec![2, 7]]));
}

#[test]
fn single_segment_forms_chain_vacuously() {
    assert!(forms_chain(&vec![vec![4, 5, 6]]));
}

#[test]
fn empty_segment_breaks_the_chain() {
    assert!(!forms_chain(&vec![vec![1], vec![], vec![2]]));
    assert!(!forms_chain(&vec![vec![], vec![]]));
}

#[test]
fn chain_breaks_at_a_later_pair() {
    assert!(!forms_chain(&vec![vec![1, 2], vec![2, 3], vec![4, 5]]));
}
