use list_utils::generator::make_element_generator;

#[test]
fn test_make_element_generator() {
    let mut g = make_element_generator(vec![1, 2, 3]);
    assert_eq!(g.next(), Some(1));
    assert_eq!(g.next(), Some(2));
    assert_eq!(g.next(), Some(3));
    assert_eq!(g.next(), None);
}

#[test]
fn generator_over_empty_is_exhausted_forever() {
    let mut g = make_element_generator(Vec::<i32>::new());
    for _ in 0..10 {
        assert_eq!(g.next(), None);
    }
}

#[test]
fn generator_over_two_elements_then_exhausted_forever() {
    let mut g = make_element_generator(vec![1, 2]);
    assert_eq!(g.next(), Some(1));
    assert_eq!(g.next(), Some(2));
    for _ in 0..10 {
        assert_eq!(g.next(), None);
    }
}

#[test]
fn generator_owns_a_copy_of_the_input() {
    let caller_data = vec![7, 8];
    let mut g = make_element_generator(caller_data.clone());
    drop(caller_data);
    assert_eq!(g.next(), Some(7));
    assert_eq!(g.next(), Some(8));
    assert_eq!(g.next(), None);
}
