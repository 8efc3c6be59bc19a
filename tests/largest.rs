use practice::largest::{largest, largest_clone, largest_reference};

#[test]
fn largest_of_list() {
    let v: Vec<u32> = vec![1, 199, 22, 18];
    assert_eq!(largest(&v), 199);
    assert_eq!(largest_clone(&v), 199);
    assert_eq!(*largest_reference(&v), 199);
    assert_eq!(v, vec![1, 199, 22, 18]);
}

#[test]
fn largest_of_single_and_ties() {
    assert_eq!(largest(&[7]), 7);
    assert_eq!(largest(&[3, 3, 1]), 3);
    assert_eq!(largest_clone(&[0, 0]), 0);
    let v: Vec<u32> = vec![5, 9, 9];
    assert!(std::ptr::eq(largest_reference(&v), &v[1]));
}
