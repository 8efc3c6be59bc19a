use practice::numbers::{keep_even, map_add_four_double, sum_of};

#[test]
fn sums() {
    assert_eq!(sum_of(&[10, 20, 30]), Some(60));
    assert_eq!(sum_of(&[]), Some(0));
    assert_eq!(sum_of(&[130, 95]), Some(225));
    assert_eq!(sum_of(&[-5, 3]), Some(-2));
}

#[test]
fn sum_overflow_is_none() {
    assert_eq!(sum_of(&[i32::MAX, 1]), None);
    assert_eq!(sum_of(&[i32::MIN, -1]), None);
    assert_eq!(sum_of(&[i32::MAX, 1, -1]), None);
    assert_eq!(sum_of(&[i32::MAX, -1, 1]), Some(i32::MAX));
}

#[test]
fn maps_add_four_double() {
    assert_eq!(map_add_four_double(&[1, 4, 20]), Some(vec![10, 16, 48]));
    assert_eq!(map_add_four_double(&[-4]), Some(vec![0]));
    assert_eq!(map_add_four_double(&[]), Some(vec![]));
}

#[test]
fn map_overflow_is_none() {
    assert_eq!(map_add_four_double(&[1, i32::MAX]), None);
    assert_eq!(map_add_four_double(&[i32::MAX / 2]), None);
    assert_eq!(map_add_four_double(&[i32::MIN]), None);
}

#[test]
fn keeps_evens() {
    assert_eq!(keep_even(&[1, 2, 3, 4, 5, 6]), vec![2, 4, 6]);
    assert_eq!(keep_even(&[-4, -3, 0]), vec![-4, 0]);
    assert!(keep_even(&[1, 3]).is_empty());
}
