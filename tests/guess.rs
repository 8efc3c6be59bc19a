use practice::guess::{Guess, OutOfRange, GUESS_MAX, GUESS_MIN};

#[test]
#[should_panic(expected = "too big number: 199")]
fn test_guess_greater_than_100() {
    if let Err(e) = Guess::try_new(199) {
        panic!("{}", e.message());
    }
}

#[test]
#[should_panic(expected = "too small number: 0")]
fn test_guess_smaller_than_1() {
    if let Err(e) = Guess::try_new(0) {
        panic!("{}", e.message());
    }
}

#[test]
fn guess_keeps_every_value_in_range() {
    for n in GUESS_MIN..=GUESS_MAX {
        let g = Guess::try_new(n).ok().unwrap();
        assert_eq!(g.value(), n);
        assert_eq!(Guess::new(n).value(), n);
    }
}

#[test]
fn guess_bounds_are_inclusive() {
    assert_eq!(Guess::try_new(1).ok().unwrap().value(), 1);
    assert_eq!(Guess::try_new(100).ok().unwrap().value(), 100);
    assert!(Guess::try_new(101).is_err());
}

#[test]
fn guess_twenty_is_accepted() {
    let g = Guess::new(20);
    assert_eq!(g.value(), 20);
}

#[test]
fn guess_199_is_too_big() {
    let e = Guess::try_new(199).err().unwrap();
    assert_eq!(e, OutOfRange::TooBig(199));
    assert_eq!(e.value(), 199);
    let m = e.message();
    assert!(m.contains("199"));
    assert!(m.contains("too big"));
    assert_eq!(m, "too big number: 199");
}

#[test]
fn guess_zero_is_too_small() {
    let e = Guess::try_new(0).err().unwrap();
    assert_eq!(e, OutOfRange::TooSmall(0));
    assert_eq!(e.value(), 0);
    let m = e.message();
    assert!(m.contains("0"));
    assert!(m.contains("too small"));
    assert_eq!(m, "too small number: 0");
}

#[test]
fn guess_far_out_of_range_names_the_number() {
    let e = Guess::try_new(u32::MAX).err().unwrap();
    assert_eq!(e, OutOfRange::TooBig(u32::MAX));
    assert_eq!(e.message(), "too big number: 4294967295");
    let e = Guess::try_new(101).err().unwrap();
    assert_eq!(e.message(), "too big number: 101");
}
