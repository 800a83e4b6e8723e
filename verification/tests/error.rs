use macos_errno::error::errno_out_of_range;
use macos_errno::table::{EAGAIN, ENOENT, EPERM, EQFULL, EWOULDBLOCK};
use macos_errno::Error;
use std::collections::HashSet;

#[test]
fn new_keeps_every_nonzero_number() {
    for v in [1, 2, 35, 106, 107, 9999, -1, -35, i32::MAX, i32::MIN, i32::MIN + 1] {
        let err = Error::new(v);
        assert!(err.is_some());
        assert_eq!(err.unwrap().get(), v);
    }
}

#[test]
fn new_keeps_a_band_of_numbers() {
    for v in -2000..=2000 {
        match Error::new(v) {
            Some(err) => {
                assert!(v != 0);
                assert_eq!(err.get(), v);
            }
            None => assert_eq!(v, 0),
        }
    }
}

#[test]
fn new_of_zero_is_none() {
    assert!(Error::new(0).is_none());
}

#[test]
fn out_of_range_is_none() {
    assert!(errno_out_of_range().is_none());
}

#[test]
fn new_unchecked_keeps_the_number() {
    assert_eq!(Error::new_unchecked(5).get(), 5);
    assert_eq!(Error::new_unchecked(-7).get(), -7);
    assert!(Error::new_unchecked(2) == ENOENT());
}

#[test]
fn conversion_to_i32_keeps_the_number() {
    assert_eq!(i32::from(EAGAIN()), 35);
    assert_eq!(i32::from(Error::new(-4).unwrap()), -4);
    let n: i32 = EPERM().into();
    assert_eq!(n, 1);
}

#[test]
fn conversion_to_i64_extends_the_sign() {
    assert_eq!(i64::from(EAGAIN()), 35i64);
    assert_eq!(i64::from(Error::new(-4).unwrap()), -4i64);
    assert_eq!(i64::from(Error::new(i32::MIN).unwrap()), -2147483648i64);
    assert_eq!(i64::from(Error::new(i32::MAX).unwrap()), 2147483647i64);
}

#[test]
fn errors_are_equal_when_their_numbers_are() {
    assert!(Error::new(2).unwrap() == ENOENT());
    assert!(Error::new(3).unwrap() != ENOENT());
    assert!(EWOULDBLOCK() == EAGAIN());
}

#[test]
fn order_is_the_order_of_the_numbers() {
    assert!(EPERM() < ENOENT());
    assert!(ENOENT() > EPERM());
    assert!(EPERM() <= EPERM());
    assert!(EPERM() >= EPERM());
    assert!(EQFULL() > EAGAIN());
    assert!(Error::new(-1).unwrap() < EPERM());
    assert!(Error::new(i32::MIN).unwrap() < Error::new(i32::MAX).unwrap());
    assert!(!(EAGAIN() < EWOULDBLOCK()));
    assert!(!(EAGAIN() > EWOULDBLOCK()));
}

#[test]
fn order_agrees_with_integer_order_on_a_band() {
    for a in -20..=120 {
        for b in -20..=120 {
            if a == 0 || b == 0 {
                continue;
            }
            let x = Error::new(a).unwrap();
            let y = Error::new(b).unwrap();
            assert_eq!(x < y, a < b);
            assert_eq!(x > y, a > b);
            assert_eq!(x <= y, a <= b);
            assert_eq!(x >= y, a >= b);
            assert!(x.partial_cmp(&y) == Some(a.cmp(&b)));
            assert!(x.cmp(&y) == a.cmp(&b));
        }
    }
}

#[test]
fn sorting_orders_by_number() {
    let mut all = vec![EQFULL(), EAGAIN(), Error::new(-3).unwrap(), EPERM(), ENOENT()];
    all.sort();
    let numbers: Vec<i32> = all.iter().map(|e| e.get()).collect();
    assert_eq!(numbers, vec![-3, 1, 2, 35, 106]);
}

#[test]
fn errors_are_copied_and_hashed_by_number() {
    let a = EAGAIN();
    let b = a;
    assert!(a == b);
    let mut seen = HashSet::new();
    seen.insert(EAGAIN());
    seen.insert(EWOULDBLOCK());
    seen.insert(EPERM());
    assert_eq!(seen.len(), 2);
    assert!(seen.contains(&Error::new(35).unwrap()));
}
