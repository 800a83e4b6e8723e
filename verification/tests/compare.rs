use macos_errno::{Error, EAGAIN, EPERM, EWOULDBLOCK};

#[test]
fn thirty_five_equals_eagain_in_every_type() {
    for err in [EAGAIN(), EWOULDBLOCK()] {
        assert!(err == 35i16);
        assert!(35i16 == err);
        assert!(err == 35i32);
        assert!(35i32 == err);
        assert!(err == 35i64);
        assert!(35i64 == err);
        assert!(err == 35u16);
        assert!(35u16 == err);
        assert!(err == 35u32);
        assert!(35u32 == err);
        assert!(err == 35u64);
        assert!(35u64 == err);
        assert!(err == 35usize);
        assert!(35usize == err);
        assert!(err == 35isize);
        assert!(35isize == err);
    }
}

#[test]
fn another_number_differs_in_every_type() {
    let err = EAGAIN();
    assert!(err != 36i16);
    assert!(36i16 != err);
    assert!(err != 36i32);
    assert!(36i32 != err);
    assert!(err != 36i64);
    assert!(36i64 != err);
    assert!(err != 36u16);
    assert!(36u16 != err);
    assert!(err != 36u32);
    assert!(36u32 != err);
    assert!(err != 36u64);
    assert!(36u64 != err);
    assert!(err != 36usize);
    assert!(36usize != err);
    assert!(err != 36isize);
    assert!(36isize != err);
}

#[test]
fn eperm_differs_from_the_largest_u64() {
    assert!(!(EPERM() == u64::MAX));
    assert!(!(u64::MAX == EPERM()));
}

#[test]
fn eperm_differs_from_minus_one() {
    assert!(!(EPERM() == -1i32));
    assert!(!(-1i32 == EPERM()));
}

#[test]
fn negative_error_equals_no_unsigned_integer() {
    let err = Error::new(-1).unwrap();
    assert!(!(err == u16::MAX));
    assert!(!(u16::MAX == err));
    assert!(!(err == u32::MAX));
    assert!(!(u32::MAX == err));
    assert!(!(err == u64::MAX));
    assert!(!(u64::MAX == err));
    assert!(!(err == usize::MAX));
    assert!(!(usize::MAX == err));
    assert!(!(err == 1u64));
    assert!(!(1usize == err));
}

#[test]
fn negative_error_equals_its_signed_number() {
    let err = Error::new(-1).unwrap();
    assert!(err == -1i16);
    assert!(-1i16 == err);
    assert!(err == -1i32);
    assert!(-1i32 == err);
    assert!(err == -1i64);
    assert!(-1i64 == err);
    assert!(err == -1isize);
    assert!(-1isize == err);
}

#[test]
fn wide_integers_are_not_truncated() {
    let err = EPERM();
    assert!(!(err == 0x1_0000_0001i64));
    assert!(!(0x1_0000_0001i64 == err));
    assert!(!(err == 0x1_0000_0001u64));
    assert!(!(0x1_0000_0001u64 == err));
    let big = Error::new(65537).unwrap();
    assert!(!(big == 1u16));
    assert!(!(1i16 == big));
    let low = Error::new(i32::MIN).unwrap();
    assert!(!(low == 0x8000_0000u32));
    assert!(!(0x8000_0000u32 == low));
    assert!(low == -2147483648i64);
}

#[test]
fn zero_equals_no_error() {
    for err in [EPERM(), EAGAIN(), Error::new(-1).unwrap()] {
        assert!(!(err == 0i32));
        assert!(!(0u64 == err));
        assert!(!(err == 0usize));
    }
}
