use cents::{Cents, CentsError};
use num::BigInt;

#[test]
fn test_add_to_u64() {
    let actual = Cents::new(21, 21).add_u64(2121).unwrap();
    let expected = Cents::new(42, 42);

    assert_eq!(actual, expected);
}

#[test]
fn test_compare_to_u64() {
    assert_eq!(Cents::new(42, 42), 4242.into());
}

#[test]
fn test_add_two_cents() {
    assert_eq!(
        Cents::from(2121).add(Cents::from(2121)).unwrap(),
        Cents::new(42, 42)
    );
}

#[test]
fn test_one_cent_should_equal_one() {
    assert_eq!(Cents::new(0, 1), 1.into());
}

#[test]
fn test_into_returns_raw_count() {
    let n: u64 = Cents::from(4242).into();
    assert_eq!(n, 4242);
}

#[test]
fn test_round_trip() {
    let n: u64 = 123456789;
    let back: u64 = Cents::from(n).into();
    assert_eq!(Cents::from(back), Cents::from(n));
    let top: u64 = Cents::from(u64::MAX).into();
    assert_eq!(top, u64::MAX);
}

#[test]
fn test_add_matches_sum_of_raw_counts() {
    assert_eq!(
        Cents::from(300).add(Cents::from(45)).unwrap(),
        Cents::from(345)
    );
}

#[test]
fn test_add_commutative() {
    assert_eq!(
        Cents::from(3).add(Cents::from(9)),
        Cents::from(9).add(Cents::from(3))
    );
}

#[test]
fn test_add_associative() {
    let (a, b, c) = (Cents::from(7), Cents::from(20), Cents::from(600));
    assert_eq!(
        a.add(b).unwrap().add(c).unwrap(),
        a.add(b.add(c).unwrap()).unwrap()
    );
}

#[test]
fn test_add_overflow_fails() {
    assert_eq!(
        Cents::from(u64::MAX).add(Cents::from(1)),
        Err(CentsError::Overflow)
    );
    assert_eq!(
        Cents::from(u64::MAX - 1).add_u64(2),
        Err(CentsError::Overflow)
    );
}

#[test]
fn test_sub_exact_difference() {
    let diff: u64 = Cents::from(10).sub(Cents::from(4)).unwrap().into();
    assert_eq!(diff, 6);
}

#[test]
fn test_sub_underflow_fails() {
    assert_eq!(
        Cents::from(5).sub(Cents::from(10)),
        Err(CentsError::Underflow)
    );
}

#[test]
fn test_add_assign_accumulates() {
    let mut total = Cents::from(100);
    assert_eq!(total.add_assign(Cents::from(50)), Ok(()));
    assert_eq!(total, Cents::from(150));
    assert_eq!(total.add_assign_u64(7), Ok(()));
    assert_eq!(total, Cents::from(157));
}

#[test]
fn test_add_assign_overflow_leaves_receiver_unchanged() {
    let mut total = Cents::from(u64::MAX);
    assert_eq!(
        total.add_assign(Cents::from(1)),
        Err(CentsError::Overflow)
    );
    assert_eq!(total, Cents::from(u64::MAX));
    assert_eq!(total.add_assign_u64(1), Err(CentsError::Overflow));
    assert_eq!(total, Cents::from(u64::MAX));
}

#[test]
fn test_scalar_mul() {
    assert_eq!(
        Cents::from(250).scalar_mul(4).unwrap(),
        Cents::from(1000)
    );
    assert_eq!(Cents::from(250).scalar_mul(0).unwrap(), Cents::from(0));
}

#[test]
fn test_scalar_mul_overflow_fails() {
    assert_eq!(
        Cents::from(u64::MAX).scalar_mul(2),
        Err(CentsError::Overflow)
    );
}

#[test]
fn test_new_matches_raw_count() {
    assert_eq!(Cents::new(3, 7), Cents::from(307));
    assert_eq!(Cents::new(0, 0), Cents::from(0));
}

#[test]
fn test_new_sign_irrelevant() {
    assert_eq!(Cents::new(-21, 21), Cents::new(21, 21));
    assert_eq!(Cents::new(-1, 0), Cents::from(100));
}

#[test]
fn test_new_accepts_improper_sub_unit_count() {
    assert_eq!(Cents::new(1, 255), Cents::from(355));
}

#[test]
fn test_ordering_by_magnitude() {
    assert!(Cents::from(1) < Cents::from(2));
    assert!(Cents::from(2) > Cents::from(1));
    assert!(!(Cents::from(2) < Cents::from(2)));
    assert!(Cents::from(2) <= Cents::from(2));
    assert!(Cents::new(1, 0) > Cents::from(99));
    let (a, b, c) = (Cents::from(5), Cents::from(80), Cents::from(4242));
    assert!(a < b && b < c && a < c);
}

#[test]
fn test_from_bigint_in_range() {
    let b = BigInt::from(4242u64);
    assert_eq!(Cents::try_from_bigint(&b), Ok(Cents::new(42, 42)));
    let top = BigInt::from(u64::MAX);
    let top_cents: u64 = Cents::try_from_bigint(&top).unwrap().into();
    assert_eq!(top_cents, u64::MAX);
}

#[test]
fn test_from_bigint_takes_absolute_value() {
    let b = BigInt::from(-4242i64);
    assert_eq!(Cents::try_from_bigint(&b), Ok(Cents::new(42, 42)));
}

#[test]
fn test_from_bigint_rejects_oversize_magnitude() {
    let over = BigInt::from(u64::MAX) + BigInt::from(1u64);
    assert_eq!(
        Cents::try_from_bigint(&over),
        Err(CentsError::MagnitudeOverflow)
    );
    let under = -(BigInt::from(u64::MAX) + BigInt::from(1u64));
    assert_eq!(
        Cents::try_from_bigint(&under),
        Err(CentsError::MagnitudeOverflow)
    );
}
