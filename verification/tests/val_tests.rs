use lumen::num::Val;

#[test]
fn square_root_squares_back() {
    let two = Val::from_int(2);
    let s = two.sqrt().unwrap();
    assert!(s.mul(s).unwrap().equals(&two));
    let q = Val::ratio(3, 4).unwrap();
    let sq = q.sqrt().unwrap();
    assert!(sq.mul(sq).unwrap().equals(&q));
}

#[test]
fn negative_has_no_square_root() {
    assert!(Val::from_int(-1).sqrt().is_none());
}

#[test]
fn reciprocal_of_zero_is_undefined() {
    assert!(Val::from_int(0).recip().is_none());
    assert!(Val::from_int(1).div(Val::from_int(0)).is_none());
}

#[test]
fn exact_rational_arithmetic() {
    let third = Val::ratio(1, 3).unwrap();
    let sum = third.add(third).unwrap().add(third).unwrap();
    assert!(sum.equals(&Val::from_int(1)));
    let prod = Val::ratio(2, 3).unwrap().mul(Val::ratio(3, 2).unwrap()).unwrap();
    assert!(prod.equals(&Val::from_int(1)));
}

#[test]
fn surd_comparisons_are_exact() {
    let two = Val::from_int(2);
    let sqrt2 = two.sqrt().unwrap();
    assert_eq!(sqrt2.lt(two), Some(true));
    assert_eq!(two.lt(sqrt2), Some(false));
    let sqrt3 = Val::from_int(3).sqrt().unwrap();
    assert_eq!(sqrt2.lt(sqrt3), Some(true));
    assert_eq!(sqrt3.lt(sqrt2), Some(false));
    assert_eq!(sqrt2.le(sqrt3), Some(true));
    let sqrt12 = Val::from_int(12).sqrt().unwrap();
    // sqrt(12) == 2 sqrt(3): commensurable radicands compare exactly.
    assert_eq!(sqrt3.lt(sqrt12), Some(true));
    let twice = two.mul(sqrt3).unwrap();
    assert!(sqrt12.equals(&twice));
}

#[test]
fn incommensurable_sums_are_rejected() {
    let sqrt2 = Val::from_int(2).sqrt().unwrap();
    let sqrt3 = Val::from_int(3).sqrt().unwrap();
    assert!(sqrt2.add(sqrt3).is_none());
    assert!(sqrt2.add(sqrt2).is_some());
}

#[test]
fn pi_factors_multiply() {
    let two_pi = Val::from_int(2).mul(Val::pi()).unwrap();
    let (a, b, d, r, k) = two_pi.parts();
    assert_eq!((a, b, d, r, k), (2, 0, 1, 0, 1));
    let one = two_pi.mul(two_pi.recip().unwrap()).unwrap();
    assert!(one.equals(&Val::from_int(1)));
}
