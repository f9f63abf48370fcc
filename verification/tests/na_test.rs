use extendr_api::na::CanBeNA;
use extendr_api::na::NA_REAL_BITS;
use extendr_api::scalar::Rbool;
use extendr_api::scalar::Rfloat;
use extendr_api::scalar::Rint;
use extendr_api::scalar::Rstr;

fn rf(x: f64) -> Rfloat {
    Rfloat::from_bits(x.to_bits())
}

#[test]
fn na_tests_as_na_for_every_kind() {
    assert!(Rfloat::na().is_na());
    assert!(Rint::na().is_na());
    assert!(Rbool::na().is_na());
    assert!(Rstr::na().is_na());
    assert!(i32::na().is_na());
}

#[test]
fn na_real_is_a_nan_but_ordinary_nan_is_not_na() {
    // The sentinel is a genuine NaN to the host environment, with the
    // designated low word.
    assert!(f64::from_bits(NA_REAL_BITS).is_nan());
    assert_eq!(NA_REAL_BITS & 0xFFFF_FFFF, 1954);
    assert_eq!(Rfloat::na().bits(), NA_REAL_BITS);
    assert!(f64::from_bits(Rfloat::na().bits()).is_nan());
    // A NaN produced by invalid arithmetic is not the semantic NA.
    let q = 0.0f64 / 0.0f64;
    assert!(q.is_nan());
    assert_eq!(Rfloat::from_bits(q.to_bits()).is_na(), false);
    assert_eq!(rf(f64::NAN).is_na(), false);
}

#[test]
fn text_na_is_identity_not_content() {
    let sentinel = Rstr::na();
    let fresh = Rstr::new("NA".as_bytes().to_vec());
    // Content-equal to the sentinel...
    assert_eq!(sentinel, fresh);
    // ...but only the sentinel is NA.
    assert_eq!(fresh.is_na(), false);
    assert_eq!(sentinel.is_na(), true);
    assert_eq!(fresh.content_bytes().as_slice(), b"NA");
}

#[test]
fn integer_sentinel_is_minimum_value() {
    assert!(Rint::new(i32::MIN).is_na());
    assert_eq!(Rint::na().inner(), i32::MIN);
    assert_eq!(Rint::new(0).is_na(), false);
    assert_eq!(Rint::new(i32::MIN + 1).is_na(), false);
    assert!(Rbool::from_storage(i32::MIN).is_na());
    assert_eq!(Rbool::from_bool(false).is_na(), false);
}

#[test]
fn integer_arithmetic_propagates_na() {
    assert!(Rint::na().add(Rint::new(1)).is_na());
    assert!(Rint::new(1).add(Rint::na()).is_na());
    assert!(Rint::na().sub(Rint::na()).is_na());
    assert!(Rint::new(5).mul(Rint::na()).is_na());
    assert_eq!(Rint::new(2).add(Rint::new(3)).inner(), 5);
    assert_eq!(Rint::new(2).sub(Rint::new(3)).inner(), -1);
    assert_eq!(Rint::new(2).mul(Rint::new(3)).inner(), 6);
}

#[test]
fn integer_overflow_yields_na() {
    assert!(Rint::new(i32::MAX).add(Rint::new(1)).is_na());
    assert!(Rint::new(i32::MIN + 1).sub(Rint::new(2)).is_na());
    assert!(Rint::new(i32::MAX).mul(Rint::new(2)).is_na());
    // The sum that would land exactly on the sentinel is overflow too.
    assert!(Rint::new(i32::MIN + 1).sub(Rint::new(1)).is_na());
}

#[test]
fn na_comparison_is_false() {
    assert_eq!(Rint::na().na_eq(&Rint::na()), false);
    assert_eq!(Rint::na().na_eq(&Rint::new(0)), false);
    assert!(Rint::new(4).na_eq(&Rint::new(4)));
    assert_eq!(Rfloat::na().na_eq(&Rfloat::na()), false);
    assert_eq!(rf(1.0).na_eq(&Rfloat::na()), false);
    assert!(rf(1.0).na_eq(&rf(1.0)));
    assert!(rf(0.0).na_eq(&rf(-0.0)));
    assert_eq!(rf(f64::NAN).na_eq(&rf(f64::NAN)), false);
}

#[test]
fn boolean_three_valued_logic() {
    let t = Rbool::from_bool(true);
    let f = Rbool::from_bool(false);
    let na = Rbool::na();
    assert!(t.and(t).is_true());
    assert!(t.and(f).is_false());
    assert!(f.and(na).is_false());
    assert!(t.and(na).is_na());
    assert!(na.and(na).is_na());
    assert!(t.or(na).is_true());
    assert!(f.or(na).is_na());
    assert!(f.or(f).is_false());
    assert!(na.not().is_na());
    assert!(t.not().is_false());
    assert!(f.not().is_true());
}

#[test]
fn float_na_propagation_rule() {
    let a = rf(1.5);
    let b = rf(2.5);
    let computed = rf(4.0);
    assert_eq!(Rfloat::propagate_na(a, b, computed).bits(), computed.bits());
    assert!(Rfloat::propagate_na(Rfloat::na(), b, computed).is_na());
    assert!(Rfloat::propagate_na(a, Rfloat::na(), computed).is_na());
}
