use extendr_api::Error;
use extendr_api::na::CanBeNA;
use extendr_api::doubles::Doubles;
use extendr_api::scalar::Rbool;
use extendr_api::doubles::Generator;
use extendr_api::doubles::LAZY_THRESHOLD;
use extendr_api::doubles::Source;
use extendr_api::robj::Robj;
use extendr_api::scalar::Rfloat;

fn rf(x: f64) -> Rfloat {
    Rfloat::from_bits(x.to_bits())
}

fn value_of(s: Rfloat) -> f64 {
    f64::from_bits(s.bits())
}

fn from_f64s(values: &[f64]) -> Doubles {
    let v: Vec<Rfloat> = values.iter().map(|&x| rf(x)).collect();
    Doubles::from_values(Source::Values(v))
}

#[test]
fn from_iterator() {
    let vec: Doubles = from_f64s(&(0..3).map(|i| i as f64).collect::<Vec<f64>>());
    assert_eq!(vec, from_f64s(&[0.0, 1.0, 2.0]));
}

#[test]
fn iter_mut() {
    let mut vec = from_f64s(&[0.0, 1.0, 2.0, 3.0]);
    for i in 0..vec.len() {
        let v = value_of(vec.elt(i).unwrap());
        vec.set_elt(i, rf(v + 1.0)).unwrap();
    }
    assert_eq!(vec, from_f64s(&[1.0, 2.0, 3.0, 4.0]));
}

#[test]
fn iter() {
    let vec = from_f64s(&[0.0, 1.0, 2.0, 3.0]);
    let sum: f64 = vec.to_vec().iter().map(|&s| value_of(s)).sum();
    assert_eq!(sum, 6.0);
}

#[test]
fn from_values_short() {
    // Short (below-threshold) sequences are materialized up front.
    let vec = from_f64s(&(0..3).map(|i| 2.0 - i as f64).collect::<Vec<f64>>());
    assert_eq!(vec.is_lazy(), false);
    assert_eq!(vec.clone(), from_f64s(&[2.0, 1.0, 0.0]));
    assert_eq!(value_of(vec.elt(1).unwrap()), 1.0);
    let mut dest = vec![rf(0.0); 2];
    vec.get_region(1, &mut dest).unwrap();
    assert_eq!(value_of(dest[0]), 1.0);
    assert_eq!(value_of(dest[1]), 0.0);
}

#[test]
fn from_values_long() {
    // Long sequences get lazy backing and are evaluated on demand.
    let vec = Doubles::from_values(Source::Generated(Generator::Affine {
        start: 0,
        len: 1000000000,
    }));
    assert_eq!(vec.is_lazy(), true);
    assert_eq!(value_of(vec.elt(12345678).unwrap()), 12345678.0);
    let mut dest = vec![rf(0.0); 2];
    vec.get_region(12345678, &mut dest).unwrap();
    assert_eq!(value_of(dest[0]), 12345678.0);
    assert_eq!(value_of(dest[1]), 12345679.0);
}

#[test]
fn new() {
    let vec = Doubles::new(10);
    assert_eq!(vec.to_robj().is_real(), true);
    assert_eq!(vec.len(), 10);
}

#[test]
fn new_is_zero_filled() {
    let vec = Doubles::new(3);
    for i in 0..3 {
        assert_eq!(value_of(vec.elt(i).unwrap()), 0.0);
    }
}

#[test]
fn backing_mode_follows_threshold_exactly() {
    let below = Doubles::from_values(Source::Generated(Generator::Repeat {
        value: rf(7.0),
        len: LAZY_THRESHOLD - 1,
    }));
    assert_eq!(below.is_lazy(), false);
    let at = Doubles::from_values(Source::Generated(Generator::Repeat {
        value: rf(7.0),
        len: LAZY_THRESHOLD,
    }));
    assert_eq!(at.is_lazy(), true);
    // An explicit value list at the threshold is held lazily too.
    let values: Vec<Rfloat> = (0..LAZY_THRESHOLD).map(|i| rf(i as f64)).collect();
    let wrapped = Doubles::from_values(Source::Values(values));
    assert_eq!(wrapped.is_lazy(), true);
    assert_eq!(value_of(wrapped.elt(4321).unwrap()), 4321.0);
}

#[test]
fn both_modes_present_identical_values() {
    let lazy = Doubles::from_values(Source::Generated(Generator::Affine {
        start: 5,
        len: LAZY_THRESHOLD,
    }));
    assert!(lazy.is_lazy());
    let mut eager = lazy.clone();
    eager.materialize();
    assert!(!eager.is_lazy());
    assert_eq!(lazy.len(), eager.len());
    for i in [0usize, 1, 17, 4095, LAZY_THRESHOLD - 1] {
        assert_eq!(lazy.elt(i).unwrap(), eager.elt(i).unwrap());
        assert_eq!(value_of(lazy.elt(i).unwrap()), (5 + i) as f64);
    }
    let mut a = vec![rf(0.0); 8];
    let mut b = vec![rf(1.0); 8];
    lazy.get_region(100, &mut a).unwrap();
    eager.get_region(100, &mut b).unwrap();
    assert_eq!(a, b);
    // The two handles compare equal: content, not mode, decides.
    assert_eq!(lazy, eager);
}

#[test]
fn write_then_read_round_trip() {
    let n = 17usize;
    let mut vec = Doubles::new(n);
    for i in 0..n {
        vec.set_elt(i, rf(100.0 + i as f64)).unwrap();
    }
    for i in 0..n {
        assert_eq!(value_of(vec.elt(i).unwrap()), 100.0 + i as f64);
    }
    let all = vec.to_vec();
    assert_eq!(all.len(), n);
    for i in 0..n {
        assert_eq!(value_of(all[i]), 100.0 + i as f64);
    }
}

#[test]
fn out_of_range_access_is_index_error() {
    let vec = from_f64s(&[1.0, 2.0, 3.0]);
    assert_eq!(vec.elt(3), Err(Error::IndexError));
    let mut dest = vec![rf(0.0); 2];
    assert_eq!(vec.get_region(2, &mut dest), Err(Error::IndexError));
    assert_eq!(value_of(dest[0]), 0.0);
    let mut vec = vec;
    assert_eq!(vec.set_elt(3, rf(9.0)), Err(Error::IndexError));
    assert_eq!(vec, from_f64s(&[1.0, 2.0, 3.0]));
}

#[test]
fn lazy_mutation_is_ownership_violation_until_materialized() {
    let mut vec = Doubles::from_values(Source::Generated(Generator::Repeat {
        value: rf(2.0),
        len: LAZY_THRESHOLD,
    }));
    assert_eq!(vec.set_elt(0, rf(9.0)), Err(Error::OwnershipViolation));
    assert_eq!(value_of(vec.elt(0).unwrap()), 2.0);
    vec.materialize();
    vec.set_elt(0, rf(9.0)).unwrap();
    assert_eq!(value_of(vec.elt(0).unwrap()), 9.0);
    assert_eq!(value_of(vec.elt(1).unwrap()), 2.0);
}

#[test]
fn robj_round_trip_and_vector_mismatch() {
    let vec = from_f64s(&[4.0, 5.0]);
    let robj = vec.to_robj();
    assert!(robj.is_real());
    assert_eq!(robj.len(), 2);
    let back = Doubles::try_from_robj(robj).unwrap();
    assert_eq!(back, vec);
    let not_a_vector = Robj::ExtPtr { id: 0, type_tag: 7 };
    assert_eq!(Doubles::try_from_robj(not_a_vector), Err(Error::TypeMismatch));
}

#[test]
fn logical_handles_are_not_numeric() {
    let logical = Robj::Logical { values: vec![Rbool::from_bool(true), Rbool::na()] };
    assert!(logical.is_logical());
    assert!(!logical.is_real());
    assert_eq!(logical.len(), 2);
    assert_eq!(Doubles::try_from_robj(logical), Err(Error::TypeMismatch));
}
