use extendr_api::Error;
use extendr_api::externalptr::ExternalPtr;
use extendr_api::externalptr::XptrRuntime;
use extendr_api::robj::Robj;

#[test]
fn test_externalptr() {
    let mut rt: XptrRuntime<i32> = XptrRuntime::new(1);
    let extptr = rt.new_extptr(1);
    assert_eq!(*rt.get(&extptr), 1);
    let robj: Robj = extptr.to_robj();
    let extptr2: ExternalPtr<i32> = ExternalPtr::try_from_robj(&robj, &rt).unwrap();
    assert_eq!(*rt.get(&extptr2), 1);
}

#[test]
fn test_externalptr_drop() {
    // Dummy structure whose destruction the registry records.
    struct X {}

    let mut rt: XptrRuntime<X> = XptrRuntime::new(1);
    let extptr = rt.new_extptr(X {});
    let id = extptr.id();

    // The object is still rooted here - a collection must not destroy it.
    rt.gc();
    assert_eq!(rt.was_destroyed(id), false);

    // Dropping the native reference lets the collector destroy the object.
    rt.drop_native(extptr);
    rt.gc();
    assert_eq!(rt.was_destroyed(id), true);
}

#[test]
fn test_externalptr_deref() {
    struct X {
        x: i32,
        y: i32,
    }

    let mut rt: XptrRuntime<X> = XptrRuntime::new(1);
    let extptr = rt.new_extptr(X { x: 1, y: 2 });
    assert_eq!(rt.get(&extptr).x, 1);
    assert_eq!(rt.get(&extptr).y, 2);
}

#[test]
fn explicit_release_destroys_exactly_once() {
    let mut rt: XptrRuntime<String> = XptrRuntime::new(3);
    let p = rt.new_extptr(String::from("payload"));
    let id = p.id();
    assert_eq!(rt.times_destroyed(id), 0);
    // Release destroys synchronously, before the call returns.
    rt.release(&p).unwrap();
    assert_eq!(rt.times_destroyed(id), 1);
    // A later collection cycle must not destroy it a second time.
    rt.gc();
    assert_eq!(rt.times_destroyed(id), 1);
}

#[test]
fn double_release_is_refused() {
    let mut rt: XptrRuntime<u64> = XptrRuntime::new(3);
    let p = rt.new_extptr(42);
    let dup = p.clone();
    rt.release(&p).unwrap();
    assert_eq!(rt.release(&dup), Err(Error::DoubleReleaseViolation));
    assert_eq!(rt.times_destroyed(p.id()), 1);
}

#[test]
fn gc_destroys_only_after_unreachable() {
    let mut rt: XptrRuntime<i32> = XptrRuntime::new(9);
    let p = rt.new_extptr(5);
    let id = p.id();
    // Not before: while rooted, collections leave the object alone.
    rt.gc();
    rt.gc();
    assert_eq!(rt.times_destroyed(id), 0);
    assert_eq!(*rt.get(&p), 5);
    // Unrooting alone destroys nothing.
    rt.drop_native(p);
    assert_eq!(rt.times_destroyed(id), 0);
    // The next collection finalizes it, exactly once.
    rt.gc();
    assert_eq!(rt.times_destroyed(id), 1);
    rt.gc();
    assert_eq!(rt.times_destroyed(id), 1);
}

#[test]
fn extra_root_keeps_object_alive() {
    let mut rt: XptrRuntime<i32> = XptrRuntime::new(9);
    let p = rt.new_extptr(8);
    rt.root(&p);
    let dup = p.clone();
    rt.drop_native(dup);
    rt.gc();
    // One root remains, so the object survived the collection.
    assert_eq!(*rt.get(&p), 8);
    assert_eq!(rt.times_destroyed(p.id()), 0);
    rt.drop_native(p.clone());
    rt.gc();
    assert_eq!(rt.times_destroyed(p.id()), 1);
}

#[test]
fn mutable_dereference_exchanges_object() {
    let mut rt: XptrRuntime<String> = XptrRuntime::new(2);
    let p = rt.new_extptr(String::from("before"));
    let prev = rt.replace(&p, String::from("after"));
    assert_eq!(prev, "before");
    assert_eq!(rt.get(&p).as_str(), "after");
    assert_eq!(rt.times_destroyed(p.id()), 0);
}

#[test]
fn mismatched_downcast_fails_with_type_mismatch() {
    let mut rt1: XptrRuntime<i32> = XptrRuntime::new(1);
    let rt2: XptrRuntime<i32> = XptrRuntime::new(2);
    let p = rt1.new_extptr(11);
    let robj = p.to_robj();
    // Wrong registry (wrong type tag): refused, no value comes back.
    assert!(matches!(
        ExternalPtr::<i32>::try_from_robj(&robj, &rt2),
        Err(Error::TypeMismatch)
    ));
    // Wrong kind entirely: a vector handle is no external pointer.
    let vector_robj = Robj::Real { values: Vec::new() };
    assert!(matches!(
        ExternalPtr::<i32>::try_from_robj(&vector_robj, &rt1),
        Err(Error::TypeMismatch)
    ));
    // The matching registry still accepts it.
    assert!(ExternalPtr::<i32>::try_from_robj(&robj, &rt1).is_ok());
}
