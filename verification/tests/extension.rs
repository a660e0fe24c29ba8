use as_any::builtin::{AnyValue, Flag, Integer};
use as_any::extended::ExtendedAny;
use as_any::hierarchy::{AsAny, Concrete, Downcast};

#[test]
fn custom_hierarchy_predicate_agrees_with_builtin() {
    let b: AnyValue = Integer { value: 11 }.as_any();
    let x: ExtendedAny = Integer { value: 11 }.as_any();

    assert_eq!(b.is::<Integer>(), x.is::<Integer>());
    assert_eq!(b.is::<Flag>(), x.is::<Flag>());
}

#[test]
fn custom_hierarchy_downcasts_agree_with_builtin() {
    let b: AnyValue = Flag { value: true }.as_any();
    let x: ExtendedAny = Flag { value: true }.as_any();

    assert_eq!(b.downcast_ref::<Flag>(), x.downcast_ref::<Flag>());
    assert_eq!(b.downcast_ref::<Integer>(), x.downcast_ref::<Integer>());
    assert_eq!(b.downcast_ref::<Flag>(), Some(&Flag { value: true }));
}

#[test]
fn custom_hierarchy_keeps_type_identity_and_name() {
    let b: AnyValue = Integer { value: 0 }.as_any();
    let x: ExtendedAny = Integer { value: 1 }.as_any();

    assert_eq!(b.type_tag(), x.type_tag());
    assert_eq!(b.type_label(), x.type_label());
    assert_eq!(x.type_label(), "Integer");
}

#[test]
fn custom_hierarchy_exclusive_downcast_mutates() {
    let mut x: ExtendedAny = Integer { value: 2 }.as_any();
    {
        let r = x.downcast_mut::<Integer>().unwrap();
        r.value = 4;
    }
    assert_eq!(x.downcast_ref::<Integer>().unwrap().value, 4);
    assert!(x.downcast_mut::<Flag>().is_none());
}
