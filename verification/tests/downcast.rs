use as_any::builtin::{AnyValue, Flag, Integer, Text};
use as_any::hierarchy::{AsAny, Concrete, Downcast};

#[test]
fn scenario_integer_behind_erased_reference() {
    let h: AnyValue = Integer { value: 42 }.as_any();
    assert!(h.is::<Integer>());
    assert!(!h.is::<Text>());
    assert!(h.downcast_ref::<Text>().is_none());
    assert_eq!(h.downcast_ref::<Integer>(), Some(&Integer { value: 42 }));
}

#[test]
fn identity_predicate_true_only_for_stored_type() {
    let i: AnyValue = Integer { value: -3 }.as_any();
    let t: AnyValue = Text { value: String::from("hello") }.as_any();
    let f: AnyValue = Flag { value: true }.as_any();

    assert!(i.is::<Integer>() && !i.is::<Text>() && !i.is::<Flag>());
    assert!(t.is::<Text>() && !t.is::<Integer>() && !t.is::<Flag>());
    assert!(f.is::<Flag>() && !f.is::<Integer>() && !f.is::<Text>());
}

#[test]
fn checked_shared_downcast_recovers_value() {
    let h: AnyValue = Text { value: String::from("abc") }.as_any();
    let r = h.downcast_ref::<Text>().unwrap();
    assert_eq!(r.value, "abc");
}

#[test]
fn checked_downcast_mismatch_is_absent_and_harmless() {
    let h: AnyValue = Integer { value: 5 }.as_any();
    let before = h.clone();
    assert!(h.downcast_ref::<Flag>().is_none());
    assert_eq!(h, before);

    let mut m: AnyValue = Integer { value: 5 }.as_any();
    assert!(m.downcast_mut::<Text>().is_none());
    assert_eq!(m, before);
}

#[test]
fn exclusive_downcast_mutation_is_visible_to_shared_downcast() {
    let mut h: AnyValue = Integer { value: 1 }.as_any();
    {
        let r = h.downcast_mut::<Integer>().unwrap();
        r.value = 99;
    }
    assert_eq!(h.downcast_ref::<Integer>().unwrap().value, 99);
}

#[test]
fn type_label_same_type_same_name_distinct_types_differ() {
    let a: AnyValue = Integer { value: 1 }.as_any();
    let b: AnyValue = Integer { value: 2 }.as_any();
    let c: AnyValue = Text { value: String::from("x") }.as_any();

    assert_eq!(a.type_label(), b.type_label());
    assert_ne!(a.type_label(), c.type_label());
    assert_eq!(a.type_label(), Integer { value: 0 }.type_label());
    assert_eq!(c.type_label(), "Text");
}

#[test]
fn type_tag_compares_equal_exactly_for_same_type() {
    let a: AnyValue = Flag { value: false }.as_any();
    let b: AnyValue = Flag { value: true }.as_any();
    let c: AnyValue = Integer { value: 0 }.as_any();

    assert_eq!(a.type_tag(), b.type_tag());
    assert_ne!(a.type_tag(), c.type_tag());
    assert_eq!(a.type_tag(), Flag { value: true }.type_tag());
}

#[test]
fn unchecked_downcast_agrees_with_checked() {
    let h: AnyValue = Integer { value: 7 }.as_any();
    let checked = h.downcast_ref::<Integer>().unwrap();
    assert_eq!(checked.value, 7);
    let unchecked = h.downcast_ref_unchecked::<Integer>();
    assert_eq!(checked, unchecked);

    let mut m: AnyValue = Integer { value: 7 }.as_any();
    {
        let r = m.downcast_mut_unchecked::<Integer>();
        r.value = 8;
    }
    assert_eq!(m.downcast_ref::<Integer>().unwrap().value, 8);
}

#[test]
fn owned_downcasts_transfer_the_stored_value() {
    let h: AnyValue = Text { value: String::from("owned") }.as_any();
    let t: Text = h.into_unchecked();
    assert_eq!(t.value, "owned");

    let ok: AnyValue = Integer { value: 3 }.as_any();
    assert_eq!(Integer::downcast_owned_in(ok), Ok(Integer { value: 3 }));

    let wrong: AnyValue = Flag { value: true }.as_any();
    let back = Integer::downcast_owned_in(wrong.clone());
    assert_eq!(back, Err(wrong));
}
