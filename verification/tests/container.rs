use enum_map_gen::descriptor::{FieldKind, VariantDescriptor};
use enum_map_gen::variant_map::{VariantMap, retained_keys};

fn unit_variant(name: &str) -> VariantDescriptor {
    VariantDescriptor { ident: String::from(name), disabled: false, fields: FieldKind::Unit }
}

fn disabled_variant(name: &str) -> VariantDescriptor {
    VariantDescriptor { ident: String::from(name), disabled: true, fields: FieldKind::Unit }
}

#[test]
fn retained_keys_skip_disabled_without_renumbering() {
    let variants = vec![
        unit_variant("A"),
        unit_variant("B"),
        disabled_variant("C"),
        unit_variant("D"),
    ];
    assert_eq!(retained_keys(&variants), vec![0, 1, 3]);
}

#[test]
fn retained_keys_all_disabled() {
    let variants = vec![disabled_variant("A"), disabled_variant("B")];
    assert_eq!(retained_keys(&variants), Vec::<usize>::new());
}

#[test]
fn new_then_index() {
    let m = VariantMap::new(vec![0, 1, 3], vec![10, 20, 30]);
    assert_eq!(*m.index(0), 10);
    assert_eq!(*m.index(1), 20);
    assert_eq!(*m.index(3), 30);
}

#[test]
fn filled_returns_value_for_every_retained_variant() {
    let m = VariantMap::filled(vec![0, 1, 3], 7);
    assert_eq!(*m.index(0), 7);
    assert_eq!(*m.index(1), 7);
    assert_eq!(*m.index(3), 7);
}

#[test]
fn from_closure_calls_function_per_retained_variant() {
    let m = VariantMap::from_closure(vec![0, 1, 3], |v: usize| v * 10);
    assert_eq!(*m.index(0), 0);
    assert_eq!(*m.index(1), 10);
    assert_eq!(*m.index(3), 30);
}

#[test]
fn transform_maps_each_slot_with_its_variant() {
    let m = VariantMap::new(vec![0, 1, 3], vec![5, 6, 7]);
    let t = m.transform(|v: usize, x: usize| v + 100 * x);
    assert_eq!(*t.index(0), 500);
    assert_eq!(*t.index(1), 601);
    assert_eq!(*t.index(3), 703);
}

#[test]
fn transform_changes_element_type() {
    let m = VariantMap::new(vec![0, 2], vec![1, 2]);
    let t = m.transform(|_v: usize, x: i32| x > 1);
    assert_eq!(*t.index(0), false);
    assert_eq!(*t.index(2), true);
}

#[test]
fn index_mut_write_is_observed_by_index() {
    let variants = vec![
        unit_variant("A"),
        unit_variant("B"),
        disabled_variant("C"),
        unit_variant("D"),
    ];
    let keys = retained_keys(&variants);
    let mut m = VariantMap::filled(keys, 0);
    *m.index_mut(3) = 42;
    assert_eq!(*m.index(3), 42);
    assert_eq!(*m.index(0), 0);
    assert_eq!(*m.index(1), 0);
}

#[test]
fn empty_map_is_well_formed() {
    let m: VariantMap<i32> = VariantMap::new(Vec::new(), Vec::new());
    let t = m.transform(|v: usize, x: i32| v as i32 + x);
    let _ = t;
}
