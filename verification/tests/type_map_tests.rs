use std::any::TypeId;
use uikit::type_map::{same_type, TypeMap};

#[test]
fn same_type_compares_type_ids() {
    assert!(same_type(&TypeId::of::<u8>(), &TypeId::of::<u8>()));
    assert!(!same_type(&TypeId::of::<u8>(), &TypeId::of::<u16>()));
}

#[test]
fn get_after_insert_gives_the_value() {
    let mut m: TypeMap<&str> = TypeMap::new();
    assert!(!m.contains_key(&TypeId::of::<u8>()));
    assert_eq!(m.insert(TypeId::of::<u8>(), "a"), None);
    assert_eq!(m.insert(TypeId::of::<u16>(), "b"), None);
    assert_eq!(m.get(&TypeId::of::<u8>()), Some(&"a"));
    assert_eq!(m.get(&TypeId::of::<u16>()), Some(&"b"));
    assert_eq!(m.get(&TypeId::of::<u32>()), None);
}

#[test]
fn insert_replaces_and_returns_the_old_value() {
    let mut m: TypeMap<i32> = TypeMap::new();
    m.insert(TypeId::of::<u8>(), 1);
    m.insert(TypeId::of::<u16>(), 2);
    assert_eq!(m.insert(TypeId::of::<u8>(), 3), Some(1));
    assert_eq!(m.get(&TypeId::of::<u8>()), Some(&3));
    assert_eq!(m.get(&TypeId::of::<u16>()), Some(&2));
}

#[test]
fn remove_takes_the_value_out() {
    let mut m: TypeMap<i32> = TypeMap::new();
    m.insert(TypeId::of::<u8>(), 1);
    m.insert(TypeId::of::<u16>(), 2);
    m.insert(TypeId::of::<u32>(), 3);
    assert_eq!(m.remove(&TypeId::of::<u16>()), Some(2));
    assert_eq!(m.remove(&TypeId::of::<u16>()), None);
    assert!(!m.contains_key(&TypeId::of::<u16>()));
    assert_eq!(m.get(&TypeId::of::<u8>()), Some(&1));
    assert_eq!(m.get(&TypeId::of::<u32>()), Some(&3));
}

#[test]
fn get_or_insert_with_calls_the_maker_only_when_absent() {
    let mut m: TypeMap<i32> = TypeMap::new();
    assert_eq!(*m.get_or_insert_with(TypeId::of::<u8>(), || 5), 5);
    assert_eq!(*m.get_or_insert_with(TypeId::of::<u8>(), || panic!("not called")), 5);
    assert_eq!(m.get(&TypeId::of::<u8>()), Some(&5));
}
