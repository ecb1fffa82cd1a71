use std::sync::Arc;

use phlow::capability::PhlowRegistry;
use phlow::extensions::register_core_extensions;
use phlow::object::PhlowObject;
use phlow::value::{IntegerKind, Value};

fn assert_has_extensions(kind: IntegerKind, value: i128) {
    let mut registry = PhlowRegistry::new(vec!["CoreExtensions".to_string()]);
    register_core_extensions(&mut registry);
    let registry = Arc::new(registry);
    let object = PhlowObject::object(Value::Integer(kind, value), &registry);
    let views = object.phlow_views();
    assert!(views.len() > 0);
}

#[test]
pub fn test_u8() {
    assert_has_extensions(IntegerKind::U8, 42);
}

#[test]
pub fn test_i8() {
    assert_has_extensions(IntegerKind::I8, 42);
}

#[test]
pub fn test_u16() {
    assert_has_extensions(IntegerKind::U16, 42);
}

#[test]
pub fn test_i16() {
    assert_has_extensions(IntegerKind::I16, 42);
}

#[test]
pub fn test_u32() {
    assert_has_extensions(IntegerKind::U32, 42);
}

#[test]
pub fn test_i32() {
    assert_has_extensions(IntegerKind::I32, 42);
}

#[test]
pub fn test_u64() {
    assert_has_extensions(IntegerKind::U64, 42);
}

#[test]
pub fn test_i64() {
    assert_has_extensions(IntegerKind::I64, 42);
}

#[test]
pub fn test_usize() {
    assert_has_extensions(IntegerKind::Usize, 42);
}
