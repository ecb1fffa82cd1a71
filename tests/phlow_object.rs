use std::sync::Arc;

use phlow::capability::{type_id_of_val, PhlowRegistry};
use phlow::extensions::register_core_extensions;
use phlow::object::PhlowObject;
use phlow::value::{AnyMap, AnyValue, AnyVec, IntegerKind, Value};
use phlow::views::{PhlowListView, PhlowTextView};

fn core_registry() -> Arc<PhlowRegistry> {
    let mut registry = PhlowRegistry::new(vec!["CoreExtensions".to_string()]);
    register_core_extensions(&mut registry);
    Arc::new(registry)
}

fn empty_registry() -> Arc<PhlowRegistry> {
    Arc::new(PhlowRegistry::new(vec![]))
}

fn int_vector(values: &[i128]) -> Value {
    Value::Sequence(
        "i32".to_string(),
        Arc::new(values.iter().map(|v| Value::Integer(IntegerKind::I32, *v)).collect()),
    )
}

#[test]
pub fn phlow_object() {
    let registry = empty_registry();
    let object = PhlowObject::object(Value::Integer(IntegerKind::I32, 42), &registry);

    assert!(object.is_phlow_object());
    assert_eq!(object.value_type_name(), "i32");
}

#[test]
pub fn phlow_reference() {
    let registry = empty_registry();
    let value = Value::Integer(IntegerKind::I32, 42);
    let object = PhlowObject::object(value.clone(), &registry);

    assert!(object.is_phlow_object());
    assert_eq!(object.value_type_name(), "i32");
}

#[test]
pub fn phlow_reference_with_parent() {
    let registry = empty_registry();
    let parent = PhlowObject::object(int_vector(&[0, 1, 2]), &registry);

    let child = match parent.clone_value() {
        Some(Value::Sequence(_, elements)) => elements[0].clone(),
        _ => panic!("the parent holds a sequence"),
    };

    let object = PhlowObject::reference(child.clone(), &parent);
    assert!(object.is_phlow_object());
    assert_eq!(object.value_type_name(), "i32");

    let object = PhlowObject::reference(child, &parent.clone());
    assert!(object.is_phlow_object());
    assert_eq!(object.value_type_name(), "i32");
    assert_eq!(object.parent().unwrap().value_ptr(), parent.value_ptr());
}

#[test]
pub fn phlow_object_with_generic() {
    let registry = empty_registry();
    let element_type = registry.phlow_type_of(&Value::Integer(IntegerKind::I32, 0));
    let object =
        PhlowObject::object_with_generics(int_vector(&[0, 1, 2]), &registry, vec![element_type]);

    assert!(object.is_phlow_object());
    assert_eq!(object.value_type_name(), "alloc::vec::Vec<i32>");

    let generic_types = object.generic_phlow_types();
    assert_eq!(generic_types.len(), 1);
    assert_eq!(generic_types[0].name(), "i32");
}

#[test]
pub fn phlow_phlow_object() {
    let registry = empty_registry();
    let inner = PhlowObject::object(Value::Integer(IntegerKind::I32, 42), &registry);
    let object = inner.clone();

    assert!(object.is_phlow_object());
    assert_eq!(object.value_type_name(), "i32");
}

#[test]
pub fn phlow_reference_to_phlow_object() {
    let registry = empty_registry();
    let object_1 = PhlowObject::object(Value::Integer(IntegerKind::I32, 42), &registry);
    let object_1_ref = &object_1;
    let object_2 = object_1_ref.clone();

    assert!(object_1.is_phlow_object());
    assert_eq!(object_1.value_type_name(), "i32");
    assert!(object_2.is_phlow_object());
    assert_eq!(object_2.value_type_name(), "i32");
    assert_eq!(object_1.value_ptr(), object_2.value_ptr());
}

#[test]
fn object_text_uses_display_then_placeholder() {
    let registry = empty_registry();
    let number = PhlowObject::object(Value::Integer(IntegerKind::I64, -42), &registry);
    assert_eq!(number.to_string(), "-42");
    let text = PhlowObject::object(Value::Text("abc".to_string()), &registry);
    assert_eq!(text.to_string(), "abc");
    let letter = PhlowObject::object(Value::Character('x'), &registry);
    assert_eq!(letter.to_string(), "x");
    let flag = PhlowObject::object(Value::Boolean(false), &registry);
    assert_eq!(flag.to_string(), "false");
    let pair = PhlowObject::object(Value::Labelled("Hex".to_string(), number.clone()), &registry);
    assert_eq!(pair.to_string(), "Doesn't support Display or Debug");
    assert_eq!(pair.value_type_name(), "(&str, phlow::PhlowObject)");
}

#[test]
fn sequence_type_name_names_its_elements() {
    let registry = core_registry();
    let object = PhlowObject::object(int_vector(&[]), &registry);
    assert_eq!(object.value_type_name(), "alloc::vec::Vec<i32>");
    let views = object.phlow_views();
    assert_eq!(views.len(), 1);
    assert_eq!(views[0].get_title(), "Items");
    let filled = PhlowObject::object(int_vector(&[5, 6, 7]), &registry);
    match filled.phlow_view_named("items_for").unwrap() {
        phlow::views::PhlowView::List(list) => {
            let items = list.compute_items_sync();
            assert_eq!(items.len(), 3);
            assert_eq!(items[2].to_string(), "7");
            assert_eq!(items[2].value_type_name(), "i32");
            assert_eq!(list.compute_item_text_sync(&items[0]), "5");
        }
        _ => panic!("items_for is a list"),
    }
}

#[test]
fn any_values_hold_owned_and_borrowed_values() {
    let owned = AnyValue::object(Value::Boolean(true));
    assert!(owned.has_value());
    assert!(matches!(owned.take_value(), Some(Value::Boolean(true))));
    let borrowed = AnyValue::reference(Value::Boolean(true));
    assert!(matches!(borrowed.clone_value(), Some(Value::Boolean(true))));
    assert!(borrowed.take_value().is_none());
    assert!(!AnyValue::Empty.has_value());

    let mut v = AnyVec::new();
    v.push(Value::Character('a'));
    assert_eq!(v.len(), 1);
    assert!(matches!(v.get(0), Some(AnyValue::Object(Value::Character('a')))));
    assert!(v.get(1).is_none());

    let mut m = AnyMap::new();
    m.push("k".to_string(), AnyValue::object(Value::Integer(IntegerKind::U8, 1)));
    m.push("k".to_string(), AnyValue::object(Value::Integer(IntegerKind::U8, 2)));
    assert!(matches!(m.get("k"), Some(AnyValue::Object(Value::Integer(IntegerKind::U8, 2)))));
    assert!(m.get("other").is_none());
}

#[test]
fn type_identity_of_values() {
    assert_eq!(type_id_of_val(&Value::Integer(IntegerKind::Usize, 1)), "usize");
    assert_eq!(type_id_of_val(&Value::Text(String::new())), "alloc::string::String");
    assert_eq!(type_id_of_val(&Value::Boolean(true)), "bool");
    assert_eq!(type_id_of_val(&int_vector(&[1])), "alloc::vec::Vec<i32>");
    let registry = core_registry();
    let object = PhlowObject::object(Value::Integer(IntegerKind::U16, 7), &registry);
    assert_eq!(object.phlow_type().name(), "u16");
    assert!(object.has_value());
    assert!(object.value_ref("u16").is_some());
    assert!(object.value_ref("i16").is_none());
    assert!(object.generic_phlow_type(0).is_none());
}

#[test]
fn fresh_views_have_defaults() {
    let registry = core_registry();
    let object = PhlowObject::object(Value::Integer(IntegerKind::U16, 7), &registry);
    let method = object.phlow_view_methods()[0].clone();
    let list = PhlowListView::new(object.clone(), method.clone());
    assert!(list.compute_items_sync().is_empty());
    assert_eq!(list.definition.priority, 10);
    let text = PhlowTextView::new(object, method);
    assert_eq!(text.compute_text(), "7");
}

#[test]
fn sequences_print_their_elements() {
    let registry = core_registry();
    let numbers = PhlowObject::object(int_vector(&[5, 6, 7]), &registry);
    assert_eq!(numbers.to_string(), "[5, 6, 7]");
    let empty = PhlowObject::object(int_vector(&[]), &registry);
    assert_eq!(empty.to_string(), "[]");
    let words = Value::Sequence(
        "alloc::string::String".to_string(),
        Arc::new(vec![Value::Text("a".to_string()), Value::Character('b')]),
    );
    assert_eq!(PhlowObject::object(words, &registry).to_string(), "[\"a\", 'b']");
    let nested = Value::Sequence("alloc::vec::Vec<i32>".to_string(), Arc::new(vec![int_vector(&[1])]));
    assert_eq!(
        PhlowObject::object(nested, &registry).to_string(),
        "Doesn't support Display or Debug"
    );
}
