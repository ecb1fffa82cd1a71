use std::sync::Arc;

use phlow::capability::{PhlowExtension, PhlowRegistry, PhlowViewMethod};
use phlow::computation::{
    Computation, ItemOperation, ItemsOperation, TextOperation,
};
use phlow::extensions::register_core_extensions;
use phlow::object::PhlowObject;
use phlow::specification::{
    PhlowViewSpecification, PhlowViewSpecificationDataTransport, PhlowViewSpecificationListingItem,
};
use phlow::text::{decimal_string, radix_string};
use phlow::value::{IntegerKind, Value};
use phlow::views::{
    ColumnedListDefinition, ListDefinition, PhlowBitmap, PhlowColumn, PhlowView,
    PhlowViewDefinition, PhlowViewError, PixelFormat,
};

fn core_registry() -> Arc<PhlowRegistry> {
    let mut registry = PhlowRegistry::new(vec!["CoreExtensions".to_string()]);
    register_core_extensions(&mut registry);
    Arc::new(registry)
}

fn integer(registry: &Arc<PhlowRegistry>, kind: IntegerKind, n: i128) -> PhlowObject {
    PhlowObject::object(Value::Integer(kind, n), registry)
}

fn info_view(object: &PhlowObject) -> PhlowView {
    object.phlow_view_named("info_for").expect("i32 has an info view")
}

#[test]
fn value_without_capabilities_has_no_views() {
    let registry = Arc::new(PhlowRegistry::new(vec!["CoreExtensions".to_string()]));
    let object = integer(&registry, IntegerKind::I32, 42);
    assert!(object.phlow_views().is_empty());
    assert!(object.phlow_view_methods().is_empty());
    assert!(object.phlow_view_named("info_for").is_none());
}

#[test]
fn list_capability_lists_what_its_computation_produces() {
    let registry = core_registry();
    let object = integer(&registry, IntegerKind::I32, 42);
    let views = object.phlow_views();
    assert_eq!(views.len(), 2);
    let list = views
        .iter()
        .find_map(|v| match v {
            PhlowView::List(l) => Some(l),
            _ => None,
        })
        .expect("a list view");
    let direct = list.definition.items_computation.value_block_on(&object).unwrap();
    assert_eq!(list.compute_items_sync().len(), direct.len());
    assert_eq!(direct.len(), 4);
}

#[test]
fn scenario_info_list_of_forty_two() {
    let registry = core_registry();
    let object = integer(&registry, IntegerKind::I32, 42);
    let view = info_view(&object);
    assert_eq!(view.get_title(), "Info");
    assert_eq!(view.get_priority(), 5);
    assert_eq!(view.get_view_type(), "list_view");
    let list = match view {
        PhlowView::List(l) => l,
        _ => panic!("info_for is a list"),
    };
    let items = list.compute_items_sync();
    assert_eq!(items.len(), 4);
    assert_eq!(list.compute_item_text_at(&items, 1), Ok("Hex: 2A".to_string()));
    assert_eq!(list.compute_item_text_sync(&items[0]), "Decimal: 42");
    assert_eq!(list.compute_item_text_sync(&items[2]), "Octal: 52");
    assert_eq!(list.compute_item_text_sync(&items[3]), "Binary: 101010");
    let sent = list.compute_item_send_at(&items, 1).unwrap();
    assert_eq!(sent.to_string(), "2A");
    assert_eq!(list.compute_item_text_at(&items, 4).unwrap_err(), PhlowViewError::ItemDoesNotExist(4));
}

#[test]
fn negative_integers_show_their_bit_pattern() {
    let registry = core_registry();
    let object = integer(&registry, IntegerKind::I32, -1);
    let list = match info_view(&object) {
        PhlowView::List(l) => l,
        _ => panic!("info_for is a list"),
    };
    let items = list.compute_items_sync();
    assert_eq!(list.compute_item_text_sync(&items[0]), "Decimal: -1");
    assert_eq!(list.compute_item_text_sync(&items[1]), "Hex: FFFFFFFF");
    let byte = integer(&registry, IntegerKind::I8, -128);
    let methods = byte.phlow_view_methods();
    assert_eq!(methods.len(), 1);
    match PhlowViewMethod::as_view(&methods[0], &byte).unwrap() {
        PhlowView::ColumnedList(v) => {
            let rows = v.compute_items();
            assert_eq!(v.compute_row_texts(&rows[1]), vec!["Hex".to_string(), "80".to_string()]);
            assert_eq!(v.compute_row_texts(&rows[3]), vec!["Binary".to_string(), "10000000".to_string()]);
        }
        _ => panic!("representations_for is a columned list"),
    }
}

#[test]
fn integer_out_of_its_range_yields_no_items() {
    let registry = core_registry();
    let object = integer(&registry, IntegerKind::U8, 300);
    let list = match object.phlow_view_named("representations_for").unwrap() {
        PhlowView::ColumnedList(l) => l,
        _ => panic!("a columned list"),
    };
    assert!(list.compute_items().is_empty());
}

fn three_rows_view(registry: &Arc<PhlowRegistry>) -> (PhlowObject, PhlowView) {
    let rows: Vec<PhlowObject> = ["a", "b", "c"]
        .iter()
        .enumerate()
        .map(|(i, label)| {
            let value = integer(registry, IntegerKind::Usize, i as i128);
            PhlowObject::object(Value::Labelled(label.to_string(), value), registry)
        })
        .collect();
    let labelled = "(&str, phlow::PhlowObject)".to_string();
    let definition = ColumnedListDefinition::new()
        .title("Rows".to_string())
        .items(Computation::new_sync(None, ItemsOperation::Constant(Arc::new(rows))))
        .column(
            PhlowColumn::new()
                .title("Key".to_string())
                .item(Computation::new_sync(Some(labelled.clone()), ItemOperation::LabelText)),
        )
        .column_item(
            "Value".to_string(),
            Computation::new_sync(Some(labelled.clone()), ItemOperation::LabelledValue),
        )
        .send(Computation::new_sync(Some(labelled), ItemOperation::LabelledValue));
    let method = Arc::new(PhlowViewMethod::new(
        "rows_for".to_string(),
        "bool::rows_for".to_string(),
        String::new(),
        "bool".to_string(),
        PhlowViewDefinition::ColumnedList(Arc::new(definition)),
    ));
    let object = PhlowObject::object(Value::Boolean(true), registry);
    let view = PhlowViewMethod::as_view(&method, &object).unwrap();
    (object, view)
}

#[test]
fn scenario_columned_list_of_three_rows() {
    let registry = core_registry();
    let (_, view) = three_rows_view(&registry);
    let list = match &view {
        PhlowView::ColumnedList(l) => l,
        _ => panic!("a columned list"),
    };
    assert_eq!(list.get_columns().len(), 2);
    assert_eq!(list.get_columns()[1].index, 1);
    let rows = list.compute_items();
    assert_eq!(rows.len(), 3);
    assert_eq!(list.compute_row_texts(&rows[2]), vec!["c".to_string(), "2".to_string()]);
    assert_eq!(list.compute_item_text_at(&rows, 0, 1), Ok("0".to_string()));
    assert_eq!(list.compute_item_text_at(&rows, 0, 2).unwrap_err(), PhlowViewError::ColumnDoesNotExist(2));
    assert_eq!(list.compute_item_send_at(&rows, 3).err(), Some(PhlowViewError::ItemDoesNotExist(3)));
    assert_eq!(list.compute_item_send_at(&rows, 1).unwrap().to_string(), "1");

    match view.as_view_specification() {
        PhlowViewSpecification::ColumnedList(spec) => {
            assert_eq!(spec.data_transport, PhlowViewSpecificationDataTransport::Lazy);
            assert_eq!(spec.column_specifications.len(), 2);
            assert_eq!(spec.column_specifications[0].title, "Key");
            assert_eq!(spec.method_selector, "bool::rows_for");
        }
        _ => panic!("a columned list specification"),
    }
    let spec = view.as_view_specification();
    let items = spec.retrieve_items();
    assert_eq!(items.len(), 3);
    match &items[1] {
        PhlowViewSpecificationListingItem::Row(row) => {
            assert_eq!(row.column_values.len(), 2);
            assert_eq!(row.column_values[0].item_text, "b");
            assert_eq!(row.column_values[1].item_text, "1");
        }
        _ => panic!("rows"),
    }
}

#[test]
fn cell_that_cannot_be_computed_shows_placeholder() {
    let registry = core_registry();
    let row = integer(&registry, IntegerKind::I32, 7);
    let column = PhlowColumn::new().item(Computation::new_sync(
        Some("(&str, phlow::PhlowObject)".to_string()),
        ItemOperation::LabelledValue,
    ));
    assert!(column.compute_cell_item(&row).is_none());
    assert_eq!(column.compute_row_text(&row), "Error coercing item type");
    assert_eq!(PhlowColumn::new().compute_row_text(&row), "7");
}

#[test]
fn scenario_sync_and_async_items_agree() {
    let registry = core_registry();
    let object = integer(&registry, IntegerKind::I32, 42);
    let sync = Computation::new_sync(Some("i32".to_string()), ItemsOperation::Representations);
    let asynchronous = Computation::new_async(Some("i32".to_string()), ItemsOperation::Representations);
    assert!(!sync.is_async());
    assert!(asynchronous.is_async());
    let a: Vec<String> = sync.value_block_on(&object).unwrap().iter().map(|o| o.to_string()).collect();
    let b: Vec<String> =
        asynchronous.value_block_on(&object).unwrap().iter().map(|o| o.to_string()).collect();
    assert_eq!(a.len(), 4);
    assert_eq!(a, b);
    let text = Computation::new_async(None, TextOperation::DisplayString);
    assert_eq!(text.value_block_on(&object), Some("42".to_string()));
    let mismatch = Computation::new_async(Some("u8".to_string()), ItemsOperation::Representations);
    assert!(mismatch.value_block_on(&object).is_none());
}

#[test]
fn string_views_and_characters() {
    let registry = core_registry();
    let object = PhlowObject::object(Value::Text("hey".to_string()), &registry);
    let views = object.phlow_views();
    assert_eq!(views.len(), 2);
    match views[0].as_view_specification() {
        PhlowViewSpecification::Text(spec) => {
            assert_eq!(spec.string, "hey");
            assert_eq!(spec.title, "Print");
            assert_eq!(spec.data_transport, PhlowViewSpecificationDataTransport::Included);
        }
        _ => panic!("print_for is a text view"),
    }
    let chars = match &views[1] {
        PhlowView::List(l) => l.compute_items_sync(),
        _ => panic!("chars_for is a list"),
    };
    let texts: Vec<String> = chars.iter().map(|c| c.to_string()).collect();
    assert_eq!(texts, vec!["h", "e", "y"]);
    assert_eq!(chars[0].value_type_name(), "char");
}

#[test]
fn first_registration_of_a_category_wins() {
    let mut registry = PhlowRegistry::new(vec!["A".to_string(), "B".to_string()]);
    let first = Arc::new(phlow::extensions::integer_info(IntegerKind::I32));
    let second = Arc::new(phlow::extensions::integer_representations(IntegerKind::I32));
    registry.register(PhlowExtension::new("B".to_string(), "i32".to_string(), vec![second.clone()]));
    registry.register(PhlowExtension::new("A".to_string(), "i32".to_string(), vec![first]));
    registry.register(PhlowExtension::new("A".to_string(), "i32".to_string(), vec![second]));
    let found = registry.extensions_for("i32");
    assert_eq!(found.len(), 2);
    assert_eq!(found[0].category_name(), "A");
    assert_eq!(found[0].view_methods()[0].method_name, "info_for");
    assert_eq!(found[1].category_name(), "B");
    assert!(registry.extensions_for("u8").is_empty());
}

#[test]
fn elements_borrow_from_their_sequence() {
    let registry = core_registry();
    let element_type = registry.phlow_type_of(&Value::Integer(IntegerKind::I32, 0));
    let value = Value::Sequence(
        "i32".to_string(),
        Arc::new(vec![Value::Integer(IntegerKind::I32, 5), Value::Integer(IntegerKind::I32, 6)]),
    );
    let object = PhlowObject::object_with_generics(value, &registry, vec![element_type]);
    let items = Computation::new_sync(None, ItemsOperation::Elements).value_block_on(&object).unwrap();
    assert_eq!(items.len(), 2);
    assert_eq!(items[1].to_string(), "6");
    assert_eq!(items[1].parent().unwrap().value_ptr(), object.value_ptr());
    assert_eq!(items[1].phlow_views().len(), 2);
}

#[test]
fn bitmaps_and_text_formatting() {
    let bitmap = PhlowBitmap::rgba8(vec![1, 2, 3, 4], 1, 1);
    assert_eq!(bitmap.stride(), 1);
    assert_eq!(bitmap.pixels(), &[1, 2, 3, 4]);
    assert_eq!(bitmap.format, PixelFormat::RGBA8888);
    let bgra = PhlowBitmap::bgra8(vec![], 2, 3);
    assert_eq!(bgra.format, PixelFormat::BGRA8888);
    assert_eq!(bgra.stride(), 2);
    let full = PhlowBitmap::new(vec![0; 8], 1, 2, 4, PixelFormat::RGBA8888);
    assert_eq!(full.stride(), 4);
    assert_eq!(decimal_string(-170141183460469231731687303715884105728), "-170141183460469231731687303715884105728");
    assert_eq!(decimal_string(0), "0");
    assert_eq!(radix_string(255, 16), "FF");
    assert_eq!(radix_string(8, 8), "10");
    assert_eq!(radix_string(0, 2), "0");
    let _ = ListDefinition::new();
}

#[test]
fn list_renders_index_and_text_lines() {
    let registry = core_registry();
    let object = integer(&registry, IntegerKind::I32, 42);
    let list = match info_view(&object) {
        PhlowView::List(l) => l,
        _ => panic!("info_for is a list"),
    };
    assert_eq!(
        list.to_display_string(),
        "Info\n---------------------\n  i | item\n  0 | Decimal: 42\n  1 | Hex: 2A\n  2 | Octal: 52\n  3 | Binary: 101010\n"
    );
}

#[test]
fn columned_list_renders_padded_table() {
    let registry = core_registry();
    let (_, view) = three_rows_view(&registry);
    let list = match &view {
        PhlowView::ColumnedList(l) => l,
        _ => panic!("a columned list"),
    };
    assert_eq!(
        list.to_display_string(),
        "Rows\n---------------------\nKey        | Value     \na          | 0         \nb          | 1         \nc          | 2         \n"
    );
    assert_eq!(
        phlow::render::render_table("T", &vec!["a-very-long-title".to_string()], &vec![]),
        "T\n---------------------\na-very-long-title\n"
    );
}

#[test]
fn text_and_bitmap_render() {
    let registry = core_registry();
    let object = PhlowObject::object(Value::Text("hey".to_string()), &registry);
    match object.phlow_view_named("print_for").unwrap() {
        PhlowView::Text(t) => assert_eq!(t.to_display_string(), "Print\n---------------------\nhey\n"),
        _ => panic!("print_for is a text view"),
    }
    let definition = phlow::views::BitmapDefinition::new().title("Preview".to_string()).bitmap(
        Computation::new_sync(
            None,
            phlow::computation::BitmapOperation::Constant(Arc::new(PhlowBitmap::bgra8(vec![0; 16], 2, 2))),
        ),
    );
    let method = Arc::new(PhlowViewMethod::new(
        "preview_for".to_string(),
        "bool::preview_for".to_string(),
        String::new(),
        "bool".to_string(),
        PhlowViewDefinition::Bitmap(Arc::new(definition)),
    ));
    let flag = PhlowObject::object(Value::Boolean(true), &registry);
    match PhlowViewMethod::as_view(&method, &flag).unwrap() {
        PhlowView::Bitmap(b) => {
            assert_eq!(b.to_display_string(), "Preview\n---------------------\nBitmap: 2x2; format: BGRA8888\n");
            assert_eq!(b.compute_bitmap().pixels().len(), 16);
        }
        _ => panic!("a bitmap view"),
    }
    let text = PhlowObject::object(Value::Text("x".to_string()), &registry);
    assert!(PhlowViewMethod::as_view(&method, &text).is_none());
}

#[test]
fn record_fields_are_labelled_and_borrowed() {
    let registry = core_registry();
    let fields = vec![
        ("width".to_string(), Value::Integer(IntegerKind::U32, 64)),
        ("name".to_string(), Value::Text("box".to_string())),
    ];
    let record = PhlowObject::object(Value::Record("shapes::Box".to_string(), Arc::new(fields)), &registry);
    assert_eq!(record.value_type_name(), "shapes::Box");
    assert_eq!(record.to_string(), "Doesn't support Display or Debug");
    let items = Computation::new_sync(Some("shapes::Box".to_string()), ItemsOperation::Fields)
        .value_block_on(&record)
        .unwrap();
    assert_eq!(items.len(), 2);
    let text = Computation::new_sync(None, TextOperation::LabelAndValue);
    assert_eq!(text.value_block_on(&items[0]), Some("width: 64".to_string()));
    assert_eq!(text.value_block_on(&items[1]), Some("name: box".to_string()));
    let value = Computation::new_sync(None, ItemOperation::LabelledValue).value_block_on(&items[0]).unwrap();
    assert_eq!(value.parent().unwrap().value_ptr(), record.value_ptr());
    assert!(Computation::new_sync(None, ItemsOperation::Fields).value_block_on(&value).is_none());
}
