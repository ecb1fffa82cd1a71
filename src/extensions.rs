//! The core extensions: views for integers and strings.
use vstd::prelude::*;

use std::sync::Arc;

use crate::capability::{PhlowExtension, PhlowRegistry, PhlowViewMethod};
use crate::object::{extension_well_targeted, lemma_registered_type_has_views, PhlowObject};
use crate::computation::{Computation, ItemOperation, ItemsOperation, TextOperation};
use crate::value::{IntegerKind, Value};
use crate::views::{ColumnedListDefinition, ListDefinition, PhlowViewDefinition, TextDefinition};

verus! {

/// The category of the core extensions.
pub open spec fn core_category() -> Seq<char> {
    "CoreExtensions"@
}

/// The type name of labelled objects.
pub open spec fn labelled_type() -> Seq<char> {
    "(&str, phlow::PhlowObject)"@
}

/// The computation runs on objects of the type named `name` only.
pub open spec fn targets(target: Option<String>, name: Seq<char>) -> bool {
    target matches Some(t) && t@ == name
}

/// The columned "Info" view of an integer: its decimal, hexadecimal, octal and
/// binary renderings, one row each, opening the rendering itself.
pub fn integer_representations(kind: IntegerKind) -> (r: PhlowViewMethod)
    ensures
        r.target@ == kind.spec_type_name(),
        r.method_name@ == "representations_for"@,
        r.full_method_name@ == kind.spec_type_name() + "::representations_for"@,
        r.definition matches PhlowViewDefinition::ColumnedList(d) && {
            &&& d.title@ == "Info"@
            &&& d.priority == 5
            &&& d.items_computation.operation == ItemsOperation::Representations
            &&& d.items_computation.target matches Some(t) && t@ == kind.spec_type_name()
            &&& d.columns@.len() == 2
            &&& d.columns@[0].title@ == "Representation"@
            &&& d.columns@[0].item_computation.operation == ItemOperation::LabelText
            &&& targets(d.columns@[0].item_computation.target, labelled_type())
            &&& d.columns@[1].title@ == "Value"@
            &&& d.columns@[1].item_computation.operation == ItemOperation::LabelledValue
            &&& targets(d.columns@[1].item_computation.target, labelled_type())
            &&& forall|j: int|
                0 <= j < 2 ==> (#[trigger] d.columns@[j]).text_computation.operation
                    == TextOperation::DisplayString && d.columns@[j].text_computation.target is None
            &&& d.send_computation.operation == ItemOperation::LabelledValue
            &&& targets(d.send_computation.target, labelled_type())
        },
{
    let labelled = "(&str, phlow::PhlowObject)".to_owned();
    let base = ColumnedListDefinition::new().title("Info".to_owned()).priority(5).items(
        Computation::new_sync(Some(kind.name()), ItemsOperation::Representations),
    );
    let one = base.column_item(
        "Representation".to_owned(),
        Computation::new_sync(Some(labelled.clone()), ItemOperation::LabelText),
    );
    let two = one.column_item(
        "Value".to_owned(),
        Computation::new_sync(Some(labelled.clone()), ItemOperation::LabelledValue),
    );
    let definition = two.send(Computation::new_sync(Some(labelled), ItemOperation::LabelledValue));
    let target = kind.name();
    let full = crate::text::concat(target.as_str(), "::representations_for");
    PhlowViewMethod::new(
        "representations_for".to_owned(),
        full,
        "view.columned_list().title(\"Info\").priority(5)".to_owned(),
        target,
        PhlowViewDefinition::ColumnedList(Arc::new(definition)),
    )
}

/// The list "Info" view of an integer: one line per rendering, such as
/// `Hex: 2A`, opening the rendering itself.
pub fn integer_info(kind: IntegerKind) -> (r: PhlowViewMethod)
    ensures
        r.target@ == kind.spec_type_name(),
        r.method_name@ == "info_for"@,
        r.full_method_name@ == kind.spec_type_name() + "::info_for"@,
        r.definition matches PhlowViewDefinition::List(d) && {
            &&& d.title@ == "Info"@
            &&& d.priority == 5
            &&& d.items_computation.operation == ItemsOperation::Representations
            &&& d.items_computation.target matches Some(t) && t@ == kind.spec_type_name()
            &&& d.item_text_computation.operation == TextOperation::LabelAndValue
            &&& targets(d.item_text_computation.target, labelled_type())
            &&& d.send_computation.operation == ItemOperation::LabelledValue
            &&& targets(d.send_computation.target, labelled_type())
        },
{
    let labelled = "(&str, phlow::PhlowObject)".to_owned();
    let definition = ListDefinition::new().title("Info".to_owned()).priority(5).items(
        Computation::new_sync(Some(kind.name()), ItemsOperation::Representations),
    ).item_text(Computation::new_sync(Some(labelled.clone()), TextOperation::LabelAndValue)).send(
        Computation::new_sync(Some(labelled), ItemOperation::LabelledValue),
    );
    let target = kind.name();
    let full = crate::text::concat(target.as_str(), "::info_for");
    PhlowViewMethod::new(
        "info_for".to_owned(),
        full,
        "view.list().title(\"Info\").priority(5)".to_owned(),
        target,
        PhlowViewDefinition::List(Arc::new(definition)),
    )
}

/// The list view "Items" of a vector: its elements, borrowed from it.
pub fn vector_items(element: IntegerKind) -> (r: PhlowViewMethod)
    ensures
        r.target@ == "alloc::vec::Vec<"@ + element.spec_type_name() + ">"@,
        r.method_name@ == "items_for"@,
        r.definition matches PhlowViewDefinition::List(d) && {
            &&& d.title@ == "Items"@
            &&& d.priority == 5
            &&& d.items_computation.operation == ItemsOperation::Elements
            &&& targets(d.items_computation.target, r.target@)
            &&& d.item_text_computation.operation == TextOperation::DisplayString
            &&& d.item_text_computation.target is None
            &&& d.send_computation.operation == ItemOperation::Identity
            &&& d.send_computation.target is None
        },
{
    let element_name = element.name();
    let head = crate::text::concat("alloc::vec::Vec<", element_name.as_str());
    let target = crate::text::concat(head.as_str(), ">");
    let definition = ListDefinition::new().title("Items".to_owned()).priority(5).items(
        Computation::new_sync(Some(target.clone()), ItemsOperation::Elements),
    );
    let full = crate::text::concat(target.as_str(), "::items_for");
    PhlowViewMethod::new(
        "items_for".to_owned(),
        full,
        "view.list().title(\"Items\").priority(5)".to_owned(),
        target,
        PhlowViewDefinition::List(Arc::new(definition)),
    )
}

/// The text view "Print" of a string, and its list view "Chars".
pub fn string_views() -> (r: Vec<Arc<PhlowViewMethod>>)
    ensures
        r@.len() == 2,
        r@[0].target@ == "alloc::string::String"@,
        r@[0].method_name@ == "print_for"@,
        r@[0].definition matches PhlowViewDefinition::Text(d) && {
            &&& d.title@ == "Print"@
            &&& d.priority == 5
            &&& d.text_computation.operation == TextOperation::DisplayString
            &&& targets(d.text_computation.target, "alloc::string::String"@)
        },
        r@[1].target@ == "alloc::string::String"@,
        r@[1].method_name@ == "chars_for"@,
        r@[1].definition matches PhlowViewDefinition::List(d) && {
            &&& d.title@ == "Chars"@
            &&& d.priority == 6
            &&& d.items_computation.operation == ItemsOperation::Characters
            &&& targets(d.items_computation.target, "alloc::string::String"@)
            &&& d.item_text_computation.operation == TextOperation::DisplayString
            &&& d.item_text_computation.target is None
            &&& d.send_computation.operation == ItemOperation::Identity
            &&& d.send_computation.target is None
        },
{
    let string = "alloc::string::String".to_owned();
    let print = TextDefinition::new().title("Print".to_owned()).priority(5).text(
        Computation::new_sync(Some(string.clone()), TextOperation::DisplayString),
    );
    let chars = ListDefinition::new().title("Chars".to_owned()).priority(6).items(
        Computation::new_sync(Some(string.clone()), ItemsOperation::Characters),
    );
    let mut r: Vec<Arc<PhlowViewMethod>> = Vec::new();
    r.push(
        Arc::new(
            PhlowViewMethod::new(
                "print_for".to_owned(),
                "alloc::string::String::print_for".to_owned(),
                "view.text().title(\"Print\").priority(5)".to_owned(),
                string.clone(),
                PhlowViewDefinition::Text(Arc::new(print)),
            ),
        ),
    );
    r.push(
        Arc::new(
            PhlowViewMethod::new(
                "chars_for".to_owned(),
                "alloc::string::String::chars_for".to_owned(),
                "view.list().title(\"Chars\").priority(6)".to_owned(),
                string,
                PhlowViewDefinition::List(Arc::new(chars)),
            ),
        ),
    );
    r
}

/// The columned "Info" view of the inspection server: its properties, one
/// row each, opening the property's value.
pub fn server_info() -> (r: PhlowViewMethod)
    ensures
        r.target@ == "phlow_server::PhlowServer"@,
        r.method_name@ == "info_for"@,
        r.definition matches PhlowViewDefinition::ColumnedList(d) && {
            &&& d.title@ == "Info"@
            &&& d.priority == 5
            &&& d.items_computation.operation == ItemsOperation::Fields
            &&& targets(d.items_computation.target, "phlow_server::PhlowServer"@)
            &&& d.columns@.len() == 2
            &&& d.columns@[0].title@ == "Property"@
            &&& d.columns@[0].item_computation.operation == ItemOperation::LabelText
            &&& targets(d.columns@[0].item_computation.target, labelled_type())
            &&& d.columns@[1].title@ == "Value"@
            &&& d.columns@[1].item_computation.operation == ItemOperation::LabelledValue
            &&& targets(d.columns@[1].item_computation.target, labelled_type())
            &&& forall|j: int|
                0 <= j < 2 ==> (#[trigger] d.columns@[j]).text_computation.operation
                    == TextOperation::DisplayString && d.columns@[j].text_computation.target is None
            &&& d.send_computation.operation == ItemOperation::LabelledValue
            &&& targets(d.send_computation.target, labelled_type())
        },
{
    let labelled = "(&str, phlow::PhlowObject)".to_owned();
    let base = ColumnedListDefinition::new().title("Info".to_owned()).priority(5).items(
        Computation::new_sync(Some("phlow_server::PhlowServer".to_owned()), ItemsOperation::Fields),
    );
    let one = base.column_item(
        "Property".to_owned(),
        Computation::new_sync(Some(labelled.clone()), ItemOperation::LabelText),
    );
    let two = one.column_item(
        "Value".to_owned(),
        Computation::new_sync(Some(labelled.clone()), ItemOperation::LabelledValue),
    );
    let definition = two.send(Computation::new_sync(Some(labelled), ItemOperation::LabelledValue));
    PhlowViewMethod::new(
        "info_for".to_owned(),
        "phlow_server::PhlowServer::info_for".to_owned(),
        "view.columned_list().title(\"Info\").priority(5)".to_owned(),
        "phlow_server::PhlowServer".to_owned(),
        PhlowViewDefinition::ColumnedList(Arc::new(definition)),
    )
}

/// Registers the extensions of the inspection server under its own category.
pub fn register_server_extensions(registry: &mut PhlowRegistry)
    ensures
        final(registry).categories == old(registry).categories,
        final(registry).extensions@.len() == old(registry).extensions@.len() + 1,
        final(registry).extensions@.drop_last() == old(registry).extensions@,
        final(registry).extensions@.last().category@ == "PhlowServerExtensions"@,
        final(registry).extensions@.last().target@ == "phlow_server::PhlowServer"@,
{
    let mut methods: Vec<Arc<PhlowViewMethod>> = Vec::new();
    methods.push(Arc::new(server_info()));
    registry.register(
        PhlowExtension::new(
            "PhlowServerExtensions".to_owned(),
            "phlow_server::PhlowServer".to_owned(),
            methods,
        ),
    );
    assert(registry.extensions@.drop_last() == old(registry).extensions@);
}

/// The position of an integer kind among the core registrations.
pub open spec fn kind_index(kind: IntegerKind) -> int {
    match kind {
        IntegerKind::U8 => 0,
        IntegerKind::I8 => 1,
        IntegerKind::U16 => 2,
        IntegerKind::I16 => 3,
        IntegerKind::U32 => 4,
        IntegerKind::I32 => 5,
        IntegerKind::U64 => 6,
        IntegerKind::I64 => 7,
        IntegerKind::Usize => 8,
    }
}

fn kind_at(i: usize) -> (r: IntegerKind)
    requires
        i < 9,
    ensures
        kind_index(r) == i,
{
    match i {
        0 => IntegerKind::U8,
        1 => IntegerKind::I8,
        2 => IntegerKind::U16,
        3 => IntegerKind::I16,
        4 => IntegerKind::U32,
        5 => IntegerKind::I32,
        6 => IntegerKind::U64,
        7 => IntegerKind::I64,
        _ => IntegerKind::Usize,
    }
}

/// Registers the core extensions: the "Info" representations of every integer
/// type, the items of vectors of integers, and the views of strings.
pub fn register_core_extensions(registry: &mut PhlowRegistry)
    ensures
        final(registry).categories == old(registry).categories,
        final(registry).extensions@.len() == old(registry).extensions@.len() + 19,
        final(registry).extensions@.subrange(0, old(registry).extensions@.len() as int) == old(
            registry,
        ).extensions@,
        forall|i: int|
            old(registry).extensions@.len() <= i < final(registry).extensions@.len() ==> (
            #[trigger] final(registry).extensions@[i]).category@ == core_category()
                && extension_well_targeted(final(registry).extensions@[i]),
        forall|kind: IntegerKind|
            #![trigger kind_index(kind)]
            final(registry).extensions@[old(registry).extensions@.len() + 2 * kind_index(
                kind,
            )].target@ == kind.spec_type_name(),
{
    let ghost start = registry.extensions@;
    let mut i: usize = 0;
    while i < 9
        invariant
            i <= 9,
            registry.categories == old(registry).categories,
            registry.extensions@.len() == start.len() + 2 * i,
            registry.extensions@.subrange(0, start.len() as int) == start,
            start == old(registry).extensions@,
            forall|j: int|
                start.len() <= j < registry.extensions@.len() ==> (
                #[trigger] registry.extensions@[j]).category@ == core_category()
                    && extension_well_targeted(registry.extensions@[j]),
            forall|kind: IntegerKind|
                #![trigger kind_index(kind)]
                kind_index(kind) < i ==> registry.extensions@[start.len() + 2 * kind_index(
                    kind,
                )].target@ == kind.spec_type_name(),
        decreases 9 - i,
    {
        let kind = kind_at(i);
        let mut methods: Vec<Arc<PhlowViewMethod>> = Vec::new();
        methods.push(Arc::new(integer_representations(kind)));
        if kind == IntegerKind::I32 || kind == IntegerKind::Usize {
            methods.push(Arc::new(integer_info(kind)));
        }
        let ghost before = registry.extensions@;
        registry.register(PhlowExtension::new("CoreExtensions".to_owned(), kind.name(), methods));
        assert(registry.extensions@.subrange(0, start.len() as int) == before.subrange(
            0,
            start.len() as int,
        ));
        let vector = vector_items(kind);
        let mut vector_methods: Vec<Arc<PhlowViewMethod>> = Vec::new();
        let vector_target = vector.target.clone();
        vector_methods.push(Arc::new(vector));
        let ghost before = registry.extensions@;
        registry.register(
            PhlowExtension::new("CoreExtensions".to_owned(), vector_target, vector_methods),
        );
        assert(registry.extensions@.subrange(0, start.len() as int) == before.subrange(
            0,
            start.len() as int,
        ));
        i = i + 1;
    }
    let ghost before = registry.extensions@;
    registry.register(
        PhlowExtension::new(
            "CoreExtensions".to_owned(),
            "alloc::string::String".to_owned(),
            string_views(),
        ),
    );
    assert(registry.extensions@.subrange(0, start.len() as int) == before.subrange(
        0,
        start.len() as int,
    ));
}

/// Once the core extensions are all a registry holds, and the registry reads
/// the core category, every integer gets at least one view when wrapped.
pub proof fn lemma_core_integers_have_views(
    registry: Arc<PhlowRegistry>,
    kind: IntegerKind,
    n: i128,
    object: PhlowObject,
    c: int,
)
    requires
        registry.extensions@.len() == 19,
        forall|i: int|
            0 <= i < 19 ==> (#[trigger] registry.extensions@[i]).category@ == core_category()
                && extension_well_targeted(registry.extensions@[i]),
        forall|k: IntegerKind|
            #![trigger kind_index(k)]
            registry.extensions@[2 * kind_index(k)].target@ == k.spec_type_name(),
        0 <= c < registry.categories@.len(),
        registry.categories@[c]@ == core_category(),
        registry.spec_describes_value(object.data.phlow_type, Value::Integer(kind, n)),
    ensures
        object.spec_views().len() > 0,
{
    assert(registry.extensions@[2 * kind_index(kind)].target@ == kind.spec_type_name());
    lemma_registered_type_has_views(registry, Value::Integer(kind, n), object, c, 2 * kind_index(kind));
}

} // verus!
