//! Objects: a value together with its type description, the capabilities of
//! that type, and an optional parent that the value is borrowed from.
use vstd::prelude::*;

use std::sync::Arc;

use crate::capability::{
    bound_view, first_extension, methods_of, natural_type_name, resolved_extensions, view_of, views_of,
    PhlowExtension, PhlowRegistry, PhlowType, PhlowViewMethod,
};
use crate::value::{print_text, AnyValue, Value};
use crate::views::PhlowView;

verus! {

/// What an object shares between its holders.
pub struct PhlowObjectData {
    /// The object's identity: the address of `anchor`, an allocation that lives
    /// exactly as long as the object, so no two live objects share it.
    pub id: u64,
    pub anchor: Arc<u8>,
    /// The object the value is borrowed from; kept alive as long as this object is.
    pub parent: Option<PhlowObject>,
    pub value: AnyValue,
    pub phlow_type: PhlowType,
    pub generic_types: Vec<PhlowType>,
    /// Where objects produced from this one take their capabilities from.
    pub registry: Arc<PhlowRegistry>,
}

/// A wrapped value; clones share the same value.
pub struct PhlowObject {
    pub data: Arc<PhlowObjectData>,
}

impl Clone for PhlowObject {
    fn clone(&self) -> (r: Self)
        ensures
            r == *self,
    {
        PhlowObject { data: self.data.clone() }
    }
}

/// Relies on `Arc::as_ptr`: the address of the allocation, which no other live
/// allocation shares.
#[verifier::external_body]
fn allocation_address(anchor: &Arc<u8>) -> (r: u64) {
    Arc::as_ptr(anchor) as usize as u64
}

impl PhlowObject {
    /// The type name of the value.
    pub open spec fn spec_type_name(self) -> Seq<char> {
        self.data.phlow_type.name@
    }

    /// The view methods of all capabilities of the object's type, category by category.
    pub open spec fn spec_view_methods(self) -> Seq<Arc<PhlowViewMethod>> {
        methods_of(self.data.phlow_type.phlow_extensions@)
    }

    /// The views of the object: one per view method that applies to its type.
    pub open spec fn spec_views(self) -> Seq<PhlowView> {
        views_of(self, self.spec_view_methods())
    }

    /// The object's text.
    pub open spec fn spec_to_string(self) -> Seq<char> {
        print_text(self.data.phlow_type.print_extensions, self.data.value)
    }

    /// Wraps an owned value, resolving the capabilities of its type once.
    pub fn object(value: Value, registry: &Arc<PhlowRegistry>) -> (r: Self)
        ensures
            r.data.value == AnyValue::Object(value),
            registry.spec_describes_value(r.data.phlow_type, value),
            r.data.generic_types@.len() == 0,
            r.data.parent is None,
            r.data.registry == *registry,
    {
        let phlow_type = registry.phlow_type_of(&value);
        Self::new(AnyValue::object(value), phlow_type, Vec::new(), None, registry)
    }

    /// Wraps an owned value whose type has the given type arguments.
    pub fn object_with_generics(
        value: Value,
        registry: &Arc<PhlowRegistry>,
        generic_types: Vec<PhlowType>,
    ) -> (r: Self)
        ensures
            r.data.value == AnyValue::Object(value),
            registry.spec_describes_value(r.data.phlow_type, value),
            r.data.generic_types == generic_types,
            r.data.parent is None,
            r.data.registry == *registry,
    {
        let phlow_type = registry.phlow_type_of(&value);
        Self::new(AnyValue::object(value), phlow_type, generic_types, None, registry)
    }

    /// Wraps a value borrowed from `parent`, which the new object keeps alive.
    pub fn reference(value: Value, parent: &PhlowObject) -> (r: Self)
        ensures
            r.data.value == AnyValue::Reference(value),
            parent.data.registry.spec_describes_value(r.data.phlow_type, value),
            r.data.generic_types@.len() == 0,
            r.data.parent == Some(*parent),
            r.data.registry == parent.data.registry,
    {
        let phlow_type = parent.data.registry.phlow_type_of(&value);
        Self::new(
            AnyValue::reference(value),
            phlow_type,
            Vec::new(),
            Some(parent.clone()),
            &parent.data.registry,
        )
    }

    /// Wraps a borrowed value with an already described type.
    pub fn construct_reference(
        value: Value,
        phlow_type: PhlowType,
        parent: Option<PhlowObject>,
        registry: &Arc<PhlowRegistry>,
    ) -> (r: Self)
        ensures
            r.data.value == AnyValue::Reference(value),
            r.data.phlow_type == phlow_type,
            r.data.generic_types@.len() == 0,
            r.data.parent == parent,
            r.data.registry == *registry,
    {
        Self::new(AnyValue::reference(value), phlow_type, Vec::new(), parent, registry)
    }

    pub fn new(
        value: AnyValue,
        phlow_type: PhlowType,
        generic_types: Vec<PhlowType>,
        parent: Option<PhlowObject>,
        registry: &Arc<PhlowRegistry>,
    ) -> (r: Self)
        ensures
            r.data.value == value,
            r.data.phlow_type == phlow_type,
            r.data.generic_types == generic_types,
            r.data.parent == parent,
            r.data.registry == *registry,
    {
        let anchor = Arc::new(0u8);
        let id = allocation_address(&anchor);
        PhlowObject {
            data: Arc::new(
                PhlowObjectData {
                    id,
                    anchor,
                    parent,
                    value,
                    phlow_type,
                    generic_types,
                    registry: registry.clone(),
                },
            ),
        }
    }

    /// Every object is an object; a value that is not wrapped has no such method.
    pub fn is_phlow_object(&self) -> (r: bool)
        ensures
            r,
    {
        true
    }

    /// The object's identity: the same for all clones of it.
    pub fn object_id(&self) -> (r: u64)
        ensures
            r == self.data.id,
    {
        self.data.id
    }

    /// Same as `object_id`: the identity of the shared value.
    pub fn value_ptr(&self) -> (r: u64)
        ensures
            r == self.data.id,
    {
        self.data.id
    }

    pub fn phlow_type(&self) -> (r: &PhlowType)
        ensures
            *r == self.data.phlow_type,
    {
        &self.data.phlow_type
    }

    pub fn generic_phlow_type(&self, index: usize) -> (r: Option<PhlowType>)
        ensures
            index < self.data.generic_types@.len() ==> r == Some(self.data.generic_types@[index as int]),
            index >= self.data.generic_types@.len() ==> r is None,
    {
        if index < self.data.generic_types.len() {
            Some(self.data.generic_types[index].clone())
        } else {
            None
        }
    }

    pub fn generic_phlow_types(&self) -> (r: &[PhlowType])
        ensures
            r@ == self.data.generic_types@,
    {
        self.data.generic_types.as_slice()
    }

    /// The object's text, as its type's printing capabilities render it.
    pub fn to_string(&self) -> (r: String)
        ensures
            r@ == self.spec_to_string(),
    {
        self.data.phlow_type.print_extensions.to_string(&self.data.value)
    }

    /// Whether the object holds a value, owned or borrowed.
    pub fn has_value(&self) -> (r: bool)
        ensures
            r == self.data.value.spec_value() is Some,
    {
        self.data.value.has_value()
    }

    /// A copy of the value held.
    pub fn clone_value(&self) -> (r: Option<Value>)
        ensures
            r == self.data.value.spec_value(),
    {
        self.data.value.clone_value()
    }

    /// The value held, when the object's type is `name`; `None` on a type mismatch.
    pub fn value_ref(&self, name: &str) -> (r: Option<&Value>)
        ensures
            r matches Some(v) ==> self.spec_type_name() == name@ && self.data.value.spec_value()
                == Some(*v),
            r is None ==> self.spec_type_name() != name@ || self.data.value.spec_value() is None,
    {
        if crate::capability::same_text(self.data.phlow_type.name.as_str(), name) {
            self.data.value.as_ref_safe()
        } else {
            None
        }
    }

    pub fn value_type_name(&self) -> (r: &str)
        ensures
            r@ == self.spec_type_name(),
    {
        self.data.phlow_type.name.as_str()
    }

    pub fn parent(&self) -> (r: Option<&PhlowObject>)
        ensures
            r matches Some(p) ==> self.data.parent == Some(*p),
            r is None ==> self.data.parent is None,
    {
        match &self.data.parent {
            Some(p) => Some(p),
            None => None,
        }
    }

    /// The view methods of the object's capabilities, in resolution order.
    pub fn phlow_view_methods(&self) -> (r: Vec<Arc<PhlowViewMethod>>)
        ensures
            r@ == self.spec_view_methods(),
    {
        crate::capability::collect_methods(&self.data.phlow_type.phlow_extensions)
    }

    /// The views of the object; methods whose target type differs from the
    /// object's are left out.
    pub fn phlow_views(&self) -> (r: Vec<PhlowView>)
        ensures
            r@ == self.spec_views(),
    {
        let methods = self.phlow_view_methods();
        let mut views: Vec<PhlowView> = Vec::new();
        let mut i: usize = 0;
        while i < methods.len()
            invariant
                i <= methods@.len(),
                methods@ == self.spec_view_methods(),
                views@ == views_of(*self, methods@.subrange(0, i as int)),
            decreases methods@.len() - i,
        {
            let view = PhlowViewMethod::as_view(&methods[i], self);
            proof {
                let s = methods@.subrange(0, i + 1);
                assert(s.drop_last() == methods@.subrange(0, i as int));
                assert(s.last() == methods@[i as int]);
            }
            match view {
                Some(v) => views.push(v),
                None => {},
            }
            i = i + 1;
        }
        proof {
            assert(methods@.subrange(0, methods@.len() as int) == methods@);
        }
        views
    }

    /// The view of the first method with the given short name, if that method
    /// applies to the object.
    pub fn phlow_view_named(&self, name: &str) -> (r: Option<PhlowView>)
        ensures
            r == (match crate::capability::first_named(self.spec_view_methods(), name@) {
                Some(m) => view_of(*self, m),
                None => None,
            }),
    {
        let methods = self.phlow_view_methods();
        let mut i: usize = 0;
        assert(methods@.subrange(0, methods@.len() as int) == methods@);
        while i < methods.len()
            invariant
                i <= methods@.len(),
                methods@ == self.spec_view_methods(),
                crate::capability::first_named(methods@, name@) == crate::capability::first_named(
                    methods@.subrange(i as int, methods@.len() as int),
                    name@,
                ),
            decreases methods@.len() - i,
        {
            proof {
                let rest = methods@.subrange(i as int, methods@.len() as int);
                assert(rest[0] == methods@[i as int]);
                assert(rest.drop_first() == methods@.subrange(i + 1, methods@.len() as int));
            }
            if crate::capability::same_text(methods[i].method_name.as_str(), name) {
                return PhlowViewMethod::as_view(&methods[i], self);
            }
            i = i + 1;
        }
        None
    }
}

proof fn lemma_no_extension_found(
    extensions: Seq<Arc<PhlowExtension>>,
    category: Seq<char>,
    target: Seq<char>,
)
    requires
        forall|i: int| 0 <= i < extensions.len() ==> (#[trigger] extensions[i]).target@ != target,
    ensures
        first_extension(extensions, category, target) is None,
    decreases extensions.len(),
{
    if extensions.len() > 0 {
        assert forall|i: int| 0 <= i < extensions.drop_first().len() implies (
        #[trigger] extensions.drop_first()[i]).target@ != target by {
            assert(extensions.drop_first()[i] == extensions[i + 1]);
        }
        lemma_no_extension_found(extensions.drop_first(), category, target);
    }
}

proof fn lemma_nothing_resolved(
    extensions: Seq<Arc<PhlowExtension>>,
    categories: Seq<String>,
    target: Seq<char>,
)
    requires
        forall|i: int| 0 <= i < extensions.len() ==> (#[trigger] extensions[i]).target@ != target,
    ensures
        resolved_extensions(extensions, categories, target).len() == 0,
    decreases categories.len(),
{
    if categories.len() > 0 {
        lemma_nothing_resolved(extensions, categories.drop_last(), target);
        lemma_no_extension_found(extensions, categories.last()@, target);
    }
}

/// A value whose type no extension of the registry targets gets no views
/// when wrapped: its object's view list is empty.
pub proof fn lemma_unregistered_type_has_no_views(
    registry: Arc<PhlowRegistry>,
    value: Value,
    object: PhlowObject,
)
    requires
        forall|i: int|
            0 <= i < registry.extensions@.len() ==> (#[trigger] registry.extensions@[i]).target@
                != natural_type_name(value),
        registry.spec_describes_value(object.data.phlow_type, value),
    ensures
        object.spec_views().len() == 0,
{
    lemma_nothing_resolved(registry.extensions@, registry.categories@, natural_type_name(value));
    assert(object.spec_view_methods() == Seq::<Arc<PhlowViewMethod>>::empty());
}

proof fn lemma_views_of_lists_applicable(
    object: PhlowObject,
    methods: Seq<Arc<PhlowViewMethod>>,
    i: int,
)
    requires
        0 <= i < methods.len(),
        methods[i].target@ == object.spec_type_name(),
    ensures
        views_of(object, methods).contains(bound_view(object, methods[i])),
    decreases methods.len(),
{
    let v = bound_view(object, methods[i]);
    if i == methods.len() - 1 {
        let rest = views_of(object, methods.drop_last());
        assert(views_of(object, methods) == rest.push(v));
        assert(views_of(object, methods)[rest.len() as int] == v);
    } else {
        assert(methods.drop_last()[i] == methods[i]);
        lemma_views_of_lists_applicable(object, methods.drop_last(), i);
        let rest = views_of(object, methods.drop_last());
        let k = choose|k: int| 0 <= k < rest.len() && rest[k] == v;
        match view_of(object, methods.last()) {
            Some(w) => {
                assert(views_of(object, methods) == rest.push(w));
                assert(views_of(object, methods)[k] == v);
            },
            None => {},
        }
    }
}

/// Every view method registered for an object's type shows up among its
/// views: in particular a list method yields a list view over the object
/// whose items computation is the method's own, so the view lists exactly
/// what that computation produces.
pub proof fn lemma_registered_list_view_is_listed(object: PhlowObject, i: int)
    requires
        0 <= i < object.spec_view_methods().len(),
        object.spec_view_methods()[i].target@ == object.spec_type_name(),
        object.spec_view_methods()[i].definition is List,
    ensures
        ({
            let m = object.spec_view_methods()[i];
            let d = m.definition->List_0;
            &&& object.spec_views().contains(
                PhlowView::List(crate::views::PhlowListView { object, defining_method: m, definition: d }),
            )
        }),
{
    lemma_views_of_lists_applicable(object, object.spec_view_methods(), i);
}

/// The extension contributes a view method, and each of its methods is
/// written for the extension's own target type.
pub open spec fn extension_well_targeted(e: Arc<PhlowExtension>) -> bool {
    &&& e.view_methods@.len() > 0
    &&& forall|j: int|
        0 <= j < e.view_methods@.len() ==> (#[trigger] e.view_methods@[j]).target@ == e.target@
}

/// Every extension is well targeted.
pub open spec fn well_targeted(extensions: Seq<Arc<PhlowExtension>>) -> bool {
    forall|i: int| 0 <= i < extensions.len() ==> extension_well_targeted(#[trigger] extensions[i])
}

proof fn lemma_first_extension_found(
    extensions: Seq<Arc<PhlowExtension>>,
    category: Seq<char>,
    target: Seq<char>,
    i: int,
)
    requires
        0 <= i < extensions.len(),
        extensions[i].category@ == category,
        extensions[i].target@ == target,
    ensures
        first_extension(extensions, category, target) matches Some(e) && e.target@ == target
            && extensions.contains(e),
    decreases extensions.len(),
{
    if !(extensions[0].category@ == category && extensions[0].target@ == target) {
        assert(extensions.drop_first()[i - 1] == extensions[i]);
        lemma_first_extension_found(extensions.drop_first(), category, target, i - 1);
        let e = first_extension(extensions.drop_first(), category, target)->0;
        let k = choose|k: int| 0 <= k < extensions.drop_first().len() && extensions.drop_first()[k] == e;
        assert(extensions[k + 1] == e);
    } else {
        assert(extensions[0] == extensions[0]);
    }
}

proof fn lemma_resolved_includes(
    extensions: Seq<Arc<PhlowExtension>>,
    categories: Seq<String>,
    target: Seq<char>,
    c: int,
    i: int,
)
    requires
        0 <= c < categories.len(),
        0 <= i < extensions.len(),
        extensions[i].category@ == categories[c]@,
        extensions[i].target@ == target,
    ensures
        exists|k: int|
            0 <= k < resolved_extensions(extensions, categories, target).len() && extensions.contains(
                #[trigger] resolved_extensions(extensions, categories, target)[k],
            ) && resolved_extensions(extensions, categories, target)[k].target@ == target,
    decreases categories.len(),
{
    let rest = resolved_extensions(extensions, categories.drop_last(), target);
    if c == categories.len() - 1 {
        lemma_first_extension_found(extensions, categories.last()@, target, i);
        let e = first_extension(extensions, categories.last()@, target)->0;
        assert(resolved_extensions(extensions, categories, target) == rest.push(e));
        assert(resolved_extensions(extensions, categories, target)[rest.len() as int] == e);
    } else {
        assert(categories.drop_last()[c] == categories[c]);
        lemma_resolved_includes(extensions, categories.drop_last(), target, c, i);
        let k = choose|k: int|
            0 <= k < rest.len() && extensions.contains(#[trigger] rest[k]) && rest[k].target@ == target;
        match first_extension(extensions, categories.last()@, target) {
            Some(e) => {
                assert(resolved_extensions(extensions, categories, target) == rest.push(e));
                assert(resolved_extensions(extensions, categories, target)[k] == rest[k]);
            },
            None => {},
        }
    }
}

proof fn lemma_methods_of_include(extensions: Seq<Arc<PhlowExtension>>, k: int, j: int)
    requires
        0 <= k < extensions.len(),
        0 <= j < extensions[k].view_methods@.len(),
    ensures
        methods_of(extensions).contains(extensions[k].view_methods@[j]),
    decreases extensions.len(),
{
    let rest = methods_of(extensions.drop_last());
    let m = extensions[k].view_methods@[j];
    if k == extensions.len() - 1 {
        assert(methods_of(extensions)[rest.len() + j] == m);
    } else {
        assert(extensions.drop_last()[k] == extensions[k]);
        lemma_methods_of_include(extensions.drop_last(), k, j);
        let x = choose|x: int| 0 <= x < rest.len() && rest[x] == m;
        assert(methods_of(extensions)[x] == m);
    }
}

/// A value whose type has an extension registered in one of the registry's
/// categories gets at least one view when wrapped, provided every registered
/// extension contributes methods written for its own type.
pub proof fn lemma_registered_type_has_views(
    registry: Arc<PhlowRegistry>,
    value: Value,
    object: PhlowObject,
    c: int,
    i: int,
)
    requires
        well_targeted(registry.extensions@),
        0 <= c < registry.categories@.len(),
        0 <= i < registry.extensions@.len(),
        registry.extensions@[i].category@ == registry.categories@[c]@,
        registry.extensions@[i].target@ == natural_type_name(value),
        registry.spec_describes_value(object.data.phlow_type, value),
    ensures
        object.spec_views().len() > 0,
{
    let exts = registry.extensions@;
    let target = natural_type_name(value);
    lemma_resolved_includes(exts, registry.categories@, target, c, i);
    let resolved = resolved_extensions(exts, registry.categories@, target);
    let k = choose|k: int|
        0 <= k < resolved.len() && exts.contains(#[trigger] resolved[k]) && resolved[k].target@ == target;
    let x = choose|x: int| 0 <= x < exts.len() && exts[x] == resolved[k];
    assert(extension_well_targeted(exts[x]));
    lemma_methods_of_include(resolved, k, 0);
    let methods = object.spec_view_methods();
    let m = resolved[k].view_methods@[0];
    assert(exts[x].view_methods@[0] == m);
    assert(m.target@ == target);
    let y = choose|y: int| 0 <= y < methods.len() && methods[y] == m;
    lemma_views_of_lists_applicable(object, methods, y);
}

} // verus!
