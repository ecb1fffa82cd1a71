//! Capabilities: extensions registered per (category, type), the view methods
//! they contribute, and their resolution for a type.
use vstd::prelude::*;

use std::sync::Arc;

use crate::object::PhlowObject;
use crate::text::chars_of;
use crate::value::{debug_text, display_text, PrintExtensions, Value};
use crate::views::{PhlowView, PhlowViewDefinition};

verus! {

/// Whether two texts are equal.
pub fn same_text(a: &str, b: &str) -> (r: bool)
    ensures
        r == (a@ == b@),
{
    let x = chars_of(a);
    let y = chars_of(b);
    if x.len() != y.len() {
        return false;
    }
    let mut i: usize = 0;
    while i < x.len()
        invariant
            x@ == a@,
            y@ == b@,
            x@.len() == y@.len(),
            i <= x@.len(),
            forall|j: int| 0 <= j < i ==> x@[j] == y@[j],
        decreases x@.len() - i,
    {
        if x[i] != y[i] {
            assert(x@ != y@);
            return false;
        }
        i = i + 1;
    }
    assert(x@ =~= y@);
    true
}

/// A view-producing method registered for a type.
pub struct PhlowViewMethod {
    pub method_name: String,
    pub full_method_name: String,
    pub source_code: String,
    /// The type the method was written for; it yields no view for any other.
    pub target: String,
    pub definition: PhlowViewDefinition,
}

/// The view that `method` defines, bound to `object`.
pub open spec fn bound_view(object: PhlowObject, method: Arc<PhlowViewMethod>) -> PhlowView {
    method.definition.spec_instantiate(object, method)
}

/// The view of `object` that `method` builds, or `None` when the object's
/// type is not the method's target.
pub open spec fn view_of(object: PhlowObject, method: Arc<PhlowViewMethod>) -> Option<PhlowView> {
    if method.target@ == object.spec_type_name() {
        Some(bound_view(object, method))
    } else {
        None
    }
}

/// The views that `methods` build for `object`, in order, skipping methods
/// that do not apply.
pub open spec fn views_of(object: PhlowObject, methods: Seq<Arc<PhlowViewMethod>>) -> Seq<PhlowView>
    decreases methods.len(),
{
    if methods.len() == 0 {
        Seq::empty()
    } else {
        let rest = views_of(object, methods.drop_last());
        match view_of(object, methods.last()) {
            Some(v) => rest.push(v),
            None => rest,
        }
    }
}

/// The first method in `methods` with the given short name.
pub open spec fn first_named(methods: Seq<Arc<PhlowViewMethod>>, name: Seq<char>) -> Option<
    Arc<PhlowViewMethod>,
>
    decreases methods.len(),
{
    if methods.len() == 0 {
        None
    } else if methods[0].method_name@ == name {
        Some(methods[0])
    } else {
        first_named(methods.drop_first(), name)
    }
}

impl PhlowViewMethod {
    pub fn new(
        method_name: String,
        full_method_name: String,
        source_code: String,
        target: String,
        definition: PhlowViewDefinition,
    ) -> (r: Self)
        ensures
            r == (PhlowViewMethod { method_name, full_method_name, source_code, target, definition }),
    {
        PhlowViewMethod { method_name, full_method_name, source_code, target, definition }
    }

    /// The view this method builds for `object`; `None` when the object's type
    /// is not the method's target.
    pub fn as_view(method: &Arc<PhlowViewMethod>, object: &PhlowObject) -> (r: Option<PhlowView>)
        ensures
            r == view_of(*object, *method),
    {
        if same_text(method.target.as_str(), object.value_type_name()) {
            Some(method.definition.instantiate(object, method))
        } else {
            None
        }
    }

    pub fn source_code(&self) -> (r: &str)
        ensures
            r@ == self.source_code@,
    {
        self.source_code.as_str()
    }
}

/// The view methods that one category contributes to one type.
pub struct PhlowExtension {
    pub category: String,
    pub target: String,
    pub view_methods: Vec<Arc<PhlowViewMethod>>,
}

impl PhlowExtension {
    pub fn new(category: String, target: String, view_methods: Vec<Arc<PhlowViewMethod>>) -> (r: Self)
        ensures
            r == (PhlowExtension { category, target, view_methods }),
    {
        PhlowExtension { category, target, view_methods }
    }

    pub fn category_name(&self) -> (r: &str)
        ensures
            r@ == self.category@,
    {
        self.category.as_str()
    }

    pub fn target_type_name(&self) -> (r: &str)
        ensures
            r@ == self.target@,
    {
        self.target.as_str()
    }

    pub fn view_methods(&self) -> (r: &Vec<Arc<PhlowViewMethod>>)
        ensures
            *r == self.view_methods,
    {
        &self.view_methods
    }
}

/// All view methods of `extensions`, extension by extension.
pub open spec fn methods_of(extensions: Seq<Arc<PhlowExtension>>) -> Seq<Arc<PhlowViewMethod>>
    decreases extensions.len(),
{
    if extensions.len() == 0 {
        Seq::empty()
    } else {
        methods_of(extensions.drop_last()) + extensions.last().view_methods@
    }
}

/// All view methods of `extensions`, extension by extension.
pub fn collect_methods(extensions: &Vec<Arc<PhlowExtension>>) -> (r: Vec<Arc<PhlowViewMethod>>)
    ensures
        r@ == methods_of(extensions@),
{
    let mut r: Vec<Arc<PhlowViewMethod>> = Vec::new();
    let mut i: usize = 0;
    while i < extensions.len()
        invariant
            i <= extensions@.len(),
            r@ == methods_of(extensions@.subrange(0, i as int)),
        decreases extensions@.len() - i,
    {
        let methods = &extensions[i].view_methods;
        let ghost before = r@;
        let mut j: usize = 0;
        while j < methods.len()
            invariant
                j <= methods@.len(),
                *methods == extensions@[i as int].view_methods,
                r@ == before + methods@.subrange(0, j as int),
            decreases methods@.len() - j,
        {
            r.push(methods[j].clone());
            j = j + 1;
            proof {
                assert(methods@.subrange(0, j as int) == methods@.subrange(0, j - 1 as int).push(
                    methods@[j - 1],
                ));
            }
        }
        proof {
            let s = extensions@.subrange(0, i + 1);
            assert(s.drop_last() == extensions@.subrange(0, i as int));
            assert(methods@.subrange(0, methods@.len() as int) == methods@);
        }
        i = i + 1;
    }
    proof {
        assert(extensions@.subrange(0, extensions@.len() as int) == extensions@);
    }
    r
}

/// The first extension of `category` registered for `target`.
pub open spec fn first_extension(
    extensions: Seq<Arc<PhlowExtension>>,
    category: Seq<char>,
    target: Seq<char>,
) -> Option<Arc<PhlowExtension>>
    decreases extensions.len(),
{
    if extensions.len() == 0 {
        None
    } else if extensions[0].category@ == category && extensions[0].target@ == target {
        Some(extensions[0])
    } else {
        first_extension(extensions.drop_first(), category, target)
    }
}

/// The extensions of `target`: for each category in order, the first one
/// registered for it, if any. No category contributes twice and none is
/// required to contribute.
pub open spec fn resolved_extensions(
    extensions: Seq<Arc<PhlowExtension>>,
    categories: Seq<String>,
    target: Seq<char>,
) -> Seq<Arc<PhlowExtension>>
    decreases categories.len(),
{
    if categories.len() == 0 {
        Seq::empty()
    } else {
        let rest = resolved_extensions(extensions, categories.drop_last(), target);
        match first_extension(extensions, categories.last()@, target) {
            Some(e) => rest.push(e),
            None => rest,
        }
    }
}

/// The description of a concrete type: its name, the capabilities resolved
/// for it, and how its values print.
pub struct PhlowType {
    pub name: String,
    pub phlow_extensions: Arc<Vec<Arc<PhlowExtension>>>,
    pub print_extensions: PrintExtensions,
}

impl Clone for PhlowType {
    fn clone(&self) -> (r: Self)
        ensures
            r == *self,
    {
        PhlowType {
            name: self.name.clone(),
            phlow_extensions: self.phlow_extensions.clone(),
            print_extensions: self.print_extensions,
        }
    }
}

impl PhlowType {
    pub fn name(&self) -> (r: &str)
        ensures
            r@ == self.name@,
    {
        self.name.as_str()
    }

    pub fn value_to_string(&self, value: &crate::value::AnyValue) -> (r: String)
        ensures
            r@ == crate::value::print_text(self.print_extensions, *value),
    {
        self.print_extensions.to_string(value)
    }
}

/// The name of the type of a value.
pub open spec fn natural_type_name(v: Value) -> Seq<char> {
    match v {
        Value::Integer(k, _) => k.spec_type_name(),
        Value::Text(_) => "alloc::string::String"@,
        Value::Character(_) => "char"@,
        Value::Boolean(_) => "bool"@,
        Value::Labelled(_, _) => "(&str, phlow::PhlowObject)"@,
        Value::Sequence(t, _) => "alloc::vec::Vec<"@ + t@ + ">"@,
        Value::Record(t, _) => t@,
    }
}

/// The identity of the type of a value: its name.
pub fn type_id_of_val(v: &Value) -> (r: String)
    ensures
        r@ == natural_type_name(*v),
{
    match v {
        Value::Integer(k, _) => k.name(),
        Value::Text(_) => "alloc::string::String".to_owned(),
        Value::Character(_) => "char".to_owned(),
        Value::Boolean(_) => "bool".to_owned(),
        Value::Labelled(_, _) => "(&str, phlow::PhlowObject)".to_owned(),
        Value::Record(t, _) => t.clone(),
        Value::Sequence(t, _) => {
            let a = crate::text::concat("alloc::vec::Vec<", t.as_str());
            crate::text::concat(a.as_str(), ">")
        },
    }
}

/// The registered extensions, and the categories that objects take their
/// capabilities from, in order.
pub struct PhlowRegistry {
    pub extensions: Vec<Arc<PhlowExtension>>,
    pub categories: Vec<String>,
}

impl PhlowRegistry {
    /// `t` describes a type named `name` whose values print like `sample`.
    pub open spec fn spec_describes(self, t: PhlowType, name: Seq<char>, print: PrintExtensions) -> bool {
        &&& t.name@ == name
        &&& t.phlow_extensions@ == resolved_extensions(self.extensions@, self.categories@, name)
        &&& t.print_extensions == print
    }

    /// `t` describes the type of `value`.
    pub open spec fn spec_describes_value(self, t: PhlowType, value: Value) -> bool {
        self.spec_describes(t, natural_type_name(value), print_of(value))
    }

    pub fn new(categories: Vec<String>) -> (r: Self)
        ensures
            r.extensions@.len() == 0,
            r.categories == categories,
    {
        PhlowRegistry { extensions: Vec::new(), categories }
    }

    /// Registers an extension; an earlier one of the same category and type
    /// takes precedence.
    pub fn register(&mut self, extension: PhlowExtension)
        ensures
            final(self).extensions@ == old(self).extensions@.push(Arc::new(extension)),
            final(self).categories == old(self).categories,
    {
        self.extensions.push(Arc::new(extension));
    }

    /// The extensions of the type named `target`, in category order.
    pub fn extensions_for(&self, target: &str) -> (r: Vec<Arc<PhlowExtension>>)
        ensures
            r@ == resolved_extensions(self.extensions@, self.categories@, target@),
    {
        let mut r: Vec<Arc<PhlowExtension>> = Vec::new();
        let mut c: usize = 0;
        while c < self.categories.len()
            invariant
                c <= self.categories@.len(),
                r@ == resolved_extensions(
                    self.extensions@,
                    self.categories@.subrange(0, c as int),
                    target@,
                ),
            decreases self.categories@.len() - c,
        {
            let found = self.find_extension(self.categories[c].as_str(), target);
            proof {
                let s = self.categories@.subrange(0, c + 1);
                assert(s.drop_last() == self.categories@.subrange(0, c as int));
                assert(s.last() == self.categories@[c as int]);
            }
            match found {
                Some(e) => r.push(e),
                None => {},
            }
            c = c + 1;
        }
        proof {
            assert(self.categories@.subrange(0, self.categories@.len() as int) == self.categories@);
        }
        r
    }

    fn find_extension(&self, category: &str, target: &str) -> (r: Option<Arc<PhlowExtension>>)
        ensures
            r == first_extension(self.extensions@, category@, target@),
    {
        let mut i: usize = 0;
        assert(self.extensions@.subrange(0, self.extensions@.len() as int) == self.extensions@);
        while i < self.extensions.len()
            invariant
                i <= self.extensions@.len(),
                first_extension(self.extensions@, category@, target@) == first_extension(
                    self.extensions@.subrange(i as int, self.extensions@.len() as int),
                    category@,
                    target@,
                ),
            decreases self.extensions@.len() - i,
        {
            proof {
                let rest = self.extensions@.subrange(i as int, self.extensions@.len() as int);
                assert(rest[0] == self.extensions@[i as int]);
                assert(rest.drop_first() == self.extensions@.subrange(
                    i + 1,
                    self.extensions@.len() as int,
                ));
            }
            let e = &self.extensions[i];
            if same_text(e.category.as_str(), category) && same_text(e.target.as_str(), target) {
                return Some(e.clone());
            }
            i = i + 1;
        }
        None
    }

    /// Describes the type named `name`, resolving its capabilities once.
    pub fn phlow_type(&self, name: &str, print: PrintExtensions) -> (r: PhlowType)
        ensures
            self.spec_describes(r, name@, print),
    {
        PhlowType {
            name: name.to_owned(),
            phlow_extensions: Arc::new(self.extensions_for(name)),
            print_extensions: print,
        }
    }

    /// Describes the type of `value`.
    pub fn phlow_type_of(&self, value: &Value) -> (r: PhlowType)
        ensures
            self.spec_describes_value(r, *value),
    {
        let name = type_id_of_val(value);
        self.phlow_type(name.as_str(), PrintExtensions::of_value(value))
    }
}

/// How values of the type of `v` print.
pub open spec fn print_of(v: Value) -> PrintExtensions {
    PrintExtensions { display: display_text(v) is Some, debug: debug_text(v) is Some }
}

} // verus!
