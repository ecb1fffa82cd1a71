//! Computations: how a view derives items, texts, objects and bitmaps from an
//! object, run either directly or as a future driven to completion.
use vstd::prelude::*;

use std::sync::Arc;

use crate::capability::{same_text, PhlowRegistry};
use crate::object::PhlowObject;
use crate::text::{chars_of, concat, radix_string, radix_text};
use crate::value::{AnyValue, IntegerKind, Value};
use crate::views::PhlowBitmap;

verus! {

/// Relies on `futures_executor::block_on`: it drives the given future to
/// completion on the calling thread and returns its output; a ready future
/// yields its value.
#[verifier::external_body]
fn block_on_ready<T>(value: T) -> (r: T)
    ensures
        r == value,
{
    futures_executor::block_on(std::future::ready(value))
}

/// A derivation from an object. `spec_produces` relates the object to the
/// possible results; `None` means the object's value has the wrong shape.
pub trait Operation: Sized {
    type Output;

    spec fn spec_produces(&self, object: PhlowObject, out: Option<Self::Output>) -> bool;

    fn apply(&self, object: &PhlowObject) -> (r: Option<Self::Output>)
        ensures
            self.spec_produces(*object, r),
    ;
}

/// Whether a computation runs directly or through a future.
#[derive(PartialEq, Eq, Structural, Clone, Copy, Debug)]
pub enum ComputationMode {
    Sync,
    Async,
}

/// A computation over objects of one type (or of any type when `target` is
/// `None`), run synchronously or asynchronously.
pub struct Computation<O> {
    pub mode: ComputationMode,
    pub target: Option<String>,
    pub operation: O,
}

/// `object` holds a value of the computation's target type.
pub open spec fn applies_to(target: Option<String>, object: PhlowObject) -> bool {
    match target {
        None => true,
        Some(t) => t@ == object.spec_type_name() && object.data.value.spec_value() is Some,
    }
}

impl<O: Operation> Computation<O> {
    /// The possible results on `object`: nothing on a type mismatch, else what the
    /// operation produces. How the computation runs does not enter.
    pub open spec fn spec_produces(self, object: PhlowObject, out: Option<O::Output>) -> bool {
        if applies_to(self.target, object) {
            self.operation.spec_produces(object, out)
        } else {
            out is None
        }
    }

    pub fn new_sync(target: Option<String>, operation: O) -> (r: Self)
        ensures
            r.mode == ComputationMode::Sync,
            r.target == target,
            r.operation == operation,
    {
        Computation { mode: ComputationMode::Sync, target, operation }
    }

    pub fn new_async(target: Option<String>, operation: O) -> (r: Self)
        ensures
            r.mode == ComputationMode::Async,
            r.target == target,
            r.operation == operation,
    {
        Computation { mode: ComputationMode::Async, target, operation }
    }

    pub fn is_async(&self) -> (r: bool)
        ensures
            r == (self.mode == ComputationMode::Async),
    {
        match self.mode {
            ComputationMode::Sync => false,
            ComputationMode::Async => true,
        }
    }

    /// Runs the computation on `object`, blocking until an asynchronous one is done.
    pub fn value_block_on(&self, object: &PhlowObject) -> (r: Option<O::Output>)
        ensures
            self.spec_produces(*object, r),
    {
        let applies = match &self.target {
            None => true,
            Some(t) => same_text(t.as_str(), object.value_type_name()) && object.has_value(),
        };
        if !applies {
            return None;
        }
        match self.mode {
            ComputationMode::Sync => self.operation.apply(object),
            ComputationMode::Async => block_on_ready(self.operation.apply(object)),
        }
    }

    /// Runs the computation on `object`, with `default` standing in for a mismatch.
    pub fn value_or_else(&self, object: &PhlowObject, default: O::Output) -> (r: O::Output)
        ensures
            self.spec_produces(*object, Some(r)) || (self.spec_produces(*object, None) && r
                == default),
    {
        match self.value_block_on(object) {
            Some(v) => v,
            None => default,
        }
    }
}

/// Running a computation synchronously or through a future makes no
/// difference to what it can produce.
pub proof fn lemma_execution_mode_is_invisible<O: Operation>(
    target: Option<String>,
    operation: O,
    object: PhlowObject,
    out: Option<O::Output>,
)
    ensures
        (Computation { mode: ComputationMode::Sync, target, operation }).spec_produces(object, out)
            == (Computation { mode: ComputationMode::Async, target, operation }).spec_produces(
            object,
            out,
        ),
{
}

/// `o` wraps `value` as an owned value described by `registry`.
pub open spec fn is_plain_object(o: PhlowObject, value: Value, registry: Arc<PhlowRegistry>) -> bool {
    &&& o.data.value == AnyValue::Object(value)
    &&& registry.spec_describes_value(o.data.phlow_type, value)
    &&& o.data.generic_types@.len() == 0
    &&& o.data.parent is None
    &&& o.data.registry == registry
}

/// `o` wraps the text `text` as an owned value described by `registry`.
pub open spec fn is_text_object(o: PhlowObject, text: Seq<char>, registry: Arc<PhlowRegistry>) -> bool {
    match o.data.value {
        AnyValue::Object(Value::Text(s)) => s@ == text && is_plain_object(o, Value::Text(s), registry),
        _ => false,
    }
}

/// `o` wraps the label `label` paired with an object that `inner` holds of.
pub open spec fn is_labelled_object(
    o: PhlowObject,
    label: Seq<char>,
    inner: spec_fn(PhlowObject) -> bool,
    registry: Arc<PhlowRegistry>,
) -> bool {
    match o.data.value {
        AnyValue::Object(Value::Labelled(l, x)) => l@ == label && inner(x) && is_plain_object(
            o,
            Value::Labelled(l, x),
            registry,
        ),
        _ => false,
    }
}

/// The four renderings of an integer: its decimal value, and its bit pattern
/// in hexadecimal (upper case), octal and binary.
pub open spec fn is_representations(
    items: Seq<PhlowObject>,
    kind: IntegerKind,
    n: i128,
    registry: Arc<PhlowRegistry>,
) -> bool {
    let bits = kind.unsigned_bits(n as int);
    &&& items.len() == 4
    &&& is_labelled_object(
        items[0],
        "Decimal"@,
        |x: PhlowObject| is_plain_object(x, Value::Integer(kind, n), registry),
        registry,
    )
    &&& is_labelled_object(
        items[1],
        "Hex"@,
        |x: PhlowObject| is_text_object(x, radix_text(bits, 16), registry),
        registry,
    )
    &&& is_labelled_object(
        items[2],
        "Octal"@,
        |x: PhlowObject| is_text_object(x, radix_text(bits, 8), registry),
        registry,
    )
    &&& is_labelled_object(
        items[3],
        "Binary"@,
        |x: PhlowObject| is_text_object(x, radix_text(bits, 2), registry),
        registry,
    )
}

/// `o` borrows `element` from `parent`, typed as the parent's first type
/// argument when it has one.
pub open spec fn is_element_reference(o: PhlowObject, element: Value, parent: PhlowObject) -> bool {
    &&& o.data.value == AnyValue::Reference(element)
    &&& o.data.parent == Some(parent)
    &&& o.data.registry == parent.data.registry
    &&& o.data.generic_types@.len() == 0
    &&& if parent.data.generic_types@.len() > 0 {
        o.data.phlow_type == parent.data.generic_types@[0]
    } else {
        parent.data.registry.spec_describes_value(o.data.phlow_type, element)
    }
}

/// `o` pairs the name of `field` with an object borrowing the field's value
/// from `record`.
pub open spec fn is_field_of(o: PhlowObject, field: (String, Value), record: PhlowObject) -> bool {
    is_labelled_object(
        o,
        field.0@,
        |x: PhlowObject|
            {
                &&& x.data.value == AnyValue::Reference(field.1)
                &&& x.data.parent == Some(record)
                &&& x.data.registry == record.data.registry
                &&& record.data.registry.spec_describes_value(x.data.phlow_type, field.1)
            },
        record.data.registry,
    )
}

/// How a list of objects is derived.
pub enum ItemsOperation {
    /// No items.
    Empty,
    /// The same objects every time.
    Constant(Arc<Vec<PhlowObject>>),
    /// The decimal, hexadecimal, octal and binary renderings of an integer.
    Representations,
    /// The elements of a sequence, borrowed from it.
    Elements,
    /// The characters of a text.
    Characters,
    /// The fields of a record, each labelled with its name and borrowed from it.
    Fields,
}

impl Operation for ItemsOperation {
    type Output = Vec<PhlowObject>;

    open spec fn spec_produces(&self, object: PhlowObject, out: Option<Vec<PhlowObject>>) -> bool {
        let registry = object.data.registry;
        match self {
            ItemsOperation::Empty => out matches Some(v) && v@.len() == 0,
            ItemsOperation::Constant(c) => out matches Some(v) && v@ == c@,
            ItemsOperation::Representations => match object.data.value.spec_value() {
                Some(Value::Integer(k, n)) => if k.min() <= n <= k.max() {
                    out matches Some(v) && is_representations(v@, k, n, registry)
                } else {
                    out is None
                },
                _ => out is None,
            },
            ItemsOperation::Elements => match object.data.value.spec_value() {
                Some(Value::Sequence(_, elements)) => out matches Some(v) && v@.len()
                    == elements@.len() && forall|i: int|
                    0 <= i < v@.len() ==> is_element_reference(
                        #[trigger] v@[i],
                        elements@[i],
                        object,
                    ),
                _ => out is None,
            },
            ItemsOperation::Characters => match object.data.value.spec_value() {
                Some(Value::Text(s)) => out matches Some(v) && v@.len() == s@.len() && forall|i: int|
                    0 <= i < v@.len() ==> is_plain_object(
                        #[trigger] v@[i],
                        Value::Character(s@[i]),
                        registry,
                    ),
                _ => out is None,
            },
            ItemsOperation::Fields => match object.data.value.spec_value() {
                Some(Value::Record(_, fields)) => out matches Some(v) && v@.len() == fields@.len()
                    && forall|i: int| 0 <= i < v@.len() ==> is_field_of(#[trigger] v@[i], fields@[i], object),
                _ => out is None,
            },
        }
    }

    fn apply(&self, object: &PhlowObject) -> (r: Option<Vec<PhlowObject>>) {
        match self {
            ItemsOperation::Empty => Some(Vec::new()),
            ItemsOperation::Constant(c) => {
                let mut v: Vec<PhlowObject> = Vec::new();
                let mut i: usize = 0;
                while i < c.len()
                    invariant
                        i <= c@.len(),
                        v@ == c@.subrange(0, i as int),
                    decreases c@.len() - i,
                {
                    v.push(c[i].clone());
                    i = i + 1;
                    proof {
                        assert(c@.subrange(0, i as int) == c@.subrange(0, i - 1 as int).push(
                            c@[i - 1],
                        ));
                    }
                }
                proof {
                    assert(c@.subrange(0, c@.len() as int) == c@);
                }
                Some(v)
            },
            ItemsOperation::Representations => match object.data.value.as_ref_safe() {
                Some(Value::Integer(k, n)) => {
                    if k.is_within(*n) {
                        Some(representations(&object.data.registry, *k, *n))
                    } else {
                        None
                    }
                },
                _ => None,
            },
            ItemsOperation::Elements => match object.data.value.as_ref_safe() {
                Some(Value::Sequence(_, elements)) => Some(element_references(object, elements)),
                _ => None,
            },
            ItemsOperation::Characters => match object.data.value.as_ref_safe() {
                Some(Value::Text(s)) => Some(character_objects(&object.data.registry, s.as_str())),
                _ => None,
            },
            ItemsOperation::Fields => match object.data.value.as_ref_safe() {
                Some(Value::Record(_, fields)) => Some(field_objects(object, fields)),
                _ => None,
            },
        }
    }
}

/// An owned object holding `value`.
fn plain_object(registry: &Arc<PhlowRegistry>, value: Value) -> (r: PhlowObject)
    ensures
        is_plain_object(r, value, *registry),
{
    PhlowObject::object(value, registry)
}

/// An owned object holding the text `s`.
fn text_object(registry: &Arc<PhlowRegistry>, s: String) -> (r: PhlowObject)
    ensures
        is_text_object(r, s@, *registry),
{
    plain_object(registry, Value::Text(s))
}

/// An owned object pairing `label` with `inner`.
fn labelled_object(registry: &Arc<PhlowRegistry>, label: &str, inner: PhlowObject) -> (r: PhlowObject)
    ensures
        match r.data.value {
            AnyValue::Object(Value::Labelled(l, x)) => l@ == label@ && x == inner && is_plain_object(
                r,
                Value::Labelled(l, x),
                *registry,
            ),
            _ => false,
        },
{
    plain_object(registry, Value::Labelled(label.to_owned(), inner))
}

fn representations(registry: &Arc<PhlowRegistry>, kind: IntegerKind, n: i128) -> (r: Vec<
    PhlowObject,
>)
    requires
        kind.min() <= n <= kind.max(),
    ensures
        is_representations(r@, kind, n, *registry),
{
    let bits = kind.unsigned_bits_of(n);
    let decimal = plain_object(registry, Value::Integer(kind, n));
    let hex = text_object(registry, radix_string(bits, 16));
    let octal = text_object(registry, radix_string(bits, 8));
    let binary = text_object(registry, radix_string(bits, 2));
    let mut r: Vec<PhlowObject> = Vec::new();
    r.push(labelled_object(registry, "Decimal", decimal));
    r.push(labelled_object(registry, "Hex", hex));
    r.push(labelled_object(registry, "Octal", octal));
    r.push(labelled_object(registry, "Binary", binary));
    r
}

fn element_references(parent: &PhlowObject, elements: &Arc<Vec<Value>>) -> (r: Vec<PhlowObject>)
    ensures
        r@.len() == elements@.len(),
        forall|i: int| 0 <= i < r@.len() ==> is_element_reference(#[trigger] r@[i], elements@[i], *parent),
{
    let mut r: Vec<PhlowObject> = Vec::new();
    let mut i: usize = 0;
    while i < elements.len()
        invariant
            i <= elements@.len(),
            r@.len() == i,
            forall|j: int| 0 <= j < i ==> is_element_reference(#[trigger] r@[j], elements@[j], *parent),
        decreases elements@.len() - i,
    {
        let element = elements[i].clone();
        let o = match parent.generic_phlow_type(0) {
            Some(t) => PhlowObject::construct_reference(
                element,
                t,
                Some(parent.clone()),
                &parent.data.registry,
            ),
            None => PhlowObject::reference(element, parent),
        };
        r.push(o);
        i = i + 1;
    }
    r
}

fn field_objects(record: &PhlowObject, fields: &Arc<Vec<(String, Value)>>) -> (r: Vec<PhlowObject>)
    ensures
        r@.len() == fields@.len(),
        forall|i: int| 0 <= i < r@.len() ==> is_field_of(#[trigger] r@[i], fields@[i], *record),
{
    let mut r: Vec<PhlowObject> = Vec::new();
    let mut i: usize = 0;
    while i < fields.len()
        invariant
            i <= fields@.len(),
            r@.len() == i,
            forall|j: int| 0 <= j < i ==> is_field_of(#[trigger] r@[j], fields@[j], *record),
        decreases fields@.len() - i,
    {
        let field = PhlowObject::reference(fields[i].1.clone(), record);
        r.push(labelled_object(&record.data.registry, fields[i].0.as_str(), field));
        i = i + 1;
    }
    r
}

fn character_objects(registry: &Arc<PhlowRegistry>, s: &str) -> (r: Vec<PhlowObject>)
    ensures
        r@.len() == s@.len(),
        forall|i: int|
            0 <= i < r@.len() ==> is_plain_object(#[trigger] r@[i], Value::Character(s@[i]), *registry),
{
    let chars = chars_of(s);
    let mut r: Vec<PhlowObject> = Vec::new();
    let mut i: usize = 0;
    while i < chars.len()
        invariant
            i <= chars@.len(),
            chars@ == s@,
            r@.len() == i,
            forall|j: int|
                0 <= j < i ==> is_plain_object(#[trigger] r@[j], Value::Character(s@[j]), *registry),
        decreases chars@.len() - i,
    {
        r.push(plain_object(registry, Value::Character(chars[i])));
        i = i + 1;
    }
    r
}

/// How a text is derived.
pub enum TextOperation {
    /// The object's own text.
    DisplayString,
    /// For a labelled object: the label, a colon, and the text of the labelled object.
    LabelAndValue,
    /// For a labelled object: the label.
    Label,
    /// The same text every time.
    Constant(String),
}

impl Operation for TextOperation {
    type Output = String;

    open spec fn spec_produces(&self, object: PhlowObject, out: Option<String>) -> bool {
        match self {
            TextOperation::DisplayString => out matches Some(s) && s@ == object.spec_to_string(),
            TextOperation::LabelAndValue => match object.data.value.spec_value() {
                Some(Value::Labelled(l, x)) => out matches Some(s) && s@ == l@ + ": "@
                    + x.spec_to_string(),
                _ => out is None,
            },
            TextOperation::Label => match object.data.value.spec_value() {
                Some(Value::Labelled(l, _)) => out matches Some(s) && s@ == l@,
                _ => out is None,
            },
            TextOperation::Constant(c) => out matches Some(s) && s@ == c@,
        }
    }

    fn apply(&self, object: &PhlowObject) -> (r: Option<String>) {
        match self {
            TextOperation::DisplayString => Some(object.to_string()),
            TextOperation::LabelAndValue => match object.data.value.as_ref_safe() {
                Some(Value::Labelled(l, x)) => {
                    let head = concat(l.as_str(), ": ");
                    let text = x.to_string();
                    Some(concat(head.as_str(), text.as_str()))
                },
                _ => None,
            },
            TextOperation::Label => match object.data.value.as_ref_safe() {
                Some(Value::Labelled(l, _)) => Some(l.clone()),
                _ => None,
            },
            TextOperation::Constant(c) => Some(c.clone()),
        }
    }
}

/// How a single object is derived from another.
pub enum ItemOperation {
    /// The object itself.
    Identity,
    /// For a labelled object: the labelled object.
    LabelledValue,
    /// For a labelled object: a new object holding the label.
    LabelText,
}

impl Operation for ItemOperation {
    type Output = PhlowObject;

    open spec fn spec_produces(&self, object: PhlowObject, out: Option<PhlowObject>) -> bool {
        match self {
            ItemOperation::Identity => out == Some(object),
            ItemOperation::LabelledValue => match object.data.value.spec_value() {
                Some(Value::Labelled(_, x)) => out == Some(x),
                _ => out is None,
            },
            ItemOperation::LabelText => match object.data.value.spec_value() {
                Some(Value::Labelled(l, _)) => out matches Some(o) && is_text_object(
                    o,
                    l@,
                    object.data.registry,
                ),
                _ => out is None,
            },
        }
    }

    fn apply(&self, object: &PhlowObject) -> (r: Option<PhlowObject>) {
        match self {
            ItemOperation::Identity => Some(object.clone()),
            ItemOperation::LabelledValue => match object.data.value.as_ref_safe() {
                Some(Value::Labelled(_, x)) => Some(x.clone()),
                _ => None,
            },
            ItemOperation::LabelText => match object.data.value.as_ref_safe() {
                Some(Value::Labelled(l, _)) => Some(text_object(&object.data.registry, l.clone())),
                _ => None,
            },
        }
    }
}

/// How a bitmap is derived.
pub enum BitmapOperation {
    /// An empty bitmap.
    Empty,
    /// The same bitmap every time.
    Constant(Arc<PhlowBitmap>),
}

impl Operation for BitmapOperation {
    type Output = Arc<PhlowBitmap>;

    open spec fn spec_produces(&self, object: PhlowObject, out: Option<Arc<PhlowBitmap>>) -> bool {
        match self {
            BitmapOperation::Empty => out matches Some(b) && b.spec_is_empty(),
            BitmapOperation::Constant(c) => out == Some(*c),
        }
    }

    fn apply(&self, object: &PhlowObject) -> (r: Option<Arc<PhlowBitmap>>) {
        match self {
            BitmapOperation::Empty => Some(Arc::new(PhlowBitmap::empty())),
            BitmapOperation::Constant(c) => Some(c.clone()),
        }
    }
}

pub type ItemsComputation = Computation<ItemsOperation>;

pub type TextComputation = Computation<TextOperation>;

pub type ItemComputation = Computation<ItemOperation>;

pub type SendComputation = Computation<ItemOperation>;

pub type BitmapComputation = Computation<BitmapOperation>;

} // verus!
