//! Type-erased values: the payloads an object can hold, the owned / borrowed /
//! empty holder around them, and their textual renderings.
use vstd::prelude::*;

use crate::object::PhlowObject;
use crate::text::{decimal_string, decimal_text, string_of};

verus! {

/// The integer types a value can carry.
#[derive(PartialEq, Eq, Structural, Clone, Copy, Debug)]
pub enum IntegerKind {
    U8,
    I8,
    U16,
    I16,
    U32,
    I32,
    U64,
    I64,
    Usize,
}

impl IntegerKind {
    /// Width in bits.
    pub open spec fn bits(self) -> nat {
        match self {
            IntegerKind::U8 | IntegerKind::I8 => 8,
            IntegerKind::U16 | IntegerKind::I16 => 16,
            IntegerKind::U32 | IntegerKind::I32 => 32,
            _ => 64,
        }
    }

    pub open spec fn is_signed(self) -> bool {
        match self {
            IntegerKind::I8 | IntegerKind::I16 | IntegerKind::I32 | IntegerKind::I64 => true,
            _ => false,
        }
    }

    /// Smallest value of the type.
    pub open spec fn min(self) -> int {
        match self {
            IntegerKind::I8 => -0x80,
            IntegerKind::I16 => -0x8000,
            IntegerKind::I32 => -0x8000_0000,
            IntegerKind::I64 => -0x8000_0000_0000_0000,
            _ => 0,
        }
    }

    /// Largest value of the type.
    pub open spec fn max(self) -> int {
        match self {
            IntegerKind::U8 => 0xff,
            IntegerKind::I8 => 0x7f,
            IntegerKind::U16 => 0xffff,
            IntegerKind::I16 => 0x7fff,
            IntegerKind::U32 => 0xffff_ffff,
            IntegerKind::I32 => 0x7fff_ffff,
            IntegerKind::I64 => 0x7fff_ffff_ffff_ffff,
            _ => 0xffff_ffff_ffff_ffff,
        }
    }

    pub open spec fn spec_type_name(self) -> Seq<char> {
        match self {
            IntegerKind::U8 => "u8"@,
            IntegerKind::I8 => "i8"@,
            IntegerKind::U16 => "u16"@,
            IntegerKind::I16 => "i16"@,
            IntegerKind::U32 => "u32"@,
            IntegerKind::I32 => "i32"@,
            IntegerKind::U64 => "u64"@,
            IntegerKind::I64 => "i64"@,
            IntegerKind::Usize => "usize"@,
        }
    }

    /// The name of the Rust type.
    pub fn name(&self) -> (r: String)
        ensures
            r@ == self.spec_type_name(),
    {
        match self {
            IntegerKind::U8 => "u8".to_owned(),
            IntegerKind::I8 => "i8".to_owned(),
            IntegerKind::U16 => "u16".to_owned(),
            IntegerKind::I16 => "i16".to_owned(),
            IntegerKind::U32 => "u32".to_owned(),
            IntegerKind::I32 => "i32".to_owned(),
            IntegerKind::U64 => "u64".to_owned(),
            IntegerKind::I64 => "i64".to_owned(),
            IntegerKind::Usize => "usize".to_owned(),
        }
    }

    pub fn is_within(&self, n: i128) -> (r: bool)
        ensures
            r == (self.min() <= n <= self.max()),
    {
        match self {
            IntegerKind::U8 => 0 <= n && n <= 0xff,
            IntegerKind::I8 => -0x80 <= n && n <= 0x7f,
            IntegerKind::U16 => 0 <= n && n <= 0xffff,
            IntegerKind::I16 => -0x8000 <= n && n <= 0x7fff,
            IntegerKind::U32 => 0 <= n && n <= 0xffff_ffff,
            IntegerKind::I32 => -0x8000_0000 <= n && n <= 0x7fff_ffff,
            IntegerKind::I64 => -0x8000_0000_0000_0000 <= n && n <= 0x7fff_ffff_ffff_ffff,
            _ => 0 <= n && n <= 0xffff_ffff_ffff_ffff,
        }
    }

    /// The bit pattern of `n` read as an unsigned number of this width
    /// (two's complement for negative numbers).
    /// `2` to the power of the width.
    pub open spec fn modulus(self) -> int {
        match self {
            IntegerKind::U8 | IntegerKind::I8 => 0x100,
            IntegerKind::U16 | IntegerKind::I16 => 0x1_0000,
            IntegerKind::U32 | IntegerKind::I32 => 0x1_0000_0000,
            _ => 0x1_0000_0000_0000_0000,
        }
    }

    pub open spec fn unsigned_bits(self, n: int) -> nat {
        if n < 0 {
            (n + self.modulus()) as nat
        } else {
            n as nat
        }
    }

    pub fn unsigned_bits_of(&self, n: i128) -> (r: u128)
        requires
            self.min() <= n <= self.max(),
        ensures
            r as nat == self.unsigned_bits(n as int),
    {
        if n >= 0 {
            n as u128
        } else {
            let m: i128 = match self {
                IntegerKind::I8 => 0x100,
                IntegerKind::I16 => 0x1_0000,
                IntegerKind::I32 => 0x1_0000_0000,
                _ => 0x1_0000_0000_0000_0000,
            };
            (n + m) as u128
        }
    }
}

/// The payload of an object.
pub enum Value {
    Integer(IntegerKind, i128),
    Text(String),
    Character(char),
    Boolean(bool),
    /// A labelled object, such as one row of a property listing.
    Labelled(String, PhlowObject),
    /// A sequence of values of the named element type.
    Sequence(String, std::sync::Arc<Vec<Value>>),
    /// A value of the named type, seen through its named fields.
    Record(String, std::sync::Arc<Vec<(String, Value)>>),
}

impl Clone for Value {
    fn clone(&self) -> (r: Self)
        ensures
            r == *self,
    {
        match self {
            Value::Integer(k, n) => Value::Integer(*k, *n),
            Value::Text(s) => Value::Text(s.clone()),
            Value::Character(c) => Value::Character(*c),
            Value::Boolean(b) => Value::Boolean(*b),
            Value::Labelled(l, o) => Value::Labelled(l.clone(), o.clone()),
            Value::Sequence(t, v) => Value::Sequence(t.clone(), v.clone()),
            Value::Record(t, f) => Value::Record(t.clone(), f.clone()),
        }
    }
}

impl Value {
    /// An integer lies within its type's range.
    pub open spec fn wf(self) -> bool {
        match self {
            Value::Integer(k, n) => k.min() <= n <= k.max(),
            _ => true,
        }
    }
}

/// What a `Display`-like rendering of the value gives, if the value has one.
pub open spec fn display_text(v: Value) -> Option<Seq<char>> {
    match v {
        Value::Integer(_, n) => Some(decimal_text(n as int)),
        Value::Text(s) => Some(s@),
        Value::Character(c) => Some(seq![c]),
        Value::Boolean(b) => Some(if b { "true"@ } else { "false"@ }),
        _ => None,
    }
}

/// The `Debug`-like rendering of a value that holds no other values:
/// strings and characters are quoted.
pub open spec fn scalar_debug_text(v: Value) -> Option<Seq<char>> {
    match v {
        Value::Text(s) => Some(seq!['"'] + s@ + seq!['"']),
        Value::Character(c) => Some(seq!['\'', c, '\'']),
        Value::Integer(_, _) | Value::Boolean(_) => display_text(v),
        _ => None,
    }
}

/// `parts` separated by `, `.
pub open spec fn joined(parts: Seq<Seq<char>>) -> Seq<char>
    decreases parts.len(),
{
    if parts.len() == 0 {
        Seq::empty()
    } else if parts.len() == 1 {
        parts[0]
    } else {
        joined(parts.drop_last()) + ", "@ + parts.last()
    }
}

/// The renderings of the elements, each of which holds no other values.
pub open spec fn element_texts(elements: Seq<Value>) -> Seq<Seq<char>> {
    elements.map_values(|e: Value| scalar_debug_text(e)->0)
}

/// What a `Debug`-like rendering of the value gives, if the value has one:
/// strings and characters are quoted, and a sequence of such values is
/// bracketed with its elements separated by commas.
pub open spec fn debug_text(v: Value) -> Option<Seq<char>> {
    match v {
        Value::Sequence(_, elements) => if forall|i: int|
            0 <= i < elements@.len() ==> (#[trigger] scalar_debug_text(elements@[i])) is Some {
            Some(seq!['['] + joined(element_texts(elements@)) + seq![']'])
        } else {
            None
        },
        _ => scalar_debug_text(v),
    }
}

pub fn display_string(v: &Value) -> (r: Option<String>)
    ensures
        r matches Some(s) ==> display_text(*v) == Some(s@),
        r is None ==> display_text(*v) is None,
{
    match v {
        Value::Integer(_, n) => Some(decimal_string(*n)),
        Value::Text(s) => Some(s.clone()),
        Value::Character(c) => {
            let mut chars: Vec<char> = Vec::new();
            chars.push(*c);
            Some(string_of(&chars))
        },
        Value::Boolean(b) => {
            if *b {
                Some("true".to_owned())
            } else {
                Some("false".to_owned())
            }
        },
        _ => None,
    }
}

fn scalar_debug_string(v: &Value) -> (r: Option<String>)
    ensures
        r matches Some(s) ==> scalar_debug_text(*v) == Some(s@),
        r is None ==> scalar_debug_text(*v) is None,
{
    match v {
        Value::Text(s) => {
            let mut chars: Vec<char> = Vec::new();
            chars.push('"');
            let mut inner = crate::text::chars_of(s.as_str());
            chars.append(&mut inner);
            chars.push('"');
            proof {
                assert(chars@ == seq!['"'] + s@ + seq!['"']);
            }
            Some(string_of(&chars))
        },
        Value::Character(c) => {
            let mut chars: Vec<char> = Vec::new();
            chars.push('\'');
            chars.push(*c);
            chars.push('\'');
            proof {
                assert(chars@ == seq!['\'', *c, '\'']);
            }
            Some(string_of(&chars))
        },
        Value::Integer(_, _) | Value::Boolean(_) => display_string(v),
        _ => None,
    }
}

fn sequence_debug_string(elements: &Vec<Value>) -> (r: Option<String>)
    ensures
        r matches Some(s) ==> (forall|i: int|
            0 <= i < elements@.len() ==> (#[trigger] scalar_debug_text(elements@[i])) is Some) && s@
            == seq!['['] + joined(element_texts(elements@)) + seq![']'],
        r is None ==> !(forall|i: int|
            0 <= i < elements@.len() ==> (#[trigger] scalar_debug_text(elements@[i])) is Some),
{
    let mut out: Vec<char> = Vec::new();
    out.push('[');
    let mut i: usize = 0;
    while i < elements.len()
        invariant
            i <= elements@.len(),
            forall|j: int| 0 <= j < i ==> (#[trigger] scalar_debug_text(elements@[j])) is Some,
            out@ == seq!['['] + joined(element_texts(elements@.subrange(0, i as int))),
        decreases elements@.len() - i,
    {
        let text = match scalar_debug_string(&elements[i]) {
            Some(t) => t,
            None => {
                return None;
            },
        };
        let ghost before = out@;
        if i > 0 {
            out.push(',');
            out.push(' ');
        }
        let mut chars = crate::text::chars_of(text.as_str());
        out.append(&mut chars);
        proof {
            let s = elements@.subrange(0, i + 1);
            assert(s.drop_last() == elements@.subrange(0, i as int));
            assert(element_texts(s).drop_last() =~= element_texts(elements@.subrange(0, i as int)));
            assert(element_texts(s).last() == text@);
            if i > 0 {
                reveal_strlit(", ");
                assert(", "@ == seq![',', ' ']);
                assert(element_texts(s).len() == i + 1);
                assert(joined(element_texts(s)) == joined(element_texts(s).drop_last()) + ", "@
                    + element_texts(s).last());
                assert(out@ =~= seq!['['] + joined(element_texts(s)));
            } else {
                assert(element_texts(s).len() == 1);
                assert(out@ =~= seq!['['] + joined(element_texts(s)));
            }
        }
        i = i + 1;
    }
    out.push(']');
    assert(elements@.subrange(0, elements@.len() as int) == elements@);
    Some(string_of(&out))
}

pub fn debug_string(v: &Value) -> (r: Option<String>)
    ensures
        r matches Some(s) ==> debug_text(*v) == Some(s@),
        r is None ==> debug_text(*v) is None,
{
    match v {
        Value::Sequence(_, elements) => sequence_debug_string(elements),
        _ => scalar_debug_string(v),
    }
}

/// A type-erased value: owned, borrowed from a parent object, or gone.
pub enum AnyValue {
    Object(Value),
    Reference(Value),
    Empty,
}

impl AnyValue {
    /// The value held, owned or borrowed.
    pub open spec fn spec_value(self) -> Option<Value> {
        match self {
            AnyValue::Object(v) => Some(v),
            AnyValue::Reference(v) => Some(v),
            AnyValue::Empty => None,
        }
    }

    pub fn object(value: Value) -> (r: Self)
        ensures
            r == AnyValue::Object(value),
    {
        AnyValue::Object(value)
    }

    pub fn reference(value: Value) -> (r: Self)
        ensures
            r == AnyValue::Reference(value),
    {
        AnyValue::Reference(value)
    }

    /// The value held, owned or borrowed.
    pub fn as_ref_safe(&self) -> (r: Option<&Value>)
        ensures
            r matches Some(v) ==> self.spec_value() == Some(*v),
            r is None ==> self.spec_value() is None,
    {
        match self {
            AnyValue::Object(v) => Some(v),
            AnyValue::Reference(v) => Some(v),
            AnyValue::Empty => None,
        }
    }

    /// Moves the value out; only an owned value can be taken.
    pub fn take_value(self) -> (r: Option<Value>)
        ensures
            r == (match self {
                AnyValue::Object(v) => Some(v),
                _ => None::<Value>,
            }),
    {
        match self {
            AnyValue::Object(v) => Some(v),
            _ => None,
        }
    }

    /// A copy of the value held, owned or borrowed.
    pub fn clone_value(&self) -> (r: Option<Value>)
        ensures
            r == self.spec_value(),
    {
        match self {
            AnyValue::Object(v) => Some(v.clone()),
            AnyValue::Reference(v) => Some(v.clone()),
            AnyValue::Empty => None,
        }
    }

    pub fn has_value(&self) -> (r: bool)
        ensures
            r == self.spec_value() is Some,
    {
        match self {
            AnyValue::Empty => false,
            _ => true,
        }
    }
}

/// Owned values of any kind, in order.
pub struct AnyVec {
    pub values: Vec<AnyValue>,
}

impl AnyVec {
    pub fn new() -> (r: Self)
        ensures
            r.values@.len() == 0,
    {
        AnyVec { values: Vec::new() }
    }

    /// Appends `value`, owned.
    pub fn push(&mut self, value: Value)
        ensures
            final(self).values@ == old(self).values@.push(AnyValue::Object(value)),
    {
        self.values.push(AnyValue::object(value));
    }

    pub fn get(&self, index: usize) -> (r: Option<&AnyValue>)
        ensures
            index < self.values@.len() ==> r == Some(&self.values@[index as int]),
            index >= self.values@.len() ==> r is None,
    {
        if index < self.values.len() {
            Some(&self.values[index])
        } else {
            None
        }
    }

    pub fn len(&self) -> (r: usize)
        ensures
            r == self.values@.len(),
    {
        self.values.len()
    }
}

/// Values of any kind under text keys; a later value replaces an earlier one
/// under the same key.
pub struct AnyMap {
    pub entries: Vec<(String, AnyValue)>,
}

/// The value under `key` in `entries`.
pub open spec fn value_under(entries: Seq<(String, AnyValue)>, key: Seq<char>) -> Option<AnyValue>
    decreases entries.len(),
{
    if entries.len() == 0 {
        None
    } else if entries.last().0@ == key {
        Some(entries.last().1)
    } else {
        value_under(entries.drop_last(), key)
    }
}

impl AnyMap {
    pub fn new() -> (r: Self)
        ensures
            forall|k: Seq<char>| value_under(r.entries@, k) is None,
    {
        AnyMap { entries: Vec::new() }
    }

    /// Puts `value` under `key`.
    pub fn push(&mut self, key: String, value: AnyValue)
        ensures
            value_under(final(self).entries@, key@) == Some(value),
            forall|k: Seq<char>|
                k != key@ ==> value_under(final(self).entries@, k) == value_under(
                    old(self).entries@,
                    k,
                ),
    {
        let ghost before = self.entries@;
        self.entries.push((key, value));
        assert(self.entries@.drop_last() == before);
    }

    /// The value under `key`, if any.
    pub fn get(&self, key: &str) -> (r: Option<&AnyValue>)
        ensures
            r matches Some(v) ==> value_under(self.entries@, key@) == Some(*v),
            r is None ==> value_under(self.entries@, key@) is None,
    {
        let mut i: usize = self.entries.len();
        assert(self.entries@.subrange(0, i as int) == self.entries@);
        while i > 0
            invariant
                i <= self.entries@.len(),
                value_under(self.entries@, key@) == value_under(
                    self.entries@.subrange(0, i as int),
                    key@,
                ),
            decreases i,
        {
            proof {
                let s = self.entries@.subrange(0, i as int);
                assert(s.drop_last() == self.entries@.subrange(0, i - 1));
                assert(s.last() == self.entries@[i - 1]);
            }
            if crate::capability::same_text(self.entries[i - 1].0.as_str(), key) {
                return Some(&self.entries[i - 1].1);
            }
            i = i - 1;
        }
        None
    }
}

/// The placeholder for values that have no textual representation.
pub open spec fn no_text_placeholder() -> Seq<char> {
    "Doesn't support Display or Debug"@
}

/// Which textual renderings a type offers; fixed when the type is described.
#[derive(PartialEq, Eq, Structural, Clone, Copy, Debug)]
pub struct PrintExtensions {
    pub display: bool,
    pub debug: bool,
}

/// The text of a value under the given printing capabilities: the display
/// rendering if there is one, else the debug rendering, else a placeholder.
/// A capability meeting a value it cannot render yields the empty text.
pub open spec fn print_text(p: PrintExtensions, value: AnyValue) -> Seq<char> {
    if p.display {
        match value.spec_value() {
            Some(v) => match display_text(v) {
                Some(t) => t,
                None => Seq::empty(),
            },
            None => Seq::empty(),
        }
    } else if p.debug {
        match value.spec_value() {
            Some(v) => match debug_text(v) {
                Some(t) => t,
                None => Seq::empty(),
            },
            None => Seq::empty(),
        }
    } else {
        no_text_placeholder()
    }
}

impl PrintExtensions {
    /// The capabilities of the type of `value`.
    pub fn of_value(value: &Value) -> (r: Self)
        ensures
            r.display == display_text(*value) is Some,
            r.debug == debug_text(*value) is Some,
    {
        PrintExtensions {
            display: display_string(value).is_some(),
            debug: debug_string(value).is_some(),
        }
    }

    pub fn to_string(&self, value: &AnyValue) -> (r: String)
        ensures
            r@ == print_text(*self, *value),
    {
        if self.display {
            match self.display_string(value) {
                Some(s) => s,
                None => String::new(),
            }
        } else if self.debug {
            match self.debug_string(value) {
                Some(s) => s,
                None => String::new(),
            }
        } else {
            "Doesn't support Display or Debug".to_owned()
        }
    }

    /// The display rendering, when the type has one.
    pub fn display_string(&self, value: &AnyValue) -> (r: Option<String>)
        ensures
            !self.display ==> r is None,
            self.display ==> (r matches Some(s) && s@ == (match value.spec_value() {
                Some(v) => match display_text(v) {
                    Some(t) => t,
                    None => Seq::empty(),
                },
                None => Seq::empty(),
            })),
    {
        if !self.display {
            return None;
        }
        match value.as_ref_safe() {
            Some(v) => match display_string(v) {
                Some(s) => Some(s),
                None => Some(String::new()),
            },
            None => Some(String::new()),
        }
    }

    /// The debug rendering, when the type has one.
    pub fn debug_string(&self, value: &AnyValue) -> (r: Option<String>)
        ensures
            !self.debug ==> r is None,
            self.debug ==> (r matches Some(s) && s@ == (match value.spec_value() {
                Some(v) => match debug_text(v) {
                    Some(t) => t,
                    None => Seq::empty(),
                },
                None => Seq::empty(),
            })),
    {
        if !self.debug {
            return None;
        }
        match value.as_ref_safe() {
            Some(v) => match debug_string(v) {
                Some(s) => Some(s),
                None => Some(String::new()),
            },
            None => Some(String::new()),
        }
    }
}

} // verus!
