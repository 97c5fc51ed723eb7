//! The value tree that handles refer to, its mathematical model, and the flat
//! type tag used for introspection.

use vstd::prelude::*;
use vstd::std_specs::convert::FromSpecImpl;

verus! {

/// A GBLN value as plain data.
///
/// Floating-point variants hold the IEEE-754 bit pattern of the number, so a
/// value read back is the value stored, bit for bit. An object holds its
/// fields as a list, in the order in which they were inserted, so that
/// contracts can speak of them as a sequence; that no key occurs twice is
/// the invariant [`ValueView::wf`], which the builders keep.
#[derive(Debug, PartialEq)]
pub enum Value {
    I8(i8),
    I16(i16),
    I32(i32),
    I64(i64),
    U8(u8),
    U16(u16),
    U32(u32),
    U64(u64),
    F32(u32),
    F64(u64),
    Str(String),
    Bool(bool),
    Null,
    Object(Vec<(String, Value)>),
    Array(Vec<Value>),
}

/// The mathematical model of a [`Value`]: strings are sequences of characters,
/// objects are sequences of key/value pairs, arrays are sequences of values.
pub ghost enum ValueView {
    I8(i8),
    I16(i16),
    I32(i32),
    I64(i64),
    U8(u8),
    U16(u16),
    U32(u32),
    U64(u64),
    F32(u32),
    F64(u64),
    Str(Seq<char>),
    Bool(bool),
    Null,
    Object(Seq<(Seq<char>, ValueView)>),
    Array(Seq<ValueView>),
}

/// Flat tag naming the variant of a value.
#[derive(Debug, Clone, Copy, PartialEq, Eq, Structural)]
pub enum GblnValueType {
    I8,
    I16,
    I32,
    I64,
    U8,
    U16,
    U32,
    U64,
    F32,
    F64,
    Str,
    Bool,
    Null,
    Object,
    Array,
}

/// `i` is the first position in `fields` whose key is `key`.
pub open spec fn first_match(
    fields: Seq<(Seq<char>, ValueView)>,
    key: Seq<char>,
    i: int,
) -> bool {
    &&& 0 <= i < fields.len()
    &&& fields[i].0 == key
    &&& forall|j: int| 0 <= j < i ==> (#[trigger] fields[j]).0 != key
}

/// No key occurs twice in `fields`.
pub open spec fn distinct_keys(fields: Seq<(Seq<char>, ValueView)>) -> bool {
    forall|i: int, j: int|
        0 <= i < j < fields.len() ==> (#[trigger] fields[i]).0 != (#[trigger] fields[j]).0
}

impl ValueView {
    /// The tag of this value's variant.
    pub open spec fn tag(self) -> GblnValueType {
        match self {
            ValueView::I8(_) => GblnValueType::I8,
            ValueView::I16(_) => GblnValueType::I16,
            ValueView::I32(_) => GblnValueType::I32,
            ValueView::I64(_) => GblnValueType::I64,
            ValueView::U8(_) => GblnValueType::U8,
            ValueView::U16(_) => GblnValueType::U16,
            ValueView::U32(_) => GblnValueType::U32,
            ValueView::U64(_) => GblnValueType::U64,
            ValueView::F32(_) => GblnValueType::F32,
            ValueView::F64(_) => GblnValueType::F64,
            ValueView::Str(_) => GblnValueType::Str,
            ValueView::Bool(_) => GblnValueType::Bool,
            ValueView::Null => GblnValueType::Null,
            ValueView::Object(_) => GblnValueType::Object,
            ValueView::Array(_) => GblnValueType::Array,
        }
    }

    /// The fields of an object; no fields for any other value.
    pub open spec fn fields(self) -> Seq<(Seq<char>, ValueView)> {
        match self {
            ValueView::Object(fields) => fields,
            _ => Seq::empty(),
        }
    }

    /// The elements of an array; no elements for any other value.
    pub open spec fn items(self) -> Seq<ValueView> {
        match self {
            ValueView::Array(items) => items,
            _ => Seq::empty(),
        }
    }

    /// Whether this value is an object with a field named `key`.
    pub open spec fn has_key(self, key: Seq<char>) -> bool {
        exists|i: int| 0 <= i < self.fields().len() && (#[trigger] self.fields()[i]).0 == key
    }

    /// The position of the first field named `key`.
    pub open spec fn key_index(self, key: Seq<char>) -> int {
        choose|i: int| first_match(self.fields(), key, i)
    }

    /// The value stored under `key`, if this is an object that has that key.
    pub open spec fn lookup(self, key: Seq<char>) -> Option<ValueView> {
        if self.has_key(key) {
            Some(self.fields()[self.key_index(key)].1)
        } else {
            None
        }
    }

    /// The element at `index`, if this is an array that long.
    pub open spec fn element(self, index: int) -> Option<ValueView> {
        if 0 <= index < self.items().len() {
            Some(self.items()[index])
        } else {
            None
        }
    }

    /// This value with one more field at the end.
    pub open spec fn with_field(self, key: Seq<char>, child: ValueView) -> ValueView {
        ValueView::Object(self.fields().push((key, child)))
    }

    /// This value with one more element at the end.
    pub open spec fn with_item(self, child: ValueView) -> ValueView {
        ValueView::Array(self.items().push(child))
    }

    /// Every object in the tree has pairwise distinct keys.
    pub open spec fn wf(self) -> bool
        decreases self,
    {
        match self {
            ValueView::Object(fields) => {
                &&& distinct_keys(fields)
                &&& forall|i: int| 0 <= i < fields.len() ==> (#[trigger] fields[i]).1.wf()
            },
            ValueView::Array(items) => forall|i: int|
                0 <= i < items.len() ==> (#[trigger] items[i]).wf(),
            _ => true,
        }
    }
}

/// The model of a value, defined along the tree.
pub open spec fn value_view(value: Value) -> ValueView
    decreases value,
{
    match value {
        Value::I8(n) => ValueView::I8(n),
        Value::I16(n) => ValueView::I16(n),
        Value::I32(n) => ValueView::I32(n),
        Value::I64(n) => ValueView::I64(n),
        Value::U8(n) => ValueView::U8(n),
        Value::U16(n) => ValueView::U16(n),
        Value::U32(n) => ValueView::U32(n),
        Value::U64(n) => ValueView::U64(n),
        Value::F32(bits) => ValueView::F32(bits),
        Value::F64(bits) => ValueView::F64(bits),
        Value::Str(s) => ValueView::Str(s@),
        Value::Bool(b) => ValueView::Bool(b),
        Value::Null => ValueView::Null,
        Value::Object(fields) => ValueView::Object(
            Seq::new(
                fields.len() as nat,
                |i: int|
                    if 0 <= i < fields.len() {
                        (fields[i].0@, value_view(fields[i].1))
                    } else {
                        (Seq::empty(), ValueView::Null)
                    },
            ),
        ),
        Value::Array(items) => ValueView::Array(
            Seq::new(
                items.len() as nat,
                |i: int|
                    if 0 <= i < items.len() {
                        value_view(items[i])
                    } else {
                        ValueView::Null
                    },
            ),
        ),
    }
}

impl View for Value {
    type V = ValueView;

    open spec fn view(&self) -> ValueView {
        value_view(*self)
    }
}

/// The model of an object's field list.
pub open spec fn fields_view(fields: Seq<(String, Value)>) -> Seq<(Seq<char>, ValueView)> {
    Seq::new(fields.len(), |i: int| (fields[i].0@, fields[i].1@))
}

/// The model of an array's element list.
pub open spec fn items_view(items: Seq<Value>) -> Seq<ValueView> {
    Seq::new(items.len(), |i: int| items[i]@)
}

/// An object's model is the model of its field list.
pub proof fn lemma_object_view(fields: Vec<(String, Value)>)
    ensures
        Value::Object(fields)@ == ValueView::Object(fields_view(fields@)),
{
    let model = Value::Object(fields)@.fields();
    let direct = fields_view(fields@);
    assert(direct.len() == fields.len());
    assert(model.len() == fields.len());
    assert forall|i: int| 0 <= i < model.len() implies model[i] == direct[i] by {
        assert(fields[i] == fields@[i]);
    }
    assert(model =~= direct);
}

/// An array's model is the model of its element list.
pub proof fn lemma_array_view(items: Vec<Value>)
    ensures
        Value::Array(items)@ == ValueView::Array(items_view(items@)),
{
    let model = Value::Array(items)@.items();
    let direct = items_view(items@);
    assert(direct.len() == items.len());
    assert(model.len() == items.len());
    assert forall|i: int| 0 <= i < model.len() implies model[i] == direct[i] by {
        assert(items[i] == items@[i]);
    }
    assert(model =~= direct);
}

/// An object stays well-formed when it gains a well-formed child under a key
/// that it does not have yet.
pub proof fn lemma_with_field_wf(object: ValueView, key: Seq<char>, child: ValueView)
    requires
        object.wf(),
        child.wf(),
        !object.has_key(key),
    ensures
        object.with_field(key, child).wf(),
{
    let before = object.fields();
    let grown = before.push((key, child));
    let len = before.len() as int;
    assert forall|i: int, j: int| 0 <= i < j < grown.len() implies #[trigger] grown[i].0
        != #[trigger] grown[j].0 by {
        if j < len {
            assert(before[i].0 != before[j].0);
        } else {
            assert(before[i].0 != key);
        }
    }
    assert forall|i: int| 0 <= i < grown.len() implies (#[trigger] grown[i]).1.wf() by {
        if i < len {
            assert(before[i].1.wf());
        }
    }
}

/// An array stays well-formed when it gains a well-formed element.
pub proof fn lemma_with_item_wf(array: ValueView, child: ValueView)
    requires
        array.wf(),
        child.wf(),
    ensures
        array.with_item(child).wf(),
{
    let before = array.items();
    let grown = before.push(child);
    let len = before.len() as int;
    assert forall|i: int| 0 <= i < grown.len() implies (#[trigger] grown[i]).wf() by {
        if i < len {
            assert(before[i].wf());
        }
    }
}

/// The position of the first field named `key`, if there is one.
pub fn find_field(fields: &Vec<(String, Value)>, key: &String) -> (at: Option<usize>)
    ensures
        match at {
            Some(i) => first_match(fields_view(fields@), key@, i as int),
            None => forall|j: int|
                0 <= j < fields.len() ==> (#[trigger] fields_view(fields@)[j]).0 != key@,
        },
{
    let mut i: usize = 0;
    while i < fields.len()
        invariant
            i <= fields.len(),
            forall|j: int| 0 <= j < i ==> (#[trigger] fields_view(fields@)[j]).0 != key@,
        decreases fields.len() - i,
    {
        if fields[i].0 == *key {
            return Some(i);
        }
        i += 1;
    }
    None
}

/// The model of a handle that may be absent.
pub open spec fn handle_view(handle: Option<&Value>) -> Option<ValueView> {
    match handle {
        Some(v) => Some(v@),
        None => None,
    }
}

/// The tag reported for a handle: the value's own tag, and `Null` for an
/// absent handle.
pub open spec fn handle_tag(handle: Option<ValueView>) -> GblnValueType {
    match handle {
        Some(v) => v.tag(),
        None => GblnValueType::Null,
    }
}

impl GblnValueType {
    /// The stable number of this tag.
    pub open spec fn spec_code(self) -> u32 {
        match self {
            GblnValueType::I8 => 0,
            GblnValueType::I16 => 1,
            GblnValueType::I32 => 2,
            GblnValueType::I64 => 3,
            GblnValueType::U8 => 4,
            GblnValueType::U16 => 5,
            GblnValueType::U32 => 6,
            GblnValueType::U64 => 7,
            GblnValueType::F32 => 8,
            GblnValueType::F64 => 9,
            GblnValueType::Str => 10,
            GblnValueType::Bool => 11,
            GblnValueType::Null => 12,
            GblnValueType::Object => 13,
            GblnValueType::Array => 14,
        }
    }

    /// The stable number of this tag.
    pub fn code(self) -> (c: u32)
        ensures
            c == self.spec_code(),
    {
        match self {
            GblnValueType::I8 => 0,
            GblnValueType::I16 => 1,
            GblnValueType::I32 => 2,
            GblnValueType::I64 => 3,
            GblnValueType::U8 => 4,
            GblnValueType::U16 => 5,
            GblnValueType::U32 => 6,
            GblnValueType::U64 => 7,
            GblnValueType::F32 => 8,
            GblnValueType::F64 => 9,
            GblnValueType::Str => 10,
            GblnValueType::Bool => 11,
            GblnValueType::Null => 12,
            GblnValueType::Object => 13,
            GblnValueType::Array => 14,
        }
    }
}

impl<'a> From<&'a Value> for GblnValueType {
    fn from(value: &'a Value) -> (tag: GblnValueType) {
        match value {
            Value::I8(_) => GblnValueType::I8,
            Value::I16(_) => GblnValueType::I16,
            Value::I32(_) => GblnValueType::I32,
            Value::I64(_) => GblnValueType::I64,
            Value::U8(_) => GblnValueType::U8,
            Value::U16(_) => GblnValueType::U16,
            Value::U32(_) => GblnValueType::U32,
            Value::U64(_) => GblnValueType::U64,
            Value::F32(_) => GblnValueType::F32,
            Value::F64(_) => GblnValueType::F64,
            Value::Str(_) => GblnValueType::Str,
            Value::Bool(_) => GblnValueType::Bool,
            Value::Null => GblnValueType::Null,
            Value::Object(_) => GblnValueType::Object,
            Value::Array(_) => GblnValueType::Array,
        }
    }
}

impl<'a> FromSpecImpl<&'a Value> for GblnValueType {
    open spec fn obeys_from_spec() -> bool {
        true
    }

    open spec fn from_spec(value: &'a Value) -> GblnValueType {
        value@.tag()
    }
}

/// An owned handle: the exclusive owner of one value tree.
#[derive(Debug, PartialEq)]
pub struct GblnValue {
    inner: Value,
}

impl GblnValue {
    /// The value that this handle owns.
    pub closed spec fn value(&self) -> Value {
        self.inner
    }

    /// Wraps a value in a handle.
    pub fn new(value: Value) -> (handle: GblnValue)
        ensures
            handle.value() == value,
    {
        GblnValue { inner: value }
    }

    /// Borrows the value that this handle owns.
    pub fn inner(&self) -> (value: &Value)
        ensures
            *value == self.value(),
    {
        &self.inner
    }

    /// Borrows the owned value for changing it in place.
    pub fn inner_mut(&mut self) -> (value: &mut Value)
        ensures
            *value == old(self).value(),
            final(self).value() == *final(value),
    {
        &mut self.inner
    }

    /// Gives up the handle and hands out the value it owned.
    pub fn into_inner(self) -> (value: Value)
        ensures
            value == self.value(),
    {
        self.inner
    }
}

impl View for GblnValue {
    type V = ValueView;

    open spec fn view(&self) -> ValueView {
        self.value()@
    }
}

} // verus!
