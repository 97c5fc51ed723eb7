//! Looking into a value: its tag, the size of a container, the children of
//! an object or an array, and the keys of an object. Nothing here changes a
//! value or records a failure; absence is the answer to every question that
//! does not apply.

use crate::text::{bytes_view, c_string_copy, decode_text, holds_nul};
use crate::types::{
    fields_view, find_field, first_match, handle_tag, handle_view, lemma_array_view,
    lemma_object_view, GblnValueType, Value, ValueView,
};
use vstd::prelude::*;
use vstd::utf8::{decode_utf8, valid_utf8};

verus! {

/// The tag of the value behind a handle; `Null` for an absent handle.
pub fn gbln_value_type(value: Option<&Value>) -> (tag: GblnValueType)
    ensures
        tag == handle_tag(handle_view(value)),
{
    match value {
        Some(value) => GblnValueType::from(value),
        None => GblnValueType::Null,
    }
}

/// The number of fields behind a handle: zero unless it is an object.
pub open spec fn object_len(handle: Option<ValueView>) -> nat {
    match handle {
        Some(v) => v.fields().len(),
        None => 0,
    }
}

/// The number of fields of an object; zero for any other value and for an
/// absent handle.
pub fn gbln_object_len(value: Option<&Value>) -> (len: usize)
    ensures
        len == object_len(handle_view(value)),
{
    match value {
        Some(Value::Object(fields)) => {
            proof {
                lemma_object_view(*fields);
            }
            fields.len()
        },
        _ => 0,
    }
}

/// The number of elements behind a handle: zero unless it is an array.
pub open spec fn array_len(handle: Option<ValueView>) -> nat {
    match handle {
        Some(v) => v.items().len(),
        None => 0,
    }
}

/// The number of elements of an array; zero for any other value and for an
/// absent handle.
pub fn gbln_array_len(value: Option<&Value>) -> (len: usize)
    ensures
        len == array_len(handle_view(value)),
{
    match value {
        Some(Value::Array(items)) => {
            proof {
                lemma_array_view(*items);
            }
            items.len()
        },
        _ => 0,
    }
}

/// The element of an array at `index`, where there is one.
pub open spec fn array_get(handle: Option<ValueView>, index: int) -> Option<ValueView> {
    match handle {
        Some(v) => v.element(index),
        None => None,
    }
}

/// Borrows the element of an array at `index`. There is none for an index
/// past the end, for a value that is no array and for an absent handle.
pub fn gbln_array_get<'a>(value: Option<&'a Value>, index: usize) -> (child: Option<&'a Value>)
    ensures
        handle_view(child) == array_get(handle_view(value), index as int),
        child is Some ==> value->Some_0 is Array && *child->Some_0
            == value->Some_0->Array_0[index as int],
{
    match value {
        Some(Value::Array(items)) => {
            proof {
                lemma_array_view(*items);
            }
            if index < items.len() {
                Some(&items[index])
            } else {
                None
            }
        },
        _ => None,
    }
}

/// The child of an object under the key spelled by `key`, where there is one.
pub open spec fn object_get(handle: Option<ValueView>, key: Option<Seq<u8>>) -> Option<
    ValueView,
> {
    match (handle, key) {
        (Some(v), Some(k)) => if valid_utf8(k) {
            v.lookup(decode_utf8(k))
        } else {
            None
        },
        _ => None,
    }
}

/// At most one position is the first match of a key.
pub proof fn lemma_first_match_unique(
    fields: Seq<(Seq<char>, ValueView)>,
    key: Seq<char>,
    i: int,
    j: int,
)
    requires
        first_match(fields, key, i),
        first_match(fields, key, j),
    ensures
        i == j,
{
    if i < j {
        assert(fields[i].0 != key);
    } else if j < i {
        assert(fields[j].0 != key);
    }
}

/// Borrows the child of an object under `key`. There is none for a key that
/// the object lacks, for a key that is not UTF-8, for a value that is no
/// object and for an absent handle or key.
pub fn gbln_object_get<'a>(value: Option<&'a Value>, key: Option<&[u8]>) -> (child: Option<
    &'a Value,
>)
    ensures
        handle_view(child) == object_get(handle_view(value), bytes_view(key)),
        child is Some ==> value->Some_0 is Object && *child->Some_0
            == value->Some_0->Object_0[value->Some_0@.key_index(decode_utf8(key->Some_0@))].1,
{
    let fields = match value {
        Some(Value::Object(fields)) => fields,
        _ => {
            return None;
        },
    };
    let key_bytes = match key {
        Some(key_bytes) => key_bytes,
        None => {
            return None;
        },
    };
    let name = match decode_text(key_bytes) {
        Ok(name) => name,
        Err(_) => {
            return None;
        },
    };
    proof {
        lemma_object_view(*fields);
    }
    match find_field(fields, &name) {
        Some(at) => {
            proof {
                let model = value->Some_0@;
                assert(model.fields()[at as int].0 == name@);
                lemma_first_match_unique(
                    model.fields(),
                    name@,
                    at as int,
                    model.key_index(name@),
                );
            }
            Some(&fields[at].1)
        },
        None => None,
    }
}

/// The keys, in field order, that can cross as C strings: those without the
/// NUL character.
pub open spec fn portable_keys(fields: Seq<(Seq<char>, ValueView)>) -> Seq<Seq<char>>
    decreases fields.len(),
{
    if fields.len() == 0 {
        Seq::empty()
    } else {
        let before = portable_keys(fields.drop_last());
        if holds_nul(fields.last().0) {
            before
        } else {
            before.push(fields.last().0)
        }
    }
}

/// The characters of each text in a list.
pub open spec fn texts_view(texts: Seq<String>) -> Seq<Seq<char>> {
    Seq::new(texts.len(), |i: int| texts[i]@)
}

/// Lists fresh copies of an object's keys, in field order, and writes their
/// number through `out_count`.
///
/// With an absent handle or no place for the count, nothing is written and
/// nothing is listed. A value that is no object has no keys; a list of no
/// keys is not handed out.
pub fn gbln_object_keys(value: Option<&Value>, out_count: Option<&mut usize>) -> (keys: Option<
    Vec<String>,
>)
    ensures
        value is None || out_count is None ==> {
            &&& keys is None
            &&& out_count is Some ==> *final(out_count->Some_0) == *old(out_count->Some_0)
        },
        value is Some && out_count is Some ==> {
            let listed = portable_keys(value->Some_0@.fields());
            &&& *final(out_count->Some_0) == listed.len()
            &&& listed.len() == 0 ==> keys is None
            &&& listed.len() > 0 ==> keys is Some && texts_view(keys->Some_0@) == listed
        },
{
    let value = match value {
        Some(value) => value,
        None => {
            return None;
        },
    };
    let count_slot = match out_count {
        Some(count_slot) => count_slot,
        None => {
            return None;
        },
    };
    match value {
        Value::Object(fields) => {
            proof {
                lemma_object_view(*fields);
            }
            let ghost model = fields_view(fields@);
            let mut keys: Vec<String> = Vec::new();
            let mut i: usize = 0;
            assert(texts_view(keys@) =~= portable_keys(model.take(0)));
            while i < fields.len()
                invariant
                    i <= fields.len(),
                    model == fields_view(fields@),
                    texts_view(keys@) == portable_keys(model.take(i as int)),
                    keys.len() <= i,
                decreases fields.len() - i,
            {
                let ghost listed = texts_view(keys@);
                proof {
                    assert(model.take(i + 1).drop_last() =~= model.take(i as int));
                    assert(model.take(i + 1).last() == model[i as int]);
                }
                match c_string_copy(fields[i].0.as_str()) {
                    Some(copy) => {
                        keys.push(copy);
                        assert(texts_view(keys@) =~= listed.push(model[i as int].0));
                    },
                    None => {},
                }
                i += 1;
            }
            assert(model.take(i as int) =~= model);
            let count = keys.len();
            *count_slot = count;
            if count == 0 {
                None
            } else {
                Some(keys)
            }
        },
        _ => {
            *count_slot = 0;
            None
        },
    }
}

/// Releases a key list handed out by [`gbln_object_keys`]. An absent list and
/// a count of zero are accepted and nothing happens.
pub fn gbln_keys_free(keys: Option<Vec<String>>, count: usize) {
    let _ = keys;
    let _ = count;
}

} // verus!
