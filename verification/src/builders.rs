//! Growing containers in place. A builder takes the child out of the
//! caller's handle slot on every path: the child is consumed whether or not
//! it ends up in the parent, so a caller never releases what it has passed.

use crate::error::{has_message, set_last_error, ErrorChannel, ErrorRecord, GblnErrorCode};
use crate::text::{bytes_view, decode_text, labelled, utf8_error_text};
use crate::types::{
    fields_view, find_field, items_view, lemma_array_view, lemma_object_view,
    lemma_with_field_wf, lemma_with_item_wf, GblnValue, Value, ValueView,
};
use vstd::prelude::*;
use vstd::utf8::{decode_utf8, valid_utf8};

verus! {

/// The model of an owned handle slot.
pub open spec fn slot_view(slot: Option<GblnValue>) -> Option<ValueView> {
    match slot {
        Some(handle) => Some(handle@),
        None => None,
    }
}

/// Why an insertion is refused, with the code and the record that it leaves;
/// `None` where the insertion goes through. The checks come in this order:
/// an absent input, a key that is not UTF-8, a parent that is no object, a
/// key that the object already has.
pub open spec fn insert_failure(
    object: Option<ValueView>,
    key: Option<Seq<u8>>,
    child: Option<ValueView>,
) -> Option<(GblnErrorCode, ErrorRecord)> {
    if object is None || key is None || child is None {
        Some(
            (
                GblnErrorCode::ErrorNullPointer,
                ErrorRecord { message: "Null pointer in object_insert"@, suggestion: None },
            ),
        )
    } else if !valid_utf8(key->Some_0) {
        Some(
            (
                GblnErrorCode::ErrorNullPointer,
                ErrorRecord {
                    message: "Invalid UTF-8 in key: "@ + utf8_error_text(key->Some_0),
                    suggestion: None,
                },
            ),
        )
    } else if !(object->Some_0 is Object) {
        Some(
            (
                GblnErrorCode::ErrorTypeMismatch,
                ErrorRecord {
                    message: "Value is not an object"@,
                    suggestion: Some("Use gbln_value_new_object() to create an object"@),
                },
            ),
        )
    } else if object->Some_0.has_key(decode_utf8(key->Some_0)) {
        Some(
            (
                GblnErrorCode::ErrorDuplicateKey,
                ErrorRecord {
                    message: "Duplicate key: "@ + decode_utf8(key->Some_0),
                    suggestion: Some("Use a different key name"@),
                },
            ),
        )
    } else {
        None
    }
}

/// Moves the child out of `value` into `object` under `key`.
///
/// The slot is empty afterwards, whatever the outcome. On success the object
/// has one more field, at the end. On failure the object is as it was, the
/// channel holds the reason, and the child is released.
pub fn gbln_object_insert(
    channel: &mut ErrorChannel,
    object: Option<&mut GblnValue>,
    key: Option<&[u8]>,
    value: &mut Option<GblnValue>,
) -> (code: GblnErrorCode)
    ensures
        *final(value) is None,
        code != GblnErrorCode::Success ==> has_message(final(channel)@),
        match insert_failure(
            if object is Some {
                Some(old(object->Some_0)@)
            } else {
                None
            },
            bytes_view(key),
            slot_view(*old(value)),
        ) {
            None => {
                &&& code == GblnErrorCode::Success
                &&& final(object->Some_0)@ == old(object->Some_0)@.with_field(
                    decode_utf8(key->Some_0@),
                    old(value)->Some_0@,
                )
                &&& final(channel)@ == old(channel)@
                &&& old(object->Some_0)@.wf() && old(value)->Some_0@.wf()
                    ==> final(object->Some_0)@.wf()
            },
            Some((failure, record)) => {
                &&& code == failure
                &&& final(channel)@ == Some(record)
                &&& object is Some ==> final(object->Some_0).value() == old(object->Some_0).value()
            },
        },
{
    proof {
        reveal_strlit("Null pointer in object_insert");
        reveal_strlit("Invalid UTF-8 in key: ");
        reveal_strlit("Duplicate key: ");
        reveal_strlit("Value is not an object");
    }
    let taken = value.take();
    let target = match object {
        Some(target) => target,
        None => {
            set_last_error(channel, String::from_str("Null pointer in object_insert"), None);
            return GblnErrorCode::ErrorNullPointer;
        },
    };
    let key_bytes = match key {
        Some(key_bytes) => key_bytes,
        None => {
            set_last_error(channel, String::from_str("Null pointer in object_insert"), None);
            return GblnErrorCode::ErrorNullPointer;
        },
    };
    let child = match taken {
        Some(handle) => handle.into_inner(),
        None => {
            set_last_error(channel, String::from_str("Null pointer in object_insert"), None);
            return GblnErrorCode::ErrorNullPointer;
        },
    };
    let name = match decode_text(key_bytes) {
        Ok(name) => name,
        Err(defect) => {
            set_last_error(channel, labelled("Invalid UTF-8 in key: ", defect.as_str()), None);
            return GblnErrorCode::ErrorNullPointer;
        },
    };
    match target.inner_mut() {
        Value::Object(fields) => {
            let ghost before = *fields;
            proof {
                lemma_object_view(before);
            }
            match find_field(fields, &name) {
                Some(at) => {
                    assert(fields_view(before@)[at as int].0 == name@);
                    set_last_error(
                        channel,
                        labelled("Duplicate key: ", name.as_str()),
                        Some(String::from_str("Use a different key name")),
                    );
                    GblnErrorCode::ErrorDuplicateKey
                },
                None => {
                    let ghost name_text = name@;
                    let ghost child_model = child@;
                    fields.push((name, child));
                    proof {
                        lemma_object_view(*fields);
                        assert(fields_view(fields@) =~= fields_view(before@).push(
                            (name_text, child_model),
                        ));
                        let parent = ValueView::Object(fields_view(before@));
                        if parent.wf() && child_model.wf() {
                            lemma_with_field_wf(parent, name_text, child_model);
                        }
                    }
                    GblnErrorCode::Success
                },
            }
        },
        _ => {
            set_last_error(
                channel,
                String::from_str("Value is not an object"),
                Some(String::from_str("Use gbln_value_new_object() to create an object")),
            );
            GblnErrorCode::ErrorTypeMismatch
        },
    }
}

/// Why a push is refused, with the code and the record that it leaves; `None`
/// where the push goes through.
pub open spec fn push_failure(array: Option<ValueView>, child: Option<ValueView>) -> Option<
    (GblnErrorCode, ErrorRecord),
> {
    if array is None || child is None {
        Some(
            (
                GblnErrorCode::ErrorNullPointer,
                ErrorRecord { message: "Null pointer in array_push"@, suggestion: None },
            ),
        )
    } else if !(array->Some_0 is Array) {
        Some(
            (
                GblnErrorCode::ErrorTypeMismatch,
                ErrorRecord {
                    message: "Value is not an array"@,
                    suggestion: Some("Use gbln_value_new_array() to create an array"@),
                },
            ),
        )
    } else {
        None
    }
}

/// Moves the child out of `value` to the end of `array`.
///
/// The slot is empty afterwards, whatever the outcome. On success the array
/// has one more element, at the end. On failure the array is as it was, the
/// channel holds the reason, and the child is released.
pub fn gbln_array_push(
    channel: &mut ErrorChannel,
    array: Option<&mut GblnValue>,
    value: &mut Option<GblnValue>,
) -> (code: GblnErrorCode)
    ensures
        *final(value) is None,
        code != GblnErrorCode::Success ==> has_message(final(channel)@),
        match push_failure(
            if array is Some {
                Some(old(array->Some_0)@)
            } else {
                None
            },
            slot_view(*old(value)),
        ) {
            None => {
                &&& code == GblnErrorCode::Success
                &&& final(array->Some_0)@ == old(array->Some_0)@.with_item(old(value)->Some_0@)
                &&& final(channel)@ == old(channel)@
                &&& old(array->Some_0)@.wf() && old(value)->Some_0@.wf()
                    ==> final(array->Some_0)@.wf()
            },
            Some((failure, record)) => {
                &&& code == failure
                &&& final(channel)@ == Some(record)
                &&& array is Some ==> final(array->Some_0).value() == old(array->Some_0).value()
            },
        },
{
    proof {
        reveal_strlit("Null pointer in array_push");
        reveal_strlit("Value is not an array");
    }
    let taken = value.take();
    let target = match array {
        Some(target) => target,
        None => {
            set_last_error(channel, String::from_str("Null pointer in array_push"), None);
            return GblnErrorCode::ErrorNullPointer;
        },
    };
    let child = match taken {
        Some(handle) => handle.into_inner(),
        None => {
            set_last_error(channel, String::from_str("Null pointer in array_push"), None);
            return GblnErrorCode::ErrorNullPointer;
        },
    };
    match target.inner_mut() {
        Value::Array(items) => {
            let ghost before = *items;
            let ghost child_model = child@;
            items.push(child);
            proof {
                lemma_array_view(before);
                lemma_array_view(*items);
                assert(items_view(items@) =~= items_view(before@).push(child_model));
                let parent = ValueView::Array(items_view(before@));
                if parent.wf() && child_model.wf() {
                    lemma_with_item_wf(parent, child_model);
                }
            }
            GblnErrorCode::Success
        },
        _ => {
            set_last_error(
                channel,
                String::from_str("Value is not an array"),
                Some(String::from_str("Use gbln_value_new_array() to create an array")),
            );
            GblnErrorCode::ErrorTypeMismatch
        },
    }
}

} // verus!
