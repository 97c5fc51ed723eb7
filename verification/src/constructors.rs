//! Factories for owned handles, one per scalar variant and one for each of
//! the two empty containers, and the release of a handle.

use crate::error::{has_message, set_last_error, ErrorChannel, ErrorRecord};
use crate::text::{
    bytes_view, decode_text, labelled, too_long_hint, too_long_hint_text, too_long_message,
    too_long_text, utf8_error_text,
};
use crate::types::{
    fields_view, items_view, lemma_array_view, lemma_object_view, GblnValue, Value, ValueView,
};
use vstd::prelude::*;
use vstd::utf8::{decode_utf8, valid_utf8};

verus! {

/// A handle on the `i8` value `value`.
pub fn gbln_value_new_i8(value: i8) -> (handle: GblnValue)
    ensures
        handle@ == ValueView::I8(value),
        handle@.wf(),
{
    GblnValue::new(Value::I8(value))
}

/// A handle on the `i16` value `value`.
pub fn gbln_value_new_i16(value: i16) -> (handle: GblnValue)
    ensures
        handle@ == ValueView::I16(value),
        handle@.wf(),
{
    GblnValue::new(Value::I16(value))
}

/// A handle on the `i32` value `value`.
pub fn gbln_value_new_i32(value: i32) -> (handle: GblnValue)
    ensures
        handle@ == ValueView::I32(value),
        handle@.wf(),
{
    GblnValue::new(Value::I32(value))
}

/// A handle on the `i64` value `value`.
pub fn gbln_value_new_i64(value: i64) -> (handle: GblnValue)
    ensures
        handle@ == ValueView::I64(value),
        handle@.wf(),
{
    GblnValue::new(Value::I64(value))
}

/// A handle on the `u8` value `value`.
pub fn gbln_value_new_u8(value: u8) -> (handle: GblnValue)
    ensures
        handle@ == ValueView::U8(value),
        handle@.wf(),
{
    GblnValue::new(Value::U8(value))
}

/// A handle on the `u16` value `value`.
pub fn gbln_value_new_u16(value: u16) -> (handle: GblnValue)
    ensures
        handle@ == ValueView::U16(value),
        handle@.wf(),
{
    GblnValue::new(Value::U16(value))
}

/// A handle on the `u32` value `value`.
pub fn gbln_value_new_u32(value: u32) -> (handle: GblnValue)
    ensures
        handle@ == ValueView::U32(value),
        handle@.wf(),
{
    GblnValue::new(Value::U32(value))
}

/// A handle on the `u64` value `value`.
pub fn gbln_value_new_u64(value: u64) -> (handle: GblnValue)
    ensures
        handle@ == ValueView::U64(value),
        handle@.wf(),
{
    GblnValue::new(Value::U64(value))
}

/// A handle on the `f32` value with the bit pattern `bits`.
pub fn gbln_value_new_f32(bits: u32) -> (handle: GblnValue)
    ensures
        handle@ == ValueView::F32(bits),
        handle@.wf(),
{
    GblnValue::new(Value::F32(bits))
}

/// A handle on the `f64` value with the bit pattern `bits`.
pub fn gbln_value_new_f64(bits: u64) -> (handle: GblnValue)
    ensures
        handle@ == ValueView::F64(bits),
        handle@.wf(),
{
    GblnValue::new(Value::F64(bits))
}

/// What making a string value from caller bytes gives: the text, or the
/// record of the reason why there is none. An absent string, bytes that are
/// not UTF-8 and a text of more than `max_len` characters are refused, in
/// that order.
pub open spec fn new_str_outcome(bytes: Option<Seq<u8>>, max_len: nat) -> Result<
    Seq<char>,
    ErrorRecord,
> {
    match bytes {
        None => Err(
            ErrorRecord { message: "Null pointer for string value"@, suggestion: None },
        ),
        Some(b) => if !valid_utf8(b) {
            Err(
                ErrorRecord {
                    message: "Invalid UTF-8: "@ + utf8_error_text(b),
                    suggestion: None,
                },
            )
        } else if decode_utf8(b).len() > max_len {
            Err(
                ErrorRecord {
                    message: too_long_text(decode_utf8(b).len(), max_len),
                    suggestion: Some(too_long_hint_text(max_len)),
                },
            )
        } else {
            Ok(decode_utf8(b))
        },
    }
}

/// A handle on the string held in `value`, which may have at most `max_len`
/// characters. A refusal leaves its reason in the channel; success leaves
/// the channel as it was.
pub fn gbln_value_new_str(channel: &mut ErrorChannel, value: Option<&[u8]>, max_len: usize) -> (handle:
    Option<GblnValue>)
    ensures
        handle is None ==> has_message(final(channel)@),
        match new_str_outcome(bytes_view(value), max_len as nat) {
            Ok(text) => {
                &&& handle is Some
                &&& handle->Some_0@ == ValueView::Str(text)
                &&& handle->Some_0@.wf()
                &&& final(channel)@ == old(channel)@
            },
            Err(record) => {
                &&& handle is None
                &&& final(channel)@ == Some(record)
            },
        },
{
    proof {
        reveal_strlit("Null pointer for string value");
        reveal_strlit("Invalid UTF-8: ");
        reveal_strlit("String too long: ");
    }
    let bytes = match value {
        Some(bytes) => bytes,
        None => {
            set_last_error(channel, String::from_str("Null pointer for string value"), None);
            return None;
        },
    };
    let text = match decode_text(bytes) {
        Ok(text) => text,
        Err(defect) => {
            set_last_error(channel, labelled("Invalid UTF-8: ", defect.as_str()), None);
            return None;
        },
    };
    let char_count = text.as_str().unicode_len();
    if char_count > max_len {
        set_last_error(
            channel,
            too_long_message(char_count, max_len),
            Some(too_long_hint(max_len)),
        );
        return None;
    }
    Some(GblnValue::new(Value::Str(text)))
}

/// A handle on the boolean `value`.
pub fn gbln_value_new_bool(value: bool) -> (handle: GblnValue)
    ensures
        handle@ == ValueView::Bool(value),
        handle@.wf(),
{
    GblnValue::new(Value::Bool(value))
}

/// A handle on the null value.
pub fn gbln_value_new_null() -> (handle: GblnValue)
    ensures
        handle@ == ValueView::Null,
        handle@.wf(),
{
    GblnValue::new(Value::Null)
}

/// A handle on an object without fields.
pub fn gbln_value_new_object() -> (handle: GblnValue)
    ensures
        handle@ == ValueView::Object(Seq::empty()),
        handle@.wf(),
{
    let fields: Vec<(String, Value)> = Vec::new();
    proof {
        lemma_object_view(fields);
        assert(fields_view(fields@) =~= Seq::empty());
    }
    GblnValue::new(Value::Object(fields))
}

/// A handle on an array without elements.
pub fn gbln_value_new_array() -> (handle: GblnValue)
    ensures
        handle@ == ValueView::Array(Seq::empty()),
        handle@.wf(),
{
    let items: Vec<Value> = Vec::new();
    proof {
        lemma_array_view(items);
        assert(items_view(items@) =~= Seq::empty());
    }
    GblnValue::new(Value::Array(items))
}

/// Releases an owned handle and the whole tree below it. An absent handle is
/// accepted and nothing happens.
pub fn gbln_value_free(value: Option<GblnValue>) {
    let _ = value;
}

} // verus!
