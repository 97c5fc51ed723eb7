//! Typed read-out of a value handle. Each accessor answers for exactly one
//! variant; for any other variant, and for an absent handle, it reports a
//! mismatch and returns that type's zero.

use crate::error::text_view;
use crate::text::{c_string_copy, c_text, holds_nul};
use crate::types::{handle_view, Value, ValueView};
use vstd::prelude::*;

verus! {

/// Writes `flag` through `ok`, where the caller supplied a place for it.
fn report(ok: Option<&mut bool>, flag: bool)
    ensures
        ok is Some ==> *final(ok->Some_0) == flag,
{
    match ok {
        Some(slot) => {
            *slot = flag;
        },
        None => {},
    }
}

/// What reading a handle as `i8` gives: the number and `true` for a handle
/// on that variant, zero and `false` otherwise.
pub open spec fn read_i8(handle: Option<ValueView>) -> (i8, bool) {
    match handle {
        Some(ValueView::I8(n)) => (n, true),
        _ => (0, false),
    }
}

/// Reads the `i8` that a handle holds.
pub fn gbln_value_as_i8(value: Option<&Value>, ok: Option<&mut bool>) -> (n: i8)
    ensures
        n == read_i8(handle_view(value)).0,
        ok is Some ==> *final(ok->Some_0) == read_i8(handle_view(value)).1,
{
    match value {
        Some(Value::I8(n)) => {
            report(ok, true);
            *n
        },
        _ => {
            report(ok, false);
            0
        },
    }
}

/// What reading a handle as `i16` gives: the number and `true` for a handle
/// on that variant, zero and `false` otherwise.
pub open spec fn read_i16(handle: Option<ValueView>) -> (i16, bool) {
    match handle {
        Some(ValueView::I16(n)) => (n, true),
        _ => (0, false),
    }
}

/// Reads the `i16` that a handle holds.
pub fn gbln_value_as_i16(value: Option<&Value>, ok: Option<&mut bool>) -> (n: i16)
    ensures
        n == read_i16(handle_view(value)).0,
        ok is Some ==> *final(ok->Some_0) == read_i16(handle_view(value)).1,
{
    match value {
        Some(Value::I16(n)) => {
            report(ok, true);
            *n
        },
        _ => {
            report(ok, false);
            0
        },
    }
}

/// What reading a handle as `i32` gives: the number and `true` for a handle
/// on that variant, zero and `false` otherwise.
pub open spec fn read_i32(handle: Option<ValueView>) -> (i32, bool) {
    match handle {
        Some(ValueView::I32(n)) => (n, true),
        _ => (0, false),
    }
}

/// Reads the `i32` that a handle holds.
pub fn gbln_value_as_i32(value: Option<&Value>, ok: Option<&mut bool>) -> (n: i32)
    ensures
        n == read_i32(handle_view(value)).0,
        ok is Some ==> *final(ok->Some_0) == read_i32(handle_view(value)).1,
{
    match value {
        Some(Value::I32(n)) => {
            report(ok, true);
            *n
        },
        _ => {
            report(ok, false);
            0
        },
    }
}

/// What reading a handle as `i64` gives: the number and `true` for a handle
/// on that variant, zero and `false` otherwise.
pub open spec fn read_i64(handle: Option<ValueView>) -> (i64, bool) {
    match handle {
        Some(ValueView::I64(n)) => (n, true),
        _ => (0, false),
    }
}

/// Reads the `i64` that a handle holds.
pub fn gbln_value_as_i64(value: Option<&Value>, ok: Option<&mut bool>) -> (n: i64)
    ensures
        n == read_i64(handle_view(value)).0,
        ok is Some ==> *final(ok->Some_0) == read_i64(handle_view(value)).1,
{
    match value {
        Some(Value::I64(n)) => {
            report(ok, true);
            *n
        },
        _ => {
            report(ok, false);
            0
        },
    }
}

/// What reading a handle as `u8` gives: the number and `true` for a handle
/// on that variant, zero and `false` otherwise.
pub open spec fn read_u8(handle: Option<ValueView>) -> (u8, bool) {
    match handle {
        Some(ValueView::U8(n)) => (n, true),
        _ => (0, false),
    }
}

/// Reads the `u8` that a handle holds.
pub fn gbln_value_as_u8(value: Option<&Value>, ok: Option<&mut bool>) -> (n: u8)
    ensures
        n == read_u8(handle_view(value)).0,
        ok is Some ==> *final(ok->Some_0) == read_u8(handle_view(value)).1,
{
    match value {
        Some(Value::U8(n)) => {
            report(ok, true);
            *n
        },
        _ => {
            report(ok, false);
            0
        },
    }
}

/// What reading a handle as `u16` gives: the number and `true` for a handle
/// on that variant, zero and `false` otherwise.
pub open spec fn read_u16(handle: Option<ValueView>) -> (u16, bool) {
    match handle {
        Some(ValueView::U16(n)) => (n, true),
        _ => (0, false),
    }
}

/// Reads the `u16` that a handle holds.
pub fn gbln_value_as_u16(value: Option<&Value>, ok: Option<&mut bool>) -> (n: u16)
    ensures
        n == read_u16(handle_view(value)).0,
        ok is Some ==> *final(ok->Some_0) == read_u16(handle_view(value)).1,
{
    match value {
        Some(Value::U16(n)) => {
            report(ok, true);
            *n
        },
        _ => {
            report(ok, false);
            0
        },
    }
}

/// What reading a handle as `u32` gives: the number and `true` for a handle
/// on that variant, zero and `false` otherwise.
pub open spec fn read_u32(handle: Option<ValueView>) -> (u32, bool) {
    match handle {
        Some(ValueView::U32(n)) => (n, true),
        _ => (0, false),
    }
}

/// Reads the `u32` that a handle holds.
pub fn gbln_value_as_u32(value: Option<&Value>, ok: Option<&mut bool>) -> (n: u32)
    ensures
        n == read_u32(handle_view(value)).0,
        ok is Some ==> *final(ok->Some_0) == read_u32(handle_view(value)).1,
{
    match value {
        Some(Value::U32(n)) => {
            report(ok, true);
            *n
        },
        _ => {
            report(ok, false);
            0
        },
    }
}

/// What reading a handle as `u64` gives: the number and `true` for a handle
/// on that variant, zero and `false` otherwise.
pub open spec fn read_u64(handle: Option<ValueView>) -> (u64, bool) {
    match handle {
        Some(ValueView::U64(n)) => (n, true),
        _ => (0, false),
    }
}

/// Reads the `u64` that a handle holds.
pub fn gbln_value_as_u64(value: Option<&Value>, ok: Option<&mut bool>) -> (n: u64)
    ensures
        n == read_u64(handle_view(value)).0,
        ok is Some ==> *final(ok->Some_0) == read_u64(handle_view(value)).1,
{
    match value {
        Some(Value::U64(n)) => {
            report(ok, true);
            *n
        },
        _ => {
            report(ok, false);
            0
        },
    }
}

/// What reading a handle as `f32` gives: the number and `true` for a handle
/// on that variant, zero and `false` otherwise.
pub open spec fn read_f32(handle: Option<ValueView>) -> (u32, bool) {
    match handle {
        Some(ValueView::F32(n)) => (n, true),
        _ => (0, false),
    }
}

/// Reads the bit pattern of the `f32` that a handle holds; the mismatch value is the pattern of positive zero.
pub fn gbln_value_as_f32(value: Option<&Value>, ok: Option<&mut bool>) -> (n: u32)
    ensures
        n == read_f32(handle_view(value)).0,
        ok is Some ==> *final(ok->Some_0) == read_f32(handle_view(value)).1,
{
    match value {
        Some(Value::F32(n)) => {
            report(ok, true);
            *n
        },
        _ => {
            report(ok, false);
            0
        },
    }
}

/// What reading a handle as `f64` gives: the number and `true` for a handle
/// on that variant, zero and `false` otherwise.
pub open spec fn read_f64(handle: Option<ValueView>) -> (u64, bool) {
    match handle {
        Some(ValueView::F64(n)) => (n, true),
        _ => (0, false),
    }
}

/// Reads the bit pattern of the `f64` that a handle holds; the mismatch value is the pattern of positive zero.
pub fn gbln_value_as_f64(value: Option<&Value>, ok: Option<&mut bool>) -> (n: u64)
    ensures
        n == read_f64(handle_view(value)).0,
        ok is Some ==> *final(ok->Some_0) == read_f64(handle_view(value)).1,
{
    match value {
        Some(Value::F64(n)) => {
            report(ok, true);
            *n
        },
        _ => {
            report(ok, false);
            0
        },
    }
}

/// What reading a handle as a string gives: the text and `true` for a handle
/// on a string that can cross as a C string, nothing and `false` otherwise.
pub open spec fn read_string(handle: Option<ValueView>) -> (Option<Seq<char>>, bool) {
    match handle {
        Some(ValueView::Str(s)) => (c_text(s), !holds_nul(s)),
        _ => (None, false),
    }
}

/// Reads the string that a handle holds, as a fresh copy.
pub fn gbln_value_as_string(value: Option<&Value>, ok: Option<&mut bool>) -> (text: Option<String>)
    ensures
        text_view(text) == read_string(handle_view(value)).0,
        ok is Some ==> *final(ok->Some_0) == read_string(handle_view(value)).1,
{
    match value {
        Some(Value::Str(s)) => {
            let copy = c_string_copy(s.as_str());
            report(ok, copy.is_some());
            copy
        },
        _ => {
            report(ok, false);
            None
        },
    }
}

/// What reading a handle as a boolean gives.
pub open spec fn read_bool(handle: Option<ValueView>) -> (bool, bool) {
    match handle {
        Some(ValueView::Bool(b)) => (b, true),
        _ => (false, false),
    }
}

/// Reads the boolean that a handle holds.
pub fn gbln_value_as_bool(value: Option<&Value>, ok: Option<&mut bool>) -> (b: bool)
    ensures
        b == read_bool(handle_view(value)).0,
        ok is Some ==> *final(ok->Some_0) == read_bool(handle_view(value)).1,
{
    match value {
        Some(Value::Bool(b)) => {
            report(ok, true);
            *b
        },
        _ => {
            report(ok, false);
            false
        },
    }
}

/// A handle counts as null when it is absent or holds the null value.
pub open spec fn reads_null(handle: Option<ValueView>) -> bool {
    match handle {
        Some(v) => v is Null,
        None => true,
    }
}

/// Whether the handle is absent or holds the null value.
pub fn gbln_value_is_null(value: Option<&Value>) -> (null: bool)
    ensures
        null == reads_null(handle_view(value)),
{
    match value {
        Some(Value::Null) => true,
        Some(_) => false,
        None => true,
    }
}

} // verus!
