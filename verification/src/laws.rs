//! Laws that hold across the operations of this library, stated over the
//! models that the operations' own contracts use.

use crate::accessors::{
    read_bool, read_f32, read_f64, read_i16, read_i32, read_i64, read_i8, read_string, read_u16,
    read_u32, read_u64, read_u8, reads_null,
};
use crate::builders::{insert_failure, push_failure};
use crate::constructors::new_str_outcome;
use crate::containers::{array_get, array_len, lemma_first_match_unique, object_get, object_len};
use crate::error::{
    lemma_kind_code_range, message_only, EngineError, ErrorRecord, GblnErrorCode,
};
use crate::io::{read_refusal, write_refusal, written};
use crate::parse::{delivered, parse_refusal};
use crate::serialize::{last_message, last_suggestion, rendered_as};
use crate::text::{
    c_text, decimal, holds_nul, lemma_c_string_text_portable, lemma_decimal_digits,
    utf8_error_text,
};
use crate::types::{
    first_match, handle_tag, lemma_with_field_wf, lemma_with_item_wf, GblnValue, GblnValueType,
    Value, ValueView,
};
use vstd::prelude::*;
use vstd::utf8::{decode_utf8, valid_utf8};

verus! {

/// Reading an integer handle as the variant it was made with gives the
/// number back and reports a match.
pub proof fn lemma_read_back_integers(
    a: i8,
    b: i16,
    c: i32,
    d: i64,
    e: u8,
    f: u16,
    g: u32,
    h: u64,
)
    ensures
        read_i8(Some(ValueView::I8(a))) == (a, true),
        read_i16(Some(ValueView::I16(b))) == (b, true),
        read_i32(Some(ValueView::I32(c))) == (c, true),
        read_i64(Some(ValueView::I64(d))) == (d, true),
        read_u8(Some(ValueView::U8(e))) == (e, true),
        read_u16(Some(ValueView::U16(f))) == (f, true),
        read_u32(Some(ValueView::U32(g))) == (g, true),
        read_u64(Some(ValueView::U64(h))) == (h, true),
{
}

/// Reading a float or boolean handle as the variant it was made with gives
/// the value back, bit for bit, and reports a match.
pub proof fn lemma_read_back_floats_and_bool(single: u32, double: u64, flag: bool)
    ensures
        read_f32(Some(ValueView::F32(single))) == (single, true),
        read_f64(Some(ValueView::F64(double))) == (double, true),
        read_bool(Some(ValueView::Bool(flag))) == (flag, true),
{
}

/// Reading a string handle gives the text back and reports a match, for
/// every text that a C string can carry.
pub proof fn lemma_read_back_string(text: Seq<char>)
    requires
        !holds_nul(text),
    ensures
        read_string(Some(ValueView::Str(text))) == (Some(text), true),
{
}

/// Reading a handle as any variant other than its own reports a mismatch and
/// gives that variant's zero; for the string form, no text.
pub proof fn lemma_mismatch_reads_zero(value: ValueView)
    ensures
        !(value is I8) ==> read_i8(Some(value)) == (0i8, false),
        !(value is I16) ==> read_i16(Some(value)) == (0i16, false),
        !(value is I32) ==> read_i32(Some(value)) == (0i32, false),
        !(value is I64) ==> read_i64(Some(value)) == (0i64, false),
        !(value is U8) ==> read_u8(Some(value)) == (0u8, false),
        !(value is U16) ==> read_u16(Some(value)) == (0u16, false),
        !(value is U32) ==> read_u32(Some(value)) == (0u32, false),
        !(value is U64) ==> read_u64(Some(value)) == (0u64, false),
        !(value is F32) ==> read_f32(Some(value)) == (0u32, false),
        !(value is F64) ==> read_f64(Some(value)) == (0u64, false),
        !(value is Bool) ==> read_bool(Some(value)) == (false, false),
        !(value is Str) ==> read_string(Some(value)) == (None::<Seq<char>>, false),
{
}

/// An absent handle reads as the documented default everywhere: zero,
/// `false`, no text, no child, a count of zero, the `Null` tag.
pub proof fn lemma_absent_handle_defaults(key: Option<Seq<u8>>, index: int)
    ensures
        read_i8(None) == (0i8, false),
        read_i16(None) == (0i16, false),
        read_i32(None) == (0i32, false),
        read_i64(None) == (0i64, false),
        read_u8(None) == (0u8, false),
        read_u16(None) == (0u16, false),
        read_u32(None) == (0u32, false),
        read_u64(None) == (0u64, false),
        read_f32(None) == (0u32, false),
        read_f64(None) == (0u64, false),
        read_bool(None) == (false, false),
        read_string(None) == (None::<Seq<char>>, false),
        reads_null(None),
        handle_tag(None) == GblnValueType::Null,
        object_len(None) == 0,
        array_len(None) == 0,
        object_get(None, key) is None,
        array_get(None, index) is None,
{
}

/// A field just inserted is found under its key, with the tag and the
/// content of the child that went in.
pub proof fn lemma_inserted_field_is_found(object: ValueView, key: Seq<char>, child: ValueView)
    requires
        !object.has_key(key),
    ensures
        object.with_field(key, child).lookup(key) == Some(child),
        handle_tag(object.with_field(key, child).lookup(key)) == child.tag(),
{
    let grown = object.with_field(key, child);
    let at = object.fields().len() as int;
    assert(grown.fields()[at].0 == key);
    assert forall|j: int| 0 <= j < at implies (#[trigger] grown.fields()[j]).0 != key by {
        assert(object.fields()[j].0 != key);
    }
    assert(first_match(grown.fields(), key, at));
    lemma_first_match_unique(grown.fields(), key, at, grown.key_index(key));
}

/// Inserting a field leaves what is found under every other key as it was.
pub proof fn lemma_insert_keeps_other_fields(
    object: ValueView,
    key: Seq<char>,
    child: ValueView,
    other: Seq<char>,
)
    requires
        other != key,
    ensures
        object.with_field(key, child).lookup(other) == object.lookup(other),
{
    let grown = object.with_field(key, child);
    let len = object.fields().len() as int;
    if object.has_key(other) {
        let at = object.key_index(other);
        let i = choose|i: int| 0 <= i < len && (#[trigger] object.fields()[i]).0 == other;
        lemma_first_match_exists(object.fields(), other, i);
        assert(grown.fields()[at] == object.fields()[at]);
        assert forall|j: int| 0 <= j < at implies (#[trigger] grown.fields()[j]).0 != other by {
            assert(object.fields()[j].0 != other);
        }
        assert(first_match(grown.fields(), other, at));
        lemma_first_match_unique(grown.fields(), other, at, grown.key_index(other));
    } else {
        if grown.has_key(other) {
            let i = choose|i: int|
                0 <= i < grown.fields().len() && (#[trigger] grown.fields()[i]).0 == other;
            if i < len {
                assert(object.fields()[i].0 == other);
            }
        }
    }
}

/// Where a key occurs at all, it has a first occurrence.
pub proof fn lemma_first_match_exists(
    fields: Seq<(Seq<char>, ValueView)>,
    key: Seq<char>,
    at: int,
)
    requires
        0 <= at < fields.len(),
        fields[at].0 == key,
    ensures
        exists|i: int| first_match(fields, key, i),
    decreases at,
{
    if forall|j: int| 0 <= j < at ==> (#[trigger] fields[j]).0 != key {
        assert(first_match(fields, key, at));
    } else {
        let j = choose|j: int| 0 <= j < at && (#[trigger] fields[j]).0 == key;
        lemma_first_match_exists(fields, key, j);
    }
}

/// An element just pushed is the last one, with the tag and the content of
/// the child that went in, and the elements before it are as they were.
pub proof fn lemma_pushed_item_is_last(array: ValueView, child: ValueView, index: int)
    ensures
        array.with_item(child).items().len() == array.items().len() + 1,
        array.with_item(child).element(array.items().len() as int) == Some(child),
        index != array.items().len() ==> array.with_item(child).element(index) == array.element(
            index,
        ),
{
}

/// The object that an insertion attempt leaves: one field longer where the
/// attempt is accepted, unchanged where it is refused.
pub open spec fn after_insert(
    object: ValueView,
    key: Option<Seq<u8>>,
    child: Option<ValueView>,
) -> ValueView {
    if insert_failure(Some(object), key, child) is None {
        object.with_field(decode_utf8(key->Some_0), child->Some_0)
    } else {
        object
    }
}

/// The object that a run of insertion attempts leaves.
pub open spec fn after_inserts(
    object: ValueView,
    attempts: Seq<(Option<Seq<u8>>, Option<ValueView>)>,
) -> ValueView
    decreases attempts.len(),
{
    if attempts.len() == 0 {
        object
    } else {
        after_insert(
            after_inserts(object, attempts.drop_last()),
            attempts.last().0,
            attempts.last().1,
        )
    }
}

/// How many attempts of a run of insertions are accepted.
pub open spec fn accepted_inserts(
    object: ValueView,
    attempts: Seq<(Option<Seq<u8>>, Option<ValueView>)>,
) -> nat
    decreases attempts.len(),
{
    if attempts.len() == 0 {
        0
    } else {
        let before = after_inserts(object, attempts.drop_last());
        let accepted: nat = if insert_failure(
            Some(before),
            attempts.last().0,
            attempts.last().1,
        ) is None {
            1
        } else {
            0
        };
        accepted_inserts(object, attempts.drop_last()) + accepted
    }
}

/// The length of an object grows by exactly the number of accepted
/// insertions; from an empty object, it equals that number.
pub proof fn lemma_object_len_counts_inserts(
    object: ValueView,
    attempts: Seq<(Option<Seq<u8>>, Option<ValueView>)>,
)
    ensures
        object_len(Some(after_inserts(object, attempts))) == object_len(Some(object))
            + accepted_inserts(object, attempts),
        object == ValueView::Object(Seq::empty()) ==> object_len(
            Some(after_inserts(object, attempts)),
        ) == accepted_inserts(object, attempts),
    decreases attempts.len(),
{
    if attempts.len() > 0 {
        lemma_object_len_counts_inserts(object, attempts.drop_last());
    }
}

/// The array that a push attempt leaves: one element longer where the
/// attempt is accepted, unchanged where it is refused.
pub open spec fn after_push(array: ValueView, child: Option<ValueView>) -> ValueView {
    if push_failure(Some(array), child) is None {
        array.with_item(child->Some_0)
    } else {
        array
    }
}

/// The array that a run of push attempts leaves.
pub open spec fn after_pushes(array: ValueView, attempts: Seq<Option<ValueView>>) -> ValueView
    decreases attempts.len(),
{
    if attempts.len() == 0 {
        array
    } else {
        after_push(after_pushes(array, attempts.drop_last()), attempts.last())
    }
}

/// How many attempts of a run of pushes are accepted.
pub open spec fn accepted_pushes(array: ValueView, attempts: Seq<Option<ValueView>>) -> nat
    decreases attempts.len(),
{
    if attempts.len() == 0 {
        0
    } else {
        let before = after_pushes(array, attempts.drop_last());
        let accepted: nat = if push_failure(Some(before), attempts.last()) is None {
            1
        } else {
            0
        };
        accepted_pushes(array, attempts.drop_last()) + accepted
    }
}

/// The length of an array grows by exactly the number of accepted pushes;
/// from an empty array, it equals that number.
pub proof fn lemma_array_len_counts_pushes(array: ValueView, attempts: Seq<Option<ValueView>>)
    ensures
        array_len(Some(after_pushes(array, attempts))) == array_len(Some(array))
            + accepted_pushes(array, attempts),
        array == ValueView::Array(Seq::empty()) ==> array_len(
            Some(after_pushes(array, attempts)),
        ) == accepted_pushes(array, attempts),
    decreases attempts.len(),
{
    if attempts.len() > 0 {
        lemma_array_len_counts_pushes(array, attempts.drop_last());
    }
}

/// An insertion under a key that the object already has is refused with the
/// duplicate-key code, and the object that the attempt leaves is the object
/// as it was.
pub proof fn lemma_duplicate_key_refused(object: ValueView, key: Seq<u8>, child: ValueView)
    requires
        object is Object,
        valid_utf8(key),
        object.has_key(decode_utf8(key)),
    ensures
        insert_failure(Some(object), Some(key), Some(child)) is Some,
        insert_failure(Some(object), Some(key), Some(child))->Some_0.0
            == GblnErrorCode::ErrorDuplicateKey,
        after_insert(object, Some(key), Some(child)) == object,
{
}

/// Accepted insertions keep the keys of every object in the tree distinct.
pub proof fn lemma_insert_keeps_wf(
    object: ValueView,
    key: Option<Seq<u8>>,
    child: Option<ValueView>,
)
    requires
        object.wf(),
        child is Some ==> child->Some_0.wf(),
    ensures
        after_insert(object, key, child).wf(),
{
    if insert_failure(Some(object), key, child) is None {
        lemma_with_field_wf(object, decode_utf8(key->Some_0), child->Some_0);
    }
}

/// Accepted pushes keep the keys of every object in the tree distinct.
pub proof fn lemma_push_keeps_wf(array: ValueView, child: Option<ValueView>)
    requires
        array.wf(),
        child is Some ==> child->Some_0.wf(),
    ensures
        after_push(array, child).wf(),
{
    if push_failure(Some(array), child) is None {
        lemma_with_item_wf(array, child->Some_0);
    }
}

/// A record can be retrieved in full when its message is not empty and can
/// cross as a C string.
pub open spec fn reportable(record: ErrorRecord) -> bool {
    record.message.len() > 0 && !holds_nul(record.message)
}

/// After a failure with a reportable record, the message handed out is that
/// record's message, present and not empty, for as long as the channel holds
/// the record. The suggestion handed out is the record's, where it has one
/// that can cross.
pub proof fn lemma_reportable_is_reported(record: ErrorRecord)
    requires
        reportable(record),
    ensures
        last_message(Some(record)) == Some(record.message),
        last_message(Some(record))->Some_0.len() > 0,
        record.suggestion is Some && !holds_nul(record.suggestion->Some_0) ==> last_suggestion(
            Some(record),
        ) == record.suggestion,
        record.suggestion is None ==> last_suggestion(Some(record)) is None,
{
}

/// Joining two texts brings in no NUL character that neither of them has.
pub proof fn lemma_joined_holds_nul(head: Seq<char>, tail: Seq<char>)
    ensures
        holds_nul(head + tail) <==> holds_nul(head) || holds_nul(tail),
{
    let joined = head + tail;
    if holds_nul(joined) {
        let i = choose|i: int| 0 <= i < joined.len() && joined[i] == '\0';
        if i < head.len() {
            assert(head[i] == '\0');
        } else {
            assert(tail[i - head.len()] == '\0');
        }
    }
    if holds_nul(head) {
        let i = choose|i: int| 0 <= i < head.len() && head[i] == '\0';
        assert(joined[i] == '\0');
    }
    if holds_nul(tail) {
        let i = choose|i: int| 0 <= i < tail.len() && tail[i] == '\0';
        assert(joined[head.len() + i] == '\0');
    }
}

/// A decimal numeral holds no NUL character.
pub proof fn lemma_decimal_portable(n: nat)
    ensures
        !holds_nul(decimal(n)),
{
    lemma_decimal_digits(n);
}

/// The bytes can have come from a C string, and where they are malformed,
/// the description of their defect can cross as a C string too.
pub open spec fn c_string_content(bytes: Option<Seq<u8>>) -> bool {
    bytes is Some ==> {
        &&& !bytes->Some_0.contains(0u8)
        &&& !valid_utf8(bytes->Some_0) ==> !holds_nul(utf8_error_text(bytes->Some_0))
    }
}

/// Every refusal that this library words itself leaves a message that is
/// not empty, whatever the inputs.
pub proof fn lemma_refusals_have_messages(
    object: Option<ValueView>,
    key: Option<Seq<u8>>,
    child: Option<ValueView>,
    max_len: nat,
    has_slot: bool,
    has_value: bool,
)
    ensures
        insert_failure(object, key, child) is Some ==> insert_failure(
            object,
            key,
            child,
        )->Some_0.1.message.len() > 0,
        push_failure(object, child) is Some ==> push_failure(object, child)->Some_0.1.message.len()
            > 0,
        new_str_outcome(key, max_len) is Err ==> new_str_outcome(key, max_len)->Err_0.message.len()
            > 0,
        parse_refusal(key, has_slot) is Some ==> parse_refusal(key, has_slot)->Some_0.message.len()
            > 0,
        read_refusal(key, has_slot) is Some ==> read_refusal(key, has_slot)->Some_0.1.message.len()
            > 0,
        write_refusal(has_value, key) is Some ==> write_refusal(
            has_value,
            key,
        )->Some_0.1.message.len() > 0,
        "Failed to create C string"@.len() > 0,
{
    reveal_strlit("Null pointer in object_insert");
    reveal_strlit("Invalid UTF-8 in key: ");
    reveal_strlit("Value is not an object");
    reveal_strlit("Duplicate key: ");
    reveal_strlit("Null pointer in array_push");
    reveal_strlit("Value is not an array");
    reveal_strlit("Null pointer for string value");
    reveal_strlit("Invalid UTF-8: ");
    reveal_strlit("String too long: ");
    reveal_strlit("Null pointer");
    reveal_strlit("Invalid UTF-8 in path: ");
    reveal_strlit("Null value pointer");
    reveal_strlit("Null path pointer");
    reveal_strlit("Failed to create C string");
}

/// A refusal of a builder, for a key that can have come from a C string,
/// leaves a record whose message is handed out in full, and whose suggestion
/// can cross as well.
pub proof fn lemma_builder_refusals_reportable(
    object: Option<ValueView>,
    array: Option<ValueView>,
    key: Option<Seq<u8>>,
    child: Option<ValueView>,
)
    requires
        c_string_content(key),
    ensures
        insert_failure(object, key, child) is Some ==> {
            let record = insert_failure(object, key, child)->Some_0.1;
            &&& reportable(record)
            &&& last_message(Some(record)) == Some(record.message)
            &&& last_suggestion(Some(record)) == record.suggestion
        },
        push_failure(array, child) is Some ==> {
            let record = push_failure(array, child)->Some_0.1;
            &&& reportable(record)
            &&& last_message(Some(record)) == Some(record.message)
            &&& last_suggestion(Some(record)) == record.suggestion
        },
{
    reveal_strlit("Null pointer in object_insert");
    reveal_strlit("Invalid UTF-8 in key: ");
    reveal_strlit("Value is not an object");
    reveal_strlit("Use gbln_value_new_object() to create an object");
    reveal_strlit("Duplicate key: ");
    reveal_strlit("Use a different key name");
    reveal_strlit("Null pointer in array_push");
    reveal_strlit("Value is not an array");
    reveal_strlit("Use gbln_value_new_array() to create an array");
    if key is Some {
        let bytes = key->Some_0;
        lemma_joined_holds_nul("Invalid UTF-8 in key: "@, utf8_error_text(bytes));
        lemma_joined_holds_nul("Duplicate key: "@, decode_utf8(bytes));
        if valid_utf8(bytes) {
            lemma_c_string_text_portable(bytes);
        }
    }
}

/// A refusal to make a string, for bytes that can have come from a C string,
/// leaves a record whose message is handed out in full, and whose suggestion
/// can cross as well.
pub proof fn lemma_new_str_refusals_reportable(bytes: Option<Seq<u8>>, max_len: nat)
    requires
        c_string_content(bytes),
    ensures
        new_str_outcome(bytes, max_len) is Err ==> {
            let record = new_str_outcome(bytes, max_len)->Err_0;
            &&& reportable(record)
            &&& last_message(Some(record)) == Some(record.message)
            &&& last_suggestion(Some(record)) == record.suggestion
        },
{
    reveal_strlit("Null pointer for string value");
    reveal_strlit("Invalid UTF-8: ");
    reveal_strlit("String too long: ");
    reveal_strlit(" chars (max: ");
    reveal_strlit(")");
    reveal_strlit("Use a larger string type (s");
    reveal_strlit(" or larger)");
    if bytes is Some {
        let b = bytes->Some_0;
        lemma_joined_holds_nul("Invalid UTF-8: "@, utf8_error_text(b));
        let count = decode_utf8(b).len();
        lemma_decimal_portable(count);
        lemma_decimal_portable(max_len);
        lemma_decimal_portable(2 * max_len);
        lemma_joined_holds_nul("String too long: "@, decimal(count));
        lemma_joined_holds_nul("String too long: "@ + decimal(count), " chars (max: "@);
        lemma_joined_holds_nul(
            "String too long: "@ + decimal(count) + " chars (max: "@,
            decimal(max_len),
        );
        lemma_joined_holds_nul(
            "String too long: "@ + decimal(count) + " chars (max: "@ + decimal(max_len),
            ")"@,
        );
        lemma_joined_holds_nul("Use a larger string type (s"@, decimal(2 * max_len));
        lemma_joined_holds_nul(
            "Use a larger string type (s"@ + decimal(2 * max_len),
            " or larger)"@,
        );
    }
}

/// A request that is refused before it reaches the engine, for bytes that
/// can have come from a C string, leaves a record whose message is handed
/// out in full.
pub proof fn lemma_request_refusals_reportable(
    bytes: Option<Seq<u8>>,
    has_slot: bool,
    has_value: bool,
)
    requires
        c_string_content(bytes),
    ensures
        parse_refusal(bytes, has_slot) is Some ==> {
            let record = parse_refusal(bytes, has_slot)->Some_0;
            reportable(record) && last_message(Some(record)) == Some(record.message)
        },
        read_refusal(bytes, has_slot) is Some ==> {
            let record = read_refusal(bytes, has_slot)->Some_0.1;
            reportable(record) && last_message(Some(record)) == Some(record.message)
        },
        write_refusal(has_value, bytes) is Some ==> {
            let record = write_refusal(has_value, bytes)->Some_0.1;
            reportable(record) && last_message(Some(record)) == Some(record.message)
        },
{
    reveal_strlit("Null pointer");
    reveal_strlit("Invalid UTF-8: ");
    reveal_strlit("Invalid UTF-8 in path: ");
    reveal_strlit("Null value pointer");
    reveal_strlit("Null path pointer");
    if bytes is Some {
        lemma_joined_holds_nul("Invalid UTF-8: "@, utf8_error_text(bytes->Some_0));
        lemma_joined_holds_nul("Invalid UTF-8 in path: "@, utf8_error_text(bytes->Some_0));
    }
}

/// A rendering that is not handed out, for an absent handle or for a NUL
/// character in it, leaves a record whose message is handed out in full.
pub proof fn lemma_rendering_refusals_reportable(
    rendering: Seq<char>,
    text: Option<Seq<char>>,
    before: Option<ErrorRecord>,
    after: Option<ErrorRecord>,
)
    ensures
        last_message(message_only("Null pointer"@)) == Some("Null pointer"@),
        "Null pointer"@.len() > 0,
        rendered_as(rendering, text, before, after) && text is None ==> {
            &&& after is Some
            &&& reportable(after->Some_0)
            &&& last_message(after) == Some("Failed to create C string"@)
        },
{
    reveal_strlit("Null pointer");
    reveal_strlit("Failed to create C string");
}

/// A failure of the engine shows with a code other than success and leaves
/// the engine's own message in the channel, which is handed out in full
/// where the engine's text is not empty and can cross as a C string.
pub proof fn lemma_engine_failures_reported(
    failure: EngineError,
    code: GblnErrorCode,
    before: Option<ErrorRecord>,
    after: Option<ErrorRecord>,
    slot_before: Option<GblnValue>,
    slot_after: Option<GblnValue>,
)
    ensures
        delivered(Err(failure), code, before, after, slot_before, slot_after) ==> {
            &&& code != GblnErrorCode::Success
            &&& after is Some
            &&& last_message(after) == c_text(failure.message@)
        },
        written(Err(failure), code, before, after) ==> {
            &&& code != GblnErrorCode::Success
            &&& after is Some
            &&& last_message(after) == c_text(failure.message@)
        },
        failure.message@.len() > 0 && !holds_nul(failure.message@) ==> reportable(
            failure.record()->Some_0,
        ),
{
    lemma_kind_code_range(failure.kind);
}

/// What goes through leaves the channel as it was, so the last failure's
/// message stays available until the next failure.
pub proof fn lemma_success_keeps_last_message(
    value: Value,
    code: GblnErrorCode,
    before: Option<ErrorRecord>,
    after: Option<ErrorRecord>,
    slot_before: Option<GblnValue>,
    slot_after: Option<GblnValue>,
    rendering: Seq<char>,
    text: Option<Seq<char>>,
)
    ensures
        delivered(Ok(value), code, before, after, slot_before, slot_after) ==> last_message(after)
            == last_message(before),
        written(Ok(()), code, before, after) ==> last_message(after) == last_message(before),
        rendered_as(rendering, text, before, after) && text is Some ==> last_message(after)
            == last_message(before),
{
}

} // verus!
