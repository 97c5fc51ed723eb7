//! Obtaining a value from text. The grammar belongs to the engine, which the
//! caller hands in as a function; what is settled here is which requests
//! reach the engine and what becomes of its answer.

use crate::error::{
    kind_code, map_error_kind, set_last_error, EngineError, ErrorChannel, ErrorRecord,
    GblnErrorCode,
};
use crate::text::{bytes_view, decode_text, labelled, utf8_error_text};
use crate::types::{GblnValue, Value};
use vstd::prelude::*;
use vstd::utf8::{decode_utf8, valid_utf8};

verus! {

/// How the engine's answer to a request for a value shows at the boundary:
/// a value lands in the caller's slot as a fresh handle and leaves the
/// channel alone; a failure leaves the slot alone, fills the channel with
/// the engine's message and suggestion, and gives the code of its kind.
pub open spec fn delivered(
    outcome: Result<Value, EngineError>,
    code: GblnErrorCode,
    channel_before: Option<ErrorRecord>,
    channel_after: Option<ErrorRecord>,
    slot_before: Option<GblnValue>,
    slot_after: Option<GblnValue>,
) -> bool {
    match outcome {
        Ok(value) => {
            &&& code == GblnErrorCode::Success
            &&& slot_after is Some
            &&& slot_after->Some_0.value() == value
            &&& channel_after == channel_before
        },
        Err(failure) => {
            &&& code == kind_code(failure.kind)
            &&& channel_after == failure.record()
            &&& slot_after == slot_before
        },
    }
}

/// Hands the engine's answer on to the caller, as [`delivered`] says.
pub fn deliver_value(
    channel: &mut ErrorChannel,
    outcome: Result<Value, EngineError>,
    out_value: &mut Option<GblnValue>,
) -> (code: GblnErrorCode)
    ensures
        delivered(
            outcome,
            code,
            old(channel)@,
            final(channel)@,
            *old(out_value),
            *final(out_value),
        ),
        code != GblnErrorCode::Success ==> final(channel)@ is Some,
{
    match outcome {
        Ok(value) => {
            *out_value = Some(GblnValue::new(value));
            GblnErrorCode::Success
        },
        Err(failure) => {
            let code = map_error_kind(&failure.kind);
            set_last_error(channel, failure.message, failure.suggestion);
            code
        },
    }
}

/// Why a request to parse does not reach the engine: an absent input or no
/// place for the result, or an input that is not UTF-8. `None` where the
/// request goes through.
pub open spec fn parse_refusal(input: Option<Seq<u8>>, has_slot: bool) -> Option<ErrorRecord> {
    if input is None || !has_slot {
        Some(ErrorRecord { message: "Null pointer"@, suggestion: None })
    } else if !valid_utf8(input->Some_0) {
        Some(
            ErrorRecord {
                message: "Invalid UTF-8: "@ + utf8_error_text(input->Some_0),
                suggestion: None,
            },
        )
    } else {
        None
    }
}

/// Parses `input` with `engine` and stores the value through `out_value`.
///
/// A refused request gives the null-pointer code, records the reason and
/// leaves the slot as it was. Otherwise the engine is asked once, with the
/// decoded text, and its answer is handed on as [`delivered`] says.
pub fn gbln_parse<F: FnOnce(&str) -> Result<Value, EngineError>>(
    channel: &mut ErrorChannel,
    input: Option<&[u8]>,
    out_value: Option<&mut Option<GblnValue>>,
    engine: F,
) -> (code: GblnErrorCode)
    requires
        forall|text: &str| engine.requires((text,)),
    ensures
        code != GblnErrorCode::Success ==> final(channel)@ is Some,
        match parse_refusal(bytes_view(input), out_value is Some) {
            Some(record) => {
                &&& code == GblnErrorCode::ErrorNullPointer
                &&& final(channel)@ == Some(record)
                &&& out_value is Some ==> *final(out_value->Some_0) == *old(out_value->Some_0)
            },
            None => exists|text: &str, outcome: Result<Value, EngineError>|
                {
                    &&& text@ == decode_utf8(input->Some_0@)
                    &&& #[trigger] engine.ensures((text,), outcome)
                    &&& delivered(
                        outcome,
                        code,
                        old(channel)@,
                        final(channel)@,
                        *old(out_value->Some_0),
                        *final(out_value->Some_0),
                    )
                },
        },
{
    let bytes = match input {
        Some(bytes) => bytes,
        None => {
            set_last_error(channel, String::from_str("Null pointer"), None);
            return GblnErrorCode::ErrorNullPointer;
        },
    };
    let slot = match out_value {
        Some(slot) => slot,
        None => {
            set_last_error(channel, String::from_str("Null pointer"), None);
            return GblnErrorCode::ErrorNullPointer;
        },
    };
    let decoded = match decode_text(bytes) {
        Ok(decoded) => decoded,
        Err(defect) => {
            set_last_error(channel, labelled("Invalid UTF-8: ", defect.as_str()), None);
            return GblnErrorCode::ErrorNullPointer;
        },
    };
    let text = decoded.as_str();
    let outcome = engine(text);
    let ghost answer = outcome;
    let code = deliver_value(channel, outcome, slot);
    assert(engine.ensures((text,), answer));
    code
}

} // verus!
