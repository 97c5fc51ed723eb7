//! Writing a value to a file and reading one back. The file work belongs to
//! the engine, which the caller hands in as a function; what is settled here
//! is which requests reach the engine, with which configuration, and what
//! becomes of its answer.

use crate::config::GblnConfig;
use crate::error::{set_last_error, EngineError, ErrorChannel, ErrorRecord, GblnErrorCode};
use crate::parse::{deliver_value, delivered};
use crate::text::{bytes_view, decode_text, labelled, utf8_error_text};
use crate::types::{GblnValue, Value};
use vstd::prelude::*;
use vstd::utf8::{decode_utf8, valid_utf8};

verus! {

/// Why a request to write does not reach the engine, with the code and the
/// record that it leaves: an absent value, an absent path, a path that is
/// not UTF-8. `None` where the request goes through.
pub open spec fn write_refusal(has_value: bool, path: Option<Seq<u8>>) -> Option<
    (GblnErrorCode, ErrorRecord),
> {
    if !has_value {
        Some(
            (
                GblnErrorCode::ErrorNullPointer,
                ErrorRecord { message: "Null value pointer"@, suggestion: None },
            ),
        )
    } else if path is None {
        Some(
            (
                GblnErrorCode::ErrorNullPointer,
                ErrorRecord { message: "Null path pointer"@, suggestion: None },
            ),
        )
    } else if !valid_utf8(path->Some_0) {
        Some(
            (
                GblnErrorCode::ErrorIo,
                ErrorRecord {
                    message: "Invalid UTF-8 in path: "@ + utf8_error_text(path->Some_0),
                    suggestion: None,
                },
            ),
        )
    } else {
        None
    }
}

/// The configuration that a write goes by: the caller's, or the I/O preset
/// where the caller gave none.
pub open spec fn effective_config(config: Option<&GblnConfig>) -> GblnConfig {
    match config {
        Some(c) => *c,
        None => GblnConfig::io_preset(),
    }
}

/// How the engine's answer to a write shows at the boundary: success leaves
/// the channel alone; any failure gives the I/O code and fills the channel
/// with the engine's message and suggestion.
pub open spec fn written(
    outcome: Result<(), EngineError>,
    code: GblnErrorCode,
    channel_before: Option<ErrorRecord>,
    channel_after: Option<ErrorRecord>,
) -> bool {
    match outcome {
        Ok(_) => code == GblnErrorCode::Success && channel_after == channel_before,
        Err(failure) => code == GblnErrorCode::ErrorIo && channel_after == failure.record(),
    }
}

/// Hands the engine's answer to a write on to the caller, as [`written`]
/// says.
pub fn finish_write(channel: &mut ErrorChannel, outcome: Result<(), EngineError>) -> (code:
    GblnErrorCode)
    ensures
        written(outcome, code, old(channel)@, final(channel)@),
        code != GblnErrorCode::Success ==> final(channel)@ is Some,
{
    match outcome {
        Ok(_) => GblnErrorCode::Success,
        Err(failure) => {
            set_last_error(channel, failure.message, failure.suggestion);
            GblnErrorCode::ErrorIo
        },
    }
}

/// Writes the value behind a handle to the file at `path` with `engine`.
///
/// A refused request gives the code and records the reason that
/// [`write_refusal`] names. Otherwise the engine is asked once, with the
/// value, the decoded path and the effective configuration, and its answer
/// is handed on as [`written`] says.
pub fn gbln_write_io<F: FnOnce(&Value, &str, &GblnConfig) -> Result<(), EngineError>>(
    channel: &mut ErrorChannel,
    value: Option<&Value>,
    path: Option<&[u8]>,
    config: Option<&GblnConfig>,
    engine: F,
) -> (code: GblnErrorCode)
    requires
        forall|v: &Value, p: &str, c: &GblnConfig| engine.requires((v, p, c)),
    ensures
        code != GblnErrorCode::Success ==> final(channel)@ is Some,
        match write_refusal(value is Some, bytes_view(path)) {
            Some((failure, record)) => code == failure && final(channel)@ == Some(record),
            None => exists|
                target: &str,
                settings: &GblnConfig,
                outcome: Result<(), EngineError>,
            |
                {
                    &&& target@ == decode_utf8(path->Some_0@)
                    &&& *settings == effective_config(config)
                    &&& #[trigger] engine.ensures((value->Some_0, target, settings), outcome)
                    &&& written(outcome, code, old(channel)@, final(channel)@)
                },
        },
{
    let value = match value {
        Some(value) => value,
        None => {
            set_last_error(channel, String::from_str("Null value pointer"), None);
            return GblnErrorCode::ErrorNullPointer;
        },
    };
    let path_bytes = match path {
        Some(path_bytes) => path_bytes,
        None => {
            set_last_error(channel, String::from_str("Null path pointer"), None);
            return GblnErrorCode::ErrorNullPointer;
        },
    };
    let decoded = match decode_text(path_bytes) {
        Ok(decoded) => decoded,
        Err(defect) => {
            set_last_error(channel, labelled("Invalid UTF-8 in path: ", defect.as_str()), None);
            return GblnErrorCode::ErrorIo;
        },
    };
    let settings = match config {
        Some(config) => *config,
        None => GblnConfig::io_format(),
    };
    let target = decoded.as_str();
    let outcome = engine(value, target, &settings);
    let ghost answer = outcome;
    let code = finish_write(channel, outcome);
    assert(engine.ensures((value, target, &settings), answer));
    code
}

/// Why a request to read does not reach the engine, with the code and the
/// record that it leaves: an absent path or no place for the result, or a
/// path that is not UTF-8. `None` where the request goes through.
pub open spec fn read_refusal(path: Option<Seq<u8>>, has_slot: bool) -> Option<
    (GblnErrorCode, ErrorRecord),
> {
    if path is None || !has_slot {
        Some(
            (
                GblnErrorCode::ErrorNullPointer,
                ErrorRecord { message: "Null pointer"@, suggestion: None },
            ),
        )
    } else if !valid_utf8(path->Some_0) {
        Some(
            (
                GblnErrorCode::ErrorIo,
                ErrorRecord {
                    message: "Invalid UTF-8 in path: "@ + utf8_error_text(path->Some_0),
                    suggestion: None,
                },
            ),
        )
    } else {
        None
    }
}

/// Reads the file at `path` with `engine` and stores the value through
/// `out_value`.
///
/// A refused request gives the code and records the reason that
/// [`read_refusal`] names, and leaves the slot as it was. Otherwise the
/// engine is asked once, with the decoded path, and its answer is handed on
/// as [`delivered`] says.
pub fn gbln_read_io<F: FnOnce(&str) -> Result<Value, EngineError>>(
    channel: &mut ErrorChannel,
    path: Option<&[u8]>,
    out_value: Option<&mut Option<GblnValue>>,
    engine: F,
) -> (code: GblnErrorCode)
    requires
        forall|target: &str| engine.requires((target,)),
    ensures
        code != GblnErrorCode::Success ==> final(channel)@ is Some,
        match read_refusal(bytes_view(path), out_value is Some) {
            Some((failure, record)) => {
                &&& code == failure
                &&& final(channel)@ == Some(record)
                &&& out_value is Some ==> *final(out_value->Some_0) == *old(out_value->Some_0)
            },
            None => exists|target: &str, outcome: Result<Value, EngineError>|
                {
                    &&& target@ == decode_utf8(path->Some_0@)
                    &&& #[trigger] engine.ensures((target,), outcome)
                    &&& delivered(
                        outcome,
                        code,
                        old(channel)@,
                        final(channel)@,
                        *old(out_value->Some_0),
                        *final(out_value->Some_0),
                    )
                },
        },
{
    let path_bytes = match path {
        Some(path_bytes) => path_bytes,
        None => {
            set_last_error(channel, String::from_str("Null pointer"), None);
            return GblnErrorCode::ErrorNullPointer;
        },
    };
    let slot = match out_value {
        Some(slot) => slot,
        None => {
            set_last_error(channel, String::from_str("Null pointer"), None);
            return GblnErrorCode::ErrorNullPointer;
        },
    };
    let decoded = match decode_text(path_bytes) {
        Ok(decoded) => decoded,
        Err(defect) => {
            set_last_error(channel, labelled("Invalid UTF-8 in path: ", defect.as_str()), None);
            return GblnErrorCode::ErrorIo;
        },
    };
    let target = decoded.as_str();
    let outcome = engine(target);
    let ghost answer = outcome;
    let code = deliver_value(channel, outcome, slot);
    assert(engine.ensures((target,), answer));
    code
}

} // verus!
