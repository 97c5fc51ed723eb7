//! Handing text out: renderings of a value, and the message and suggestion
//! of the last failure. Text crosses as a C string, so a text that holds the
//! NUL character is not handed out.

use crate::error::{
    get_last_error, has_message, message_only, set_last_error, text_view, ErrorChannel,
    ErrorRecord,
};
use crate::text::{c_string_copy, c_text, has_nul, holds_nul};
use crate::types::Value;
use vstd::prelude::*;

verus! {

/// How a rendering shows at the boundary: it is handed out as it is and the
/// channel stays as it was, unless it holds the NUL character; then nothing
/// is handed out and the channel says so.
pub open spec fn rendered_as(
    rendering: Seq<char>,
    text: Option<Seq<char>>,
    channel_before: Option<ErrorRecord>,
    channel_after: Option<ErrorRecord>,
) -> bool {
    &&& text == c_text(rendering)
    &&& channel_after == if holds_nul(rendering) {
        message_only("Failed to create C string"@)
    } else {
        channel_before
    }
}

/// Hands a rendering on to the caller, as [`rendered_as`] says.
pub fn wrap_rendering(channel: &mut ErrorChannel, rendering: String) -> (text: Option<String>)
    ensures
        rendered_as(rendering@, text_view(text), old(channel)@, final(channel)@),
        text is None ==> has_message(final(channel)@),
{
    proof {
        reveal_strlit("Failed to create C string");
    }
    if has_nul(rendering.as_str()) {
        set_last_error(channel, String::from_str("Failed to create C string"), None);
        None
    } else {
        Some(rendering)
    }
}

/// Renders the value behind a handle with `engine`.
fn render_with<F: FnOnce(&Value) -> String>(
    channel: &mut ErrorChannel,
    value: Option<&Value>,
    engine: F,
) -> (text: Option<String>)
    requires
        value is Some ==> engine.requires((value->Some_0,)),
    ensures
        text is None ==> has_message(final(channel)@),
        value is None ==> text is None && final(channel)@ == message_only("Null pointer"@),
        value is Some ==> exists|rendering: String|
            {
                &&& #[trigger] engine.ensures((value->Some_0,), rendering)
                &&& rendered_as(rendering@, text_view(text), old(channel)@, final(channel)@)
            },
{
    proof {
        reveal_strlit("Null pointer");
    }
    match value {
        Some(value) => {
            let rendering = engine(value);
            let ghost answer = rendering;
            let text = wrap_rendering(channel, rendering);
            assert(engine.ensures((value,), answer));
            text
        },
        None => {
            set_last_error(channel, String::from_str("Null pointer"), None);
            None
        },
    }
}

/// Renders the value behind a handle in compact form.
///
/// An absent handle gives nothing and records "Null pointer". Otherwise the
/// engine is asked once for the rendering, which is handed on as
/// [`rendered_as`] says.
pub fn gbln_to_string<F: FnOnce(&Value) -> String>(
    channel: &mut ErrorChannel,
    value: Option<&Value>,
    engine: F,
) -> (text: Option<String>)
    requires
        value is Some ==> engine.requires((value->Some_0,)),
    ensures
        text is None ==> has_message(final(channel)@),
        value is None ==> text is None && final(channel)@ == message_only("Null pointer"@),
        value is Some ==> exists|rendering: String|
            {
                &&& #[trigger] engine.ensures((value->Some_0,), rendering)
                &&& rendered_as(rendering@, text_view(text), old(channel)@, final(channel)@)
            },
{
    render_with(channel, value, engine)
}

/// Renders the value behind a handle in readable form.
///
/// An absent handle gives nothing and records "Null pointer". Otherwise the
/// engine is asked once for the rendering, which is handed on as
/// [`rendered_as`] says.
pub fn gbln_to_string_pretty<F: FnOnce(&Value) -> String>(
    channel: &mut ErrorChannel,
    value: Option<&Value>,
    engine: F,
) -> (text: Option<String>)
    requires
        value is Some ==> engine.requires((value->Some_0,)),
    ensures
        text is None ==> has_message(final(channel)@),
        value is None ==> text is None && final(channel)@ == message_only("Null pointer"@),
        value is Some ==> exists|rendering: String|
            {
                &&& #[trigger] engine.ensures((value->Some_0,), rendering)
                &&& rendered_as(rendering@, text_view(text), old(channel)@, final(channel)@)
            },
{
    render_with(channel, value, engine)
}

/// Releases a text handed out by this library. An absent text is accepted
/// and nothing happens.
pub fn gbln_string_free(s: Option<String>) {
    let _ = s;
}

/// The message that can be handed out for what the channel holds.
pub open spec fn last_message(record: Option<ErrorRecord>) -> Option<Seq<char>> {
    match record {
        Some(r) => c_text(r.message),
        None => None,
    }
}

/// The suggestion that can be handed out for what the channel holds.
pub open spec fn last_suggestion(record: Option<ErrorRecord>) -> Option<Seq<char>> {
    match record {
        Some(r) => match r.suggestion {
            Some(s) => c_text(s),
            None => None,
        },
        None => None,
    }
}

/// A fresh copy of the last failure's message; none before the first
/// failure.
pub fn gbln_last_error_message(channel: &ErrorChannel) -> (text: Option<String>)
    ensures
        text_view(text) == last_message(channel@),
{
    match get_last_error(channel) {
        Some((message, _)) => c_string_copy(message.as_str()),
        None => None,
    }
}

/// A fresh copy of the last failure's suggestion; none before the first
/// failure and none where the failure came without one.
pub fn gbln_last_error_suggestion(channel: &ErrorChannel) -> (text: Option<String>)
    ensures
        text_view(text) == last_suggestion(channel@),
{
    match get_last_error(channel) {
        Some((_, Some(suggestion))) => c_string_copy(suggestion.as_str()),
        _ => None,
    }
}

} // verus!
