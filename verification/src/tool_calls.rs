//! The tool calls of a message, which arrive as a JSON array or as a text
//! that holds one.

use crate::error::DecodeError;
use crate::gateway::{FunctionCall, FunctionCallView, ToolCall, ToolCallView};
use crate::json::{lemma_array_view, parsed_json, Json, JsonView};
use vstd::prelude::*;

verus! {

/// The text under `key` in an object, where there is one.
pub open spec fn text_member(wire: JsonView, key: Seq<char>) -> Option<Seq<char>> {
    match wire.member(key) {
        Some(JsonView::Text(text)) => Some(text),
        _ => None,
    }
}

/// The function that a wire value names: an object with the texts `name` and
/// `arguments`.
pub open spec fn function_of_wire(wire: JsonView) -> Option<FunctionCallView> {
    match (text_member(wire, "name"@), text_member(wire, "arguments"@)) {
        (Some(name), Some(arguments)) => Some(FunctionCallView { name, arguments }),
        _ => None,
    }
}

/// The tool call that a wire value stands for: an object with the texts `id`
/// and `type` and with a function under `function`.
pub open spec fn tool_call_of_wire(wire: JsonView) -> Option<ToolCallView> {
    match (text_member(wire, "id"@), text_member(wire, "type"@), wire.member("function"@)) {
        (Some(id), Some(kind), Some(function)) => match function_of_wire(function) {
            Some(function) => Some(ToolCallView { id, kind, function }),
            None => None,
        },
        _ => None,
    }
}

/// The tool calls that a wire value stands for: those of its elements in
/// order, where it is an array and each element stands for a tool call.
pub open spec fn tool_calls_of_wire(wire: JsonView) -> Option<Seq<ToolCallView>> {
    match wire {
        JsonView::Array(items) => if forall|i: int|
            0 <= i < items.len() ==> (#[trigger] tool_call_of_wire(items[i])) is Some {
            Some(Seq::new(items.len(), |i: int| tool_call_of_wire(items[i])->Some_0))
        } else {
            None
        },
        _ => None,
    }
}

/// The tool calls of a message whose text form was read as `parsed`: those
/// that the value stands for, and an error where the text was not JSON.
pub open spec fn tool_calls_of_parsed(parsed: Option<JsonView>) -> Result<
    Option<Seq<ToolCallView>>,
    DecodeError,
> {
    match parsed {
        Some(wire) => Ok(tool_calls_of_wire(wire)),
        None => Err(DecodeError::InvalidJson),
    }
}

/// The tool calls of a message, from what arrived in their place. A text is
/// read as JSON first; an array is taken as it is; anything else, and
/// nothing, gives none. What does not stand for tool calls gives none too.
pub open spec fn tool_calls_of_raw(raw: Option<JsonView>) -> Result<
    Option<Seq<ToolCallView>>,
    DecodeError,
> {
    match raw {
        Some(JsonView::Text(text)) => tool_calls_of_parsed(parsed_json(text)),
        Some(JsonView::Array(items)) => Ok(tool_calls_of_wire(JsonView::Array(items))),
        _ => Ok(None),
    }
}

/// The outcome of reading tool calls, by value.
pub open spec fn tool_calls_outcome(outcome: Result<Option<Vec<ToolCall>>, DecodeError>) -> Result<
    Option<Seq<ToolCallView>>,
    DecodeError,
> {
    match outcome {
        Ok(calls) => Ok(calls.deep_view()),
        Err(error) => Err(error),
    }
}

/// Reads the text under `key` in an object.
fn decode_text_member(wire: &Json, key: &str) -> (text: Option<String>)
    ensures
        text.deep_view() == text_member(wire.deep_view(), key@),
{
    match wire.get(key) {
        Some(Json::Text(text)) => Some(text.clone()),
        _ => None,
    }
}

/// Reads the function of a tool call.
fn decode_function(wire: &Json) -> (function: Option<FunctionCall>)
    ensures
        function.deep_view() == function_of_wire(wire.deep_view()),
{
    let name = decode_text_member(wire, "name");
    let arguments = decode_text_member(wire, "arguments");
    match (name, arguments) {
        (Some(name), Some(arguments)) => Some(FunctionCall { name, arguments }),
        _ => None,
    }
}

impl ToolCall {
    /// Reads one tool call from its wire form.
    pub fn decode(wire: &Json) -> (call: Option<ToolCall>)
        ensures
            call.deep_view() == tool_call_of_wire(wire.deep_view()),
    {
        let id = decode_text_member(wire, "id");
        let kind = decode_text_member(wire, "type");
        match (id, kind, wire.get("function")) {
            (Some(id), Some(kind), Some(function)) => match decode_function(function) {
                Some(function) => Some(ToolCall { id, kind, function }),
                None => None,
            },
            _ => None,
        }
    }

    /// Reads a list of tool calls from the array of their wire forms; `None`
    /// where the value is no such array.
    pub fn decode_all(wire: &Json) -> (calls: Option<Vec<ToolCall>>)
        ensures
            calls.deep_view() == tool_calls_of_wire(wire.deep_view()),
    {
        match wire {
            Json::Array(items) => {
                proof {
                    lemma_array_view(*items);
                }
                let ghost wires = items.deep_view();
                let mut calls: Vec<ToolCall> = Vec::new();
                let mut i: usize = 0;
                while i < items.len()
                    invariant
                        i <= items.len(),
                        calls.len() == i,
                        wires == items.deep_view(),
                        wire.deep_view() == JsonView::Array(wires),
                        forall|k: int|
                            0 <= k < i ==> (#[trigger] tool_call_of_wire(wires[k])) == Some(
                                calls[k].deep_view(),
                            ),
                    decreases items.len() - i,
                {
                    assert(wires[i as int] == items[i as int].deep_view());
                    match ToolCall::decode(&items[i]) {
                        Some(call) => {
                            calls.push(call);
                        },
                        None => {
                            assert(tool_call_of_wire(wires[i as int]) is None);
                            return None;
                        },
                    }
                    i += 1;
                }
                proof {
                    assert(calls.deep_view() =~= Seq::new(
                        wires.len(),
                        |i: int| tool_call_of_wire(wires[i])->Some_0,
                    ));
                }
                Some(calls)
            },
            _ => None,
        }
    }
}

/// The tool calls of a message whose text form was read as `parsed`.
pub fn tool_calls_from_parsed(parsed: Option<Json>) -> (outcome: Result<
    Option<Vec<ToolCall>>,
    DecodeError,
>)
    ensures
        tool_calls_outcome(outcome) == tool_calls_of_parsed(parsed.deep_view()),
{
    match parsed {
        Some(wire) => Ok(ToolCall::decode_all(&wire)),
        None => Err(DecodeError::InvalidJson),
    }
}

/// The tool calls of a message, from what arrived in their place: a text
/// that holds JSON, an array, or something else.
pub fn normalize_tool_calls(raw: Option<Json>) -> (outcome: Result<
    Option<Vec<ToolCall>>,
    DecodeError,
>)
    ensures
        tool_calls_outcome(outcome) == tool_calls_of_raw(raw.deep_view()),
{
    match raw {
        Some(Json::Text(text)) => tool_calls_from_parsed(Json::parse(text.as_str())),
        Some(Json::Array(items)) => {
            proof {
                lemma_array_view(items);
            }
            Ok(ToolCall::decode_all(&Json::Array(items)))
        },
        _ => Ok(None),
    }
}

/// Tool calls that arrive as a text are read as those are that arrive as the
/// array which the text holds.
pub proof fn lemma_text_and_array_agree(text: Seq<char>, items: Seq<JsonView>)
    requires
        parsed_json(text) == Some(JsonView::Array(items)),
    ensures
        tool_calls_of_raw(Some(JsonView::Text(text))) == tool_calls_of_raw(
            Some(JsonView::Array(items)),
        ),
{
}

} // verus!
