//! Values that travel with a completion: caching hints and tool calls.

use vstd::prelude::*;

verus! {

/// How long a cached part may live.
#[derive(Clone, Copy, Debug, PartialEq, Eq)]
pub enum CacheControlTtl {
    FiveMinutes,
    OneHour,
}

/// The kind of caching that a hint asks for.
#[derive(Clone, Copy, Debug, PartialEq, Eq)]
pub enum CacheControlType {
    Ephemeral,
}

/// A caching hint attached to one part of a message's content.
#[derive(Clone, Copy, Debug, PartialEq, Eq)]
pub struct CacheControl {
    pub kind: CacheControlType,
    pub ttl: Option<CacheControlTtl>,
}

/// The function that a tool call names, with its arguments as JSON text.
#[derive(Clone, Debug, PartialEq, Eq)]
pub struct FunctionCall {
    pub name: String,
    pub arguments: String,
}

/// One call of a tool that the model asks for.
#[derive(Clone, Debug, PartialEq, Eq)]
pub struct ToolCall {
    pub id: String,
    pub kind: String,
    pub function: FunctionCall,
}

/// The mathematical value of a [`FunctionCall`].
pub struct FunctionCallView {
    pub name: Seq<char>,
    pub arguments: Seq<char>,
}

/// The mathematical value of a [`ToolCall`].
pub struct ToolCallView {
    pub id: Seq<char>,
    pub kind: Seq<char>,
    pub function: FunctionCallView,
}

impl DeepView for FunctionCall {
    type V = FunctionCallView;

    open spec fn deep_view(&self) -> FunctionCallView {
        FunctionCallView { name: self.name@, arguments: self.arguments@ }
    }
}

impl DeepView for ToolCall {
    type V = ToolCallView;

    open spec fn deep_view(&self) -> ToolCallView {
        ToolCallView { id: self.id@, kind: self.kind@, function: self.function.deep_view() }
    }
}

} // verus!
