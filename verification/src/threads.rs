//! Threads, messages and the parts that make up a message's content.

use crate::error::DecodeError;
use crate::gateway::{CacheControl, ToolCall, ToolCallView};
use crate::json::{Json, JsonView};
use crate::message::MessageType;
use crate::tool_calls::{normalize_tool_calls, tool_calls_of_raw};
use vstd::prelude::*;

verus! {

/// `indexmap::IndexMap`, a hash map that keeps the order of insertion.
#[verifier::external_type_specification]
#[verifier::external_body]
#[verifier::reject_recursive_types(K)]
#[verifier::reject_recursive_types(V)]
#[verifier::reject_recursive_types(S)]
pub struct ExIndexMap<K, V, S>(indexmap::IndexMap<K, V, S>);

/// `IndexMap::clone`. Nothing is claimed of the copy.
pub assume_specification<K, V, S>[ <indexmap::IndexMap<K, V, S> as Clone>::clone ](
    map: &indexmap::IndexMap<K, V, S>,
) -> (copy: indexmap::IndexMap<K, V, S>)
    where
        K: Clone,
        V: Clone,
        S: Clone,
;

/// A conversation, as the store keeps it.
#[derive(Debug, Clone, PartialEq, Eq)]
pub struct MessageThread {
    pub id: String,
    pub model_name: String,
    pub user_id: String,
    pub project_id: String,
    pub is_public: bool,
    pub title: Option<String>,
    pub description: Option<String>,
    pub keywords: Option<Vec<String>>,
}

/// What is shown of a thread that was made public.
#[derive(Debug, Clone, PartialEq, Eq)]
pub struct PublicMessageThread {
    pub id: String,
    pub is_public: bool,
    pub tenant_id: String,
}

/// What a part of a message's content is.
#[derive(Debug, Clone, Copy, PartialEq, Eq)]
pub enum MessageContentType {
    Text,
    ImageUrl,
    InputAudio,
}

impl Default for MessageContentType {
    fn default() -> (kind: MessageContentType)
        ensures
            kind == MessageContentType::Text,
    {
        MessageContentType::Text
    }
}

/// How closely an image is to be looked at.
#[derive(Debug, Clone, Copy, PartialEq, Eq)]
pub enum ImageDetail {
    Auto,
    Low,
    High,
}

/// The encoding of an audio part.
#[derive(Debug, Clone, Copy, PartialEq, Eq)]
pub enum AudioFormat {
    Mp3,
    Wav,
}

/// The options of an audio part.
#[derive(Debug, Clone, Copy, PartialEq, Eq)]
pub struct AudioDetail {
    pub format: AudioFormat,
}

/// The options that go with an image part or with an audio part.
#[derive(Debug, Clone, Copy, PartialEq, Eq)]
pub enum MessageContentPartOptions {
    Image(ImageDetail),
    Audio(AudioDetail),
}

impl MessageContentPartOptions {
    /// The image options, where these are image options.
    pub fn as_image(&self) -> (image: Option<ImageDetail>)
        ensures
            image == (match *self {
                MessageContentPartOptions::Image(detail) => Some(detail),
                MessageContentPartOptions::Audio(_) => None,
            }),
    {
        match self {
            MessageContentPartOptions::Image(image) => Some(*image),
            _ => None,
        }
    }
}

/// One unit of a message's content: a text, an image or a piece of audio.
#[derive(Debug, PartialEq, Eq)]
pub struct MessageContentPart {
    pub kind: MessageContentType,
    pub value: String,
    pub additional_options: Option<MessageContentPartOptions>,
    pub cache_control: Option<CacheControl>,
}

/// The mathematical value of a [`MessageContentPart`].
pub struct MessageContentPartView {
    pub kind: MessageContentType,
    pub value: Seq<char>,
    pub additional_options: Option<MessageContentPartOptions>,
    pub cache_control: Option<CacheControl>,
}

impl DeepView for MessageContentPart {
    type V = MessageContentPartView;

    open spec fn deep_view(&self) -> MessageContentPartView {
        MessageContentPartView {
            kind: self.kind,
            value: self.value@,
            additional_options: self.additional_options,
            cache_control: self.cache_control,
        }
    }
}

impl Clone for MessageContentPart {
    fn clone(&self) -> (copy: MessageContentPart)
        ensures
            copy.deep_view() == self.deep_view(),
    {
        MessageContentPart {
            kind: self.kind,
            value: self.value.clone(),
            additional_options: self.additional_options,
            cache_control: self.cache_control,
        }
    }
}

/// Copies a list of parts.
pub fn clone_parts(parts: &Vec<MessageContentPart>) -> (copies: Vec<MessageContentPart>)
    ensures
        copies.deep_view() == parts.deep_view(),
{
    let mut copies: Vec<MessageContentPart> = Vec::new();
    let mut i: usize = 0;
    while i < parts.len()
        invariant
            i <= parts.len(),
            copies.len() == i,
            forall|k: int| 0 <= k < i ==> copies[k].deep_view() == parts[k].deep_view(),
        decreases parts.len() - i,
    {
        copies.push(parts[i].clone());
        i += 1;
    }
    assert(copies.deep_view() =~= parts.deep_view());
    copies
}

/// The content of a message in one of its two shapes.
#[derive(Debug, Clone, PartialEq, Eq)]
pub enum MessageContentValue {
    Text(String),
    ImageUrl(Vec<MessageContentPart>),
}

/// A message of a thread.
#[derive(Debug, Clone, PartialEq, Eq)]
pub struct Message {
    pub model_name: String,
    pub thread_id: Option<String>,
    pub user_id: String,
    pub content_type: MessageContentType,
    pub content: Option<String>,
    pub content_array: Vec<MessageContentPart>,
    pub role: MessageType,
    pub tool_call_id: Option<String>,
    pub tool_calls: Option<Vec<ToolCall>>,
}

/// The mathematical value of a [`Message`].
pub struct MessageView {
    pub model_name: Seq<char>,
    pub thread_id: Option<Seq<char>>,
    pub user_id: Seq<char>,
    pub content_type: MessageContentType,
    pub content: Option<Seq<char>>,
    pub content_array: Seq<MessageContentPartView>,
    pub role: MessageType,
    pub tool_call_id: Option<Seq<char>>,
    pub tool_calls: Option<Seq<ToolCallView>>,
}

impl DeepView for Message {
    type V = MessageView;

    open spec fn deep_view(&self) -> MessageView {
        MessageView {
            model_name: self.model_name@,
            thread_id: self.thread_id.deep_view(),
            user_id: self.user_id@,
            content_type: self.content_type,
            content: self.content.deep_view(),
            content_array: self.content_array.deep_view(),
            role: self.role,
            tool_call_id: self.tool_call_id.deep_view(),
            tool_calls: self.tool_calls.deep_view(),
        }
    }
}

/// A message as it arrives, with its tool calls still in the form in which
/// the sender put them.
#[derive(Debug, Clone, PartialEq, Eq)]
pub struct RawMessage {
    pub model_name: String,
    pub thread_id: Option<String>,
    pub user_id: String,
    pub content_type: MessageContentType,
    pub content: Option<String>,
    pub content_array: Vec<MessageContentPart>,
    pub role: MessageType,
    pub tool_call_id: Option<String>,
    pub tool_calls: Option<Json>,
}

/// The mathematical value of a [`RawMessage`].
pub struct RawMessageView {
    pub model_name: Seq<char>,
    pub thread_id: Option<Seq<char>>,
    pub user_id: Seq<char>,
    pub content_type: MessageContentType,
    pub content: Option<Seq<char>>,
    pub content_array: Seq<MessageContentPartView>,
    pub role: MessageType,
    pub tool_call_id: Option<Seq<char>>,
    pub tool_calls: Option<JsonView>,
}

impl DeepView for RawMessage {
    type V = RawMessageView;

    open spec fn deep_view(&self) -> RawMessageView {
        RawMessageView {
            model_name: self.model_name@,
            thread_id: self.thread_id.deep_view(),
            user_id: self.user_id@,
            content_type: self.content_type,
            content: self.content.deep_view(),
            content_array: self.content_array.deep_view(),
            role: self.role,
            tool_call_id: self.tool_call_id.deep_view(),
            tool_calls: self.tool_calls.deep_view(),
        }
    }
}

/// The message that a raw message stands for: the same in every field but
/// the tool calls, which are read from whatever form they arrived in. Where
/// they arrived as a text that is not JSON, there is no message.
pub open spec fn message_of_raw(raw: RawMessageView) -> Result<MessageView, DecodeError> {
    match tool_calls_of_raw(raw.tool_calls) {
        Ok(tool_calls) => Ok(
            MessageView {
                model_name: raw.model_name,
                thread_id: raw.thread_id,
                user_id: raw.user_id,
                content_type: raw.content_type,
                content: raw.content,
                content_array: raw.content_array,
                role: raw.role,
                tool_call_id: raw.tool_call_id,
                tool_calls,
            },
        ),
        Err(error) => Err(error),
    }
}

/// The outcome of reading a message, by value.
pub open spec fn message_outcome(outcome: Result<Message, DecodeError>) -> Result<
    MessageView,
    DecodeError,
> {
    match outcome {
        Ok(message) => Ok(message.deep_view()),
        Err(error) => Err(error),
    }
}

impl Message {
    /// Finishes the reading of a message: its tool calls, which arrive as an
    /// array or as a text that holds one, are brought into one shape.
    pub fn from_raw(raw: RawMessage) -> (outcome: Result<Message, DecodeError>)
        ensures
            message_outcome(outcome) == message_of_raw(raw.deep_view()),
    {
        match normalize_tool_calls(raw.tool_calls) {
            Ok(tool_calls) => Ok(
                Message {
                    model_name: raw.model_name,
                    thread_id: raw.thread_id,
                    user_id: raw.user_id,
                    content_type: raw.content_type,
                    content: raw.content,
                    content_array: raw.content_array,
                    role: raw.role,
                    tool_call_id: raw.tool_call_id,
                    tool_calls,
                },
            ),
            Err(error) => Err(error),
        }
    }
}

/// What a message says, as the formatting downstream takes it: a plain text,
/// or the parts of its content in order.
#[derive(Debug, PartialEq, Eq)]
pub enum InnerMessage {
    Text(String),
    Array(Vec<MessageContentPart>),
}

/// The mathematical value of an [`InnerMessage`].
pub enum InnerMessageView {
    Text(Seq<char>),
    Array(Seq<MessageContentPartView>),
}

impl DeepView for InnerMessage {
    type V = InnerMessageView;

    open spec fn deep_view(&self) -> InnerMessageView {
        match self {
            InnerMessage::Text(text) => InnerMessageView::Text(text@),
            InnerMessage::Array(parts) => InnerMessageView::Array(parts.deep_view()),
        }
    }
}

impl Clone for InnerMessage {
    fn clone(&self) -> (copy: InnerMessage)
        ensures
            copy.deep_view() == self.deep_view(),
    {
        match self {
            InnerMessage::Text(text) => InnerMessage::Text(text.clone()),
            InnerMessage::Array(parts) => InnerMessage::Array(clone_parts(parts)),
        }
    }
}

/// What [`InnerMessage::from`] makes of a message: its parts where it has
/// any, else its text, and the empty text where it has neither.
pub open spec fn inner_message_of(message: MessageView) -> InnerMessageView {
    if message.content_array.len() > 0 {
        InnerMessageView::Array(message.content_array)
    } else {
        InnerMessageView::Text(
            match message.content {
                Some(text) => text,
                None => Seq::empty(),
            },
        )
    }
}

/// `from` is specified by value, in its own `ensures`: two strings of the same
/// characters need not be one `String`, so no spec function can name the very
/// `InnerMessage` that it returns for a message without content.
impl vstd::std_specs::convert::FromSpecImpl<Message> for InnerMessage {
    open spec fn obeys_from_spec() -> bool {
        false
    }

    open spec fn from_spec(val: Message) -> InnerMessage {
        if val.content_array.len() > 0 {
            InnerMessage::Array(val.content_array)
        } else {
            InnerMessage::Text(
                choose|text: String| text@ == inner_message_of(val.deep_view())->Text_0,
            )
        }
    }
}

impl From<Message> for InnerMessage {
    fn from(val: Message) -> (inner: InnerMessage)
        ensures
            inner.deep_view() == inner_message_of(val.deep_view()),
    {
        if val.content_array.len() == 0 {
            match val.content {
                Some(text) => InnerMessage::Text(text),
                None => InnerMessage::Text(String::new()),
            }
        } else {
            InnerMessage::Array(val.content_array)
        }
    }
}

/// A request to add a message to a thread and answer it.
#[derive(Debug, PartialEq, Eq)]
pub struct MessageRequest {
    pub model_name: String,
    pub thread_id: Option<String>,
    pub user_id: String,
    pub parameters: indexmap::IndexMap<String, Json>,
    pub message: InnerMessage,
    pub include_history: bool,
    pub history_length: Option<u32>,
}

impl Clone for MessageRequest {
    /// Copies the request. The parameters are copied by `IndexMap::clone`,
    /// of which nothing is claimed here.
    fn clone(&self) -> (copy: MessageRequest)
        ensures
            copy.model_name@ == self.model_name@,
            copy.thread_id.deep_view() == self.thread_id.deep_view(),
            copy.user_id@ == self.user_id@,
            copy.message.deep_view() == self.message.deep_view(),
            copy.include_history == self.include_history,
            copy.history_length == self.history_length,
    {
        MessageRequest {
            model_name: self.model_name.clone(),
            thread_id: match &self.thread_id {
                Some(id) => Some(id.clone()),
                None => None,
            },
            user_id: self.user_id.clone(),
            parameters: self.parameters.clone(),
            message: self.message.clone(),
            include_history: self.include_history,
            history_length: self.history_length,
        }
    }
}

/// Whether a request takes the thread's history along when it does not say.
pub fn default_include_history() -> (on: bool)
    ensures
        on,
{
    true
}

} // verus!
