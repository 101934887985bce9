//! The decisions of one execution: what to do once the model has answered,
//! which finish reason the response carries, and how the response is put
//! together.
//!
//! Nothing here waits for anything. Whoever runs an execution invokes the
//! model, hands the final message to the cache and joins the task that
//! watches the usage, and tells the [`Pipeline`] what came of it.

use crate::relay::Sink;
use crate::threads::{Message, MessageView};
use crate::usage::{
    no_usage, reported_usage, summarize_usage, usage_summary, ChatCompletionUsage, LLMFinishEvent,
};
use vstd::prelude::*;
use vstd::string::StringExecFns;

verus! {

/// Why an execution gave no response.
#[derive(Debug, Clone, PartialEq, Eq)]
pub enum ExecutionError {
    /// The model gave neither tool calls nor content.
    EmptyResponse,
    /// The invocation of the model failed; the text is the adapter's.
    Invocation(String),
    /// A sink was gone when something was to be delivered to it.
    SinkClosed(Sink),
    /// The task that watches the usage did not come to an end.
    JoinFailed,
}

/// The mathematical value of an [`ExecutionError`].
pub enum ExecutionErrorView {
    EmptyResponse,
    Invocation(Seq<char>),
    SinkClosed(Sink),
    JoinFailed,
}

impl DeepView for ExecutionError {
    type V = ExecutionErrorView;

    open spec fn deep_view(&self) -> ExecutionErrorView {
        match self {
            ExecutionError::EmptyResponse => ExecutionErrorView::EmptyResponse,
            ExecutionError::Invocation(text) => ExecutionErrorView::Invocation(text@),
            ExecutionError::SinkClosed(sink) => ExecutionErrorView::SinkClosed(*sink),
            ExecutionError::JoinFailed => ExecutionErrorView::JoinFailed,
        }
    }
}

impl ExecutionErrorView {
    /// What the caller is told.
    pub open spec fn message(self) -> Seq<char> {
        match self {
            ExecutionErrorView::EmptyResponse => "No content in response"@,
            ExecutionErrorView::Invocation(text) => text,
            ExecutionErrorView::SinkClosed(Sink::CacheEvents) => "Cache event sink closed"@,
            ExecutionErrorView::SinkClosed(Sink::Outbound) => "Outbound event sink closed"@,
            ExecutionErrorView::SinkClosed(Sink::CacheResponse) => "Cache response sink closed"@,
            ExecutionErrorView::JoinFailed => "Usage task failed"@,
        }
    }
}

impl ExecutionError {
    /// What the caller is told.
    pub fn message(&self) -> (text: String)
        ensures
            text@ == self.deep_view().message(),
    {
        match self {
            ExecutionError::EmptyResponse => "No content in response".to_owned(),
            ExecutionError::Invocation(text) => text.clone(),
            ExecutionError::SinkClosed(Sink::CacheEvents) => "Cache event sink closed".to_owned(),
            ExecutionError::SinkClosed(Sink::Outbound) => "Outbound event sink closed".to_owned(),
            ExecutionError::SinkClosed(Sink::CacheResponse) => "Cache response sink closed".to_owned(),
            ExecutionError::JoinFailed => "Usage task failed".to_owned(),
        }
    }
}

/// The finish reason of a response: `tool_calls` where the message has tool
/// calls, whatever else it has; else what the provider reported, where the
/// message has content; and an error where it has neither.
pub open spec fn finish_reason_of(message: MessageView, reported: Seq<char>) -> Result<
    Seq<char>,
    ExecutionErrorView,
> {
    if message.tool_calls is Some {
        Ok("tool_calls"@)
    } else if message.content is Some {
        Ok(reported)
    } else {
        Err(ExecutionErrorView::EmptyResponse)
    }
}

/// Decides the finish reason of a response from the final message and from
/// what the provider reported.
pub fn resolve_finish_reason(message: &Message, reported: &str) -> (reason: Result<
    String,
    ExecutionError,
>)
    ensures
        match reason {
            Ok(text) => finish_reason_of(message.deep_view(), reported@) == Ok::<
                Seq<char>,
                ExecutionErrorView,
            >(text@),
            Err(error) => finish_reason_of(message.deep_view(), reported@) == Err::<
                Seq<char>,
                ExecutionErrorView,
            >(error.deep_view()),
        },
{
    if message.tool_calls.is_some() {
        Ok("tool_calls".to_owned())
    } else if message.content.is_some() {
        Ok(reported.to_owned())
    } else {
        Err(ExecutionError::EmptyResponse)
    }
}

/// What is known of the model that answers a request.
#[derive(Debug, Clone, PartialEq, Eq)]
pub struct Model {
    pub name: String,
    pub provider_name: String,
}

/// The label of the model in a response: provider and name with a stroke
/// between them where the model is known, else the name that was asked for.
pub open spec fn model_label_of(known: Option<(Seq<char>, Seq<char>)>, requested: Seq<char>) -> Seq<
    char,
> {
    match known {
        Some((provider_name, name)) => provider_name + "/"@ + name,
        None => requested,
    }
}

/// The label of the model in a response.
pub fn model_label(known: &Option<Model>, requested: &str) -> (label: String)
    ensures
        label@ == model_label_of(
            match *known {
                Some(model) => Some((model.provider_name@, model.name@)),
                None => None,
            },
            requested@,
        ),
{
    match known {
        Some(model) => {
            let mut label = model.provider_name.clone();
            label.append("/");
            label.append(model.name.as_str());
            label
        },
        None => requested.to_owned(),
    }
}

/// What the model gave back: its final message and the reason it reported
/// for stopping.
#[derive(Debug, Clone, PartialEq, Eq)]
pub struct InvocationResult {
    pub message: Message,
    pub finish_reason: String,
}

/// The mathematical value of an [`InvocationResult`].
pub struct InvocationResultView {
    pub message: MessageView,
    pub finish_reason: Seq<char>,
}

impl DeepView for InvocationResult {
    type V = InvocationResultView;

    open spec fn deep_view(&self) -> InvocationResultView {
        InvocationResultView {
            message: self.message.deep_view(),
            finish_reason: self.finish_reason@,
        }
    }
}

/// A response that lacks only its identifier and its time.
#[derive(Debug, Clone, PartialEq, Eq)]
pub struct ResponseDraft {
    pub model: String,
    pub message: Message,
    pub finish_reason: String,
    pub usage: ChatCompletionUsage,
    pub is_cache_used: Option<bool>,
}

/// The mathematical value of a [`ResponseDraft`].
pub struct ResponseDraftView {
    pub model: Seq<char>,
    pub message: MessageView,
    pub finish_reason: Seq<char>,
    pub usage: ChatCompletionUsage,
    pub is_cache_used: Option<bool>,
}

impl DeepView for ResponseDraft {
    type V = ResponseDraftView;

    open spec fn deep_view(&self) -> ResponseDraftView {
        ResponseDraftView {
            model: self.model@,
            message: self.message.deep_view(),
            finish_reason: self.finish_reason@,
            usage: self.usage,
            is_cache_used: self.is_cache_used,
        }
    }
}

/// One answer of a response.
#[derive(Debug, Clone, PartialEq, Eq)]
pub struct ChatCompletionChoice {
    pub index: i32,
    pub message: Message,
    pub finish_reason: Option<String>,
}

/// The mathematical value of a [`ChatCompletionChoice`].
pub struct ChatCompletionChoiceView {
    pub index: i32,
    pub message: MessageView,
    pub finish_reason: Option<Seq<char>>,
}

impl DeepView for ChatCompletionChoice {
    type V = ChatCompletionChoiceView;

    open spec fn deep_view(&self) -> ChatCompletionChoiceView {
        ChatCompletionChoiceView {
            index: self.index,
            message: self.message.deep_view(),
            finish_reason: self.finish_reason.deep_view(),
        }
    }
}

/// The response that the caller gets.
#[derive(Debug, Clone, PartialEq, Eq)]
pub struct ChatCompletionResponse {
    pub id: String,
    pub object: String,
    pub created: i64,
    pub model: String,
    pub choices: Vec<ChatCompletionChoice>,
    pub usage: ChatCompletionUsage,
    pub is_cache_used: Option<bool>,
}

/// The mathematical value of a [`ChatCompletionResponse`].
pub struct ChatCompletionResponseView {
    pub id: Seq<char>,
    pub object: Seq<char>,
    pub created: i64,
    pub model: Seq<char>,
    pub choices: Seq<ChatCompletionChoiceView>,
    pub usage: ChatCompletionUsage,
    pub is_cache_used: Option<bool>,
}

impl DeepView for ChatCompletionResponse {
    type V = ChatCompletionResponseView;

    open spec fn deep_view(&self) -> ChatCompletionResponseView {
        ChatCompletionResponseView {
            id: self.id@,
            object: self.object@,
            created: self.created,
            model: self.model@,
            choices: self.choices.deep_view(),
            usage: self.usage,
            is_cache_used: self.is_cache_used,
        }
    }
}

/// The response that a draft becomes under an identifier and a time: a chat
/// completion with one choice, at index zero, that holds the final message
/// and the finish reason.
pub open spec fn response_of(id: Seq<char>, created: i64, draft: ResponseDraftView)
    -> ChatCompletionResponseView {
    ChatCompletionResponseView {
        id,
        object: "chat.completion"@,
        created,
        model: draft.model,
        choices: seq![
            ChatCompletionChoiceView {
                index: 0,
                message: draft.message,
                finish_reason: Some(draft.finish_reason),
            },
        ],
        usage: draft.usage,
        is_cache_used: draft.is_cache_used,
    }
}

/// Calls `uuid::Uuid::new_v4` and writes the identifier as `Uuid`'s `Display`
/// does. The identifier is random, so the contract speaks of its length
/// alone: the hyphenated form has 36 characters. `new_v4` panics where the
/// operating system hands out no random bytes.
#[verifier::external_body]
fn fresh_id() -> (id: String)
    ensures
        id@.len() == 36,
{
    uuid::Uuid::new_v4().to_string()
}

/// Calls `chrono::Utc::now` and `DateTime::timestamp`: the seconds since the
/// start of 1970. `now` counts from that start and panics on a clock set
/// before it, so the seconds are never negative.
#[verifier::external_body]
fn unix_now() -> (seconds: i64)
    ensures
        seconds >= 0,
{
    chrono::Utc::now().timestamp()
}

impl ChatCompletionResponse {
    /// Puts a response together from a draft, an identifier and a time.
    pub fn assemble(id: String, created: i64, draft: ResponseDraft) -> (response:
        ChatCompletionResponse)
        ensures
            response.deep_view() == response_of(id@, created, draft.deep_view()),
    {
        let mut choices: Vec<ChatCompletionChoice> = Vec::new();
        choices.push(
            ChatCompletionChoice {
                index: 0,
                message: draft.message,
                finish_reason: Some(draft.finish_reason),
            },
        );
        let response = ChatCompletionResponse {
            id,
            object: "chat.completion".to_owned(),
            created,
            model: draft.model,
            choices,
            usage: draft.usage,
            is_cache_used: draft.is_cache_used,
        };
        assert(response.choices.deep_view() =~= response_of(
            id@,
            created,
            draft.deep_view(),
        ).choices);
        response
    }

    /// Issues the response for a draft: under a fresh identifier, at the
    /// present time.
    pub fn issue(draft: ResponseDraft) -> (response: ChatCompletionResponse)
        ensures
            response.deep_view() == response_of(
                response.id@,
                response.created,
                draft.deep_view(),
            ),
            response.id@.len() == 36,
            response.created >= 0,
    {
        let id = fresh_id();
        let created = unix_now();
        ChatCompletionResponse::assemble(id, created, draft)
    }
}

/// Where an execution stands.
#[derive(Debug, Clone, PartialEq, Eq)]
pub enum Pipeline {
    /// The model is at work. `echo` says whether the cache waits for the
    /// final message, `join` whether a task watches the usage.
    Invoking { echo: bool, join: bool, model: String },
    /// The final message is on its way to the cache.
    Echoing { join: bool, model: String, result: InvocationResult },
    /// The task that watches the usage is being joined.
    Joining { model: String, message: Message, finish_reason: String },
    /// The execution is over.
    Finished,
}

/// The mathematical value of a [`Pipeline`].
pub enum PipelineView {
    Invoking { echo: bool, join: bool, model: Seq<char> },
    Echoing { join: bool, model: Seq<char>, result: InvocationResultView },
    Joining { model: Seq<char>, message: MessageView, finish_reason: Seq<char> },
    Finished,
}

impl DeepView for Pipeline {
    type V = PipelineView;

    open spec fn deep_view(&self) -> PipelineView {
        match self {
            Pipeline::Invoking { echo, join, model } => PipelineView::Invoking {
                echo: *echo,
                join: *join,
                model: model@,
            },
            Pipeline::Echoing { join, model, result } => PipelineView::Echoing {
                join: *join,
                model: model@,
                result: result.deep_view(),
            },
            Pipeline::Joining { model, message, finish_reason } => PipelineView::Joining {
                model: model@,
                message: message.deep_view(),
                finish_reason: finish_reason@,
            },
            Pipeline::Finished => PipelineView::Finished,
        }
    }
}

/// What happened outside the pipeline.
#[derive(Debug, Clone, PartialEq, Eq)]
pub enum PipelineEvent {
    /// The model answered.
    Invoked(InvocationResult),
    /// The invocation failed; the text is the adapter's.
    InvocationFailed(String),
    /// The cache took the final message.
    Echoed,
    /// The cache was gone.
    EchoFailed,
    /// The watching task came to an end and reported this.
    Joined(Option<LLMFinishEvent>),
    /// The watching task did not come to an end.
    JoinFailed,
}

/// The mathematical value of a [`PipelineEvent`].
pub enum PipelineEventView {
    Invoked(InvocationResultView),
    InvocationFailed(Seq<char>),
    Echoed,
    EchoFailed,
    Joined(Option<LLMFinishEvent>),
    JoinFailed,
}

impl DeepView for PipelineEvent {
    type V = PipelineEventView;

    open spec fn deep_view(&self) -> PipelineEventView {
        match self {
            PipelineEvent::Invoked(result) => PipelineEventView::Invoked(result.deep_view()),
            PipelineEvent::InvocationFailed(text) => PipelineEventView::InvocationFailed(text@),
            PipelineEvent::Echoed => PipelineEventView::Echoed,
            PipelineEvent::EchoFailed => PipelineEventView::EchoFailed,
            PipelineEvent::Joined(finish) => PipelineEventView::Joined(*finish),
            PipelineEvent::JoinFailed => PipelineEventView::JoinFailed,
        }
    }
}

/// What the pipeline asks for next.
#[derive(Debug, Clone, PartialEq, Eq)]
pub enum PipelineAction {
    /// Hand the final message to the cache, once.
    EchoResponse,
    /// Join the task that watches the usage.
    JoinUsage,
    /// Issue the response for this draft.
    Respond(ResponseDraft),
    /// Give up with this error.
    Fail(ExecutionError),
}

/// The mathematical value of a [`PipelineAction`].
pub enum PipelineActionView {
    EchoResponse,
    JoinUsage,
    Respond(ResponseDraftView),
    Fail(ExecutionErrorView),
}

impl DeepView for PipelineAction {
    type V = PipelineActionView;

    open spec fn deep_view(&self) -> PipelineActionView {
        match self {
            PipelineAction::EchoResponse => PipelineActionView::EchoResponse,
            PipelineAction::JoinUsage => PipelineActionView::JoinUsage,
            PipelineAction::Respond(draft) => PipelineActionView::Respond(draft.deep_view()),
            PipelineAction::Fail(error) => PipelineActionView::Fail(error.deep_view()),
        }
    }
}

/// The draft of a response with the given usage.
pub open spec fn draft_of(
    model: Seq<char>,
    message: MessageView,
    finish_reason: Seq<char>,
    summary: (ChatCompletionUsage, Option<bool>),
) -> ResponseDraftView {
    ResponseDraftView {
        model,
        message,
        finish_reason,
        usage: summary.0,
        is_cache_used: summary.1,
    }
}

/// What follows once the final message is where it belongs: the finish
/// reason is decided, and an empty response ends the execution. Else the
/// usage is waited for where a task watches it, and the response is due at
/// once, without usage, where none does.
pub open spec fn after_echo(join: bool, model: Seq<char>, result: InvocationResultView) -> (
    PipelineView,
    Option<PipelineActionView>,
) {
    match finish_reason_of(result.message, result.finish_reason) {
        Err(error) => (PipelineView::Finished, Some(PipelineActionView::Fail(error))),
        Ok(finish_reason) => if join {
            (
                PipelineView::Joining { model, message: result.message, finish_reason },
                Some(PipelineActionView::JoinUsage),
            )
        } else {
            (
                PipelineView::Finished,
                Some(
                    PipelineActionView::Respond(
                        draft_of(model, result.message, finish_reason, usage_summary(None)),
                    ),
                ),
            )
        },
    }
}

/// The state after `event` and what to do next; the same state and nothing
/// to do where the pipeline in `state` does not wait for `event`.
pub open spec fn pipeline_step(state: PipelineView, event: PipelineEventView) -> (
    PipelineView,
    Option<PipelineActionView>,
) {
    match (state, event) {
        (PipelineView::Invoking { echo, join, model }, PipelineEventView::Invoked(result)) => if echo {
            (
                PipelineView::Echoing { join, model, result },
                Some(PipelineActionView::EchoResponse),
            )
        } else {
            after_echo(join, model, result)
        },
        (PipelineView::Invoking { .. }, PipelineEventView::InvocationFailed(text)) => (
            PipelineView::Finished,
            Some(PipelineActionView::Fail(ExecutionErrorView::Invocation(text))),
        ),
        (PipelineView::Echoing { join, model, result }, PipelineEventView::Echoed) => after_echo(
            join,
            model,
            result,
        ),
        (PipelineView::Echoing { .. }, PipelineEventView::EchoFailed) => (
            PipelineView::Finished,
            Some(PipelineActionView::Fail(ExecutionErrorView::SinkClosed(Sink::CacheResponse))),
        ),
        (
            PipelineView::Joining { model, message, finish_reason },
            PipelineEventView::Joined(finish),
        ) => (
            PipelineView::Finished,
            Some(
                PipelineActionView::Respond(
                    draft_of(model, message, finish_reason, usage_summary(reported_usage(finish))),
                ),
            ),
        ),
        (PipelineView::Joining { .. }, PipelineEventView::JoinFailed) => (
            PipelineView::Finished,
            Some(PipelineActionView::Fail(ExecutionErrorView::JoinFailed)),
        ),
        _ => (state, None),
    }
}

/// Decides what follows once the final message is where it belongs.
fn proceed(join: bool, model: String, result: InvocationResult) -> (next: (
    Pipeline,
    Option<PipelineAction>,
))
    ensures
        (next.0.deep_view(), next.1.deep_view()) == after_echo(join, model@, result.deep_view()),
{
    match resolve_finish_reason(&result.message, result.finish_reason.as_str()) {
        Err(error) => (Pipeline::Finished, Some(PipelineAction::Fail(error))),
        Ok(finish_reason) => if join {
            (
                Pipeline::Joining { model, message: result.message, finish_reason },
                Some(PipelineAction::JoinUsage),
            )
        } else {
            let (usage, is_cache_used) = summarize_usage(None);
            (
                Pipeline::Finished,
                Some(
                    PipelineAction::Respond(
                        ResponseDraft {
                            model,
                            message: result.message,
                            finish_reason,
                            usage,
                            is_cache_used,
                        },
                    ),
                ),
            )
        },
    }
}

impl Pipeline {
    /// The pipeline of an execution whose model has just been invoked.
    pub fn start(echo: bool, join: bool, model: String) -> (pipeline: Pipeline)
        ensures
            pipeline.deep_view() == (PipelineView::Invoking { echo, join, model: model@ }),
    {
        Pipeline::Invoking { echo, join, model }
    }

    /// The final message, from the model's answer until the execution ends.
    pub fn final_message(&self) -> (message: Option<&Message>)
        ensures
            message.deep_view() == (match self.deep_view() {
                PipelineView::Echoing { result, .. } => Some(result.message),
                PipelineView::Joining { message, .. } => Some(message),
                _ => None,
            }),
    {
        match self {
            Pipeline::Echoing { result, .. } => Some(&result.message),
            Pipeline::Joining { message, .. } => Some(message),
            _ => None,
        }
    }

    /// Takes note of what happened and says what to do next. An event that
    /// the pipeline does not wait for changes nothing and gives `None`.
    pub fn step(self, event: PipelineEvent) -> (next: (Pipeline, Option<PipelineAction>))
        ensures
            (next.0.deep_view(), next.1.deep_view()) == pipeline_step(
                self.deep_view(),
                event.deep_view(),
            ),
    {
        match self {
            Pipeline::Invoking { echo, join, model } => match event {
                PipelineEvent::Invoked(result) => if echo {
                    (Pipeline::Echoing { join, model, result }, Some(PipelineAction::EchoResponse))
                } else {
                    proceed(join, model, result)
                },
                PipelineEvent::InvocationFailed(text) => (
                    Pipeline::Finished,
                    Some(PipelineAction::Fail(ExecutionError::Invocation(text))),
                ),
                _ => (Pipeline::Invoking { echo, join, model }, None),
            },
            Pipeline::Echoing { join, model, result } => match event {
                PipelineEvent::Echoed => proceed(join, model, result),
                PipelineEvent::EchoFailed => (
                    Pipeline::Finished,
                    Some(PipelineAction::Fail(ExecutionError::SinkClosed(Sink::CacheResponse))),
                ),
                _ => (Pipeline::Echoing { join, model, result }, None),
            },
            Pipeline::Joining { model, message, finish_reason } => match event {
                PipelineEvent::Joined(finish) => {
                    let (usage, is_cache_used) = summarize_usage(finish);
                    (
                        Pipeline::Finished,
                        Some(
                            PipelineAction::Respond(
                                ResponseDraft {
                                    model,
                                    message,
                                    finish_reason,
                                    usage,
                                    is_cache_used,
                                },
                            ),
                        ),
                    )
                },
                PipelineEvent::JoinFailed => (
                    Pipeline::Finished,
                    Some(PipelineAction::Fail(ExecutionError::JoinFailed)),
                ),
                _ => (Pipeline::Joining { model, message, finish_reason }, None),
            },
            Pipeline::Finished => (Pipeline::Finished, None),
        }
    }
}

/// What an execution comes to, given what its pipeline came to and the sink
/// that the relay found gone, if it found one gone: an event that could not
/// be delivered outweighs whatever else happened.
pub open spec fn settled(
    outcome: Result<ResponseDraftView, ExecutionErrorView>,
    gone: Option<Sink>,
) -> Result<ResponseDraftView, ExecutionErrorView> {
    match gone {
        Some(sink) => Err(ExecutionErrorView::SinkClosed(sink)),
        None => outcome,
    }
}

/// The outcome of a pipeline, by value.
pub open spec fn draft_outcome(outcome: Result<ResponseDraft, ExecutionError>) -> Result<
    ResponseDraftView,
    ExecutionErrorView,
> {
    match outcome {
        Ok(draft) => Ok(draft.deep_view()),
        Err(error) => Err(error.deep_view()),
    }
}

/// Brings together what the pipeline came to and what became of the relay.
pub fn settle(outcome: Result<ResponseDraft, ExecutionError>, gone: Option<Sink>) -> (end: Result<
    ResponseDraft,
    ExecutionError,
>)
    ensures
        draft_outcome(end) == settled(draft_outcome(outcome), gone),
{
    match gone {
        Some(sink) => Err(ExecutionError::SinkClosed(sink)),
        None => outcome,
    }
}

/// Whether a task watches the usage of the execution in `state`.
pub open spec fn usage_is_watched(state: PipelineView) -> bool {
    match state {
        PipelineView::Invoking { join, .. } => join,
        PipelineView::Echoing { join, .. } => join,
        PipelineView::Joining { .. } => true,
        PipelineView::Finished => false,
    }
}

/// Where no task watches the usage, the response that an execution comes to
/// shows no usage: every counter is zero, and nothing is said of the cache.
pub proof fn lemma_unwatched_usage_is_zero(state: PipelineView, event: PipelineEventView)
    requires
        !usage_is_watched(state),
    ensures
        pipeline_step(state, event).1 matches Some(PipelineActionView::Respond(draft))
            ==> draft.usage == no_usage() && draft.is_cache_used is None,
        !usage_is_watched(pipeline_step(state, event).0),
{
}

/// The final message reaches the cache before anything else is decided: a
/// pipeline with a cache asks for nothing but the echo once the model has
/// answered, whatever the answer holds.
pub proof fn lemma_echo_comes_first(
    join: bool,
    model: Seq<char>,
    result: InvocationResultView,
)
    ensures
        pipeline_step(
            PipelineView::Invoking { echo: true, join, model },
            PipelineEventView::Invoked(result),
        ).1 == Some(PipelineActionView::EchoResponse),
{
}

} // verus!
