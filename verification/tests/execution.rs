use gateway_core::executor::{
    model_label, resolve_finish_reason, settle, ChatCompletionResponse, ExecutionError,
    InvocationResult, Model, Pipeline, PipelineAction, PipelineEvent, ResponseDraft,
};
use gateway_core::gateway::{FunctionCall, ToolCall};
use gateway_core::message::MessageType;
use gateway_core::relay::Sink;
use gateway_core::threads::{Message, MessageContentType};
use gateway_core::usage::{
    summarize_usage, ChatCompletionUsage, CompletionModelUsage, CompletionTokensDetails,
    LLMFinishEvent, PromptTokensDetails,
};

fn call() -> ToolCall {
    ToolCall {
        id: "call_1".to_string(),
        kind: "function".to_string(),
        function: FunctionCall { name: "f".to_string(), arguments: "{}".to_string() },
    }
}

fn message(content: Option<&str>, tool_calls: Option<Vec<ToolCall>>) -> Message {
    Message {
        model_name: "gpt".to_string(),
        thread_id: None,
        user_id: "u-1".to_string(),
        content_type: MessageContentType::Text,
        content: content.map(|c| c.to_string()),
        content_array: vec![],
        role: MessageType::AIMessage,
        tool_call_id: None,
        tool_calls,
    }
}

fn answer(content: Option<&str>, tool_calls: Option<Vec<ToolCall>>) -> InvocationResult {
    InvocationResult { message: message(content, tool_calls), finish_reason: "stop".to_string() }
}

fn zero() -> ChatCompletionUsage {
    ChatCompletionUsage {
        prompt_tokens: 0,
        completion_tokens: 0,
        total_tokens: 0,
        prompt_tokens_details: None,
        completion_tokens_details: None,
        cost: 0,
    }
}

fn reported() -> CompletionModelUsage {
    CompletionModelUsage {
        input_tokens: 11,
        output_tokens: 7,
        total_tokens: 18,
        prompt_tokens_details: Some(PromptTokensDetails {
            cached_tokens: 3,
            cache_creation_tokens: 2,
            audio_tokens: 1,
        }),
        completion_tokens_details: Some(CompletionTokensDetails {
            accepted_prediction_tokens: 1,
            audio_tokens: 0,
            reasoning_tokens: 4,
            rejected_prediction_tokens: 2,
        }),
        is_cache_used: true,
    }
}

#[test]
fn tool_calls_decide_the_finish_reason() {
    assert_eq!(
        resolve_finish_reason(&message(Some("x"), Some(vec![call()])), "stop"),
        Ok("tool_calls".to_string())
    );
    assert_eq!(
        resolve_finish_reason(&message(None, Some(vec![])), "length"),
        Ok("tool_calls".to_string())
    );
}

#[test]
fn content_takes_the_reported_finish_reason() {
    assert_eq!(resolve_finish_reason(&message(Some("x"), None), "stop"), Ok("stop".to_string()));
    assert_eq!(
        resolve_finish_reason(&message(Some(""), None), "length"),
        Ok("length".to_string())
    );
}

#[test]
fn an_empty_response_is_an_error() {
    let error = resolve_finish_reason(&message(None, None), "stop").unwrap_err();
    assert_eq!(error, ExecutionError::EmptyResponse);
    assert_eq!(error.message(), "No content in response");
}

#[test]
fn errors_say_what_happened() {
    assert_eq!(ExecutionError::Invocation("boom".to_string()).message(), "boom");
    assert_eq!(
        ExecutionError::SinkClosed(Sink::CacheEvents).message(),
        "Cache event sink closed"
    );
    assert_eq!(ExecutionError::SinkClosed(Sink::Outbound).message(), "Outbound event sink closed");
    assert_eq!(
        ExecutionError::SinkClosed(Sink::CacheResponse).message(),
        "Cache response sink closed"
    );
    assert_eq!(ExecutionError::JoinFailed.message(), "Usage task failed");
}

#[test]
fn usage_is_zero_without_a_report() {
    assert_eq!(summarize_usage(None), (zero(), None));
    assert_eq!(summarize_usage(Some(LLMFinishEvent { usage: None })), (zero(), None));
    assert_eq!(ChatCompletionUsage::default(), zero());
}

#[test]
fn usage_is_taken_from_the_report() {
    let (usage, cache_used) = summarize_usage(Some(LLMFinishEvent { usage: Some(reported()) }));
    assert_eq!(usage.prompt_tokens, 11);
    assert_eq!(usage.completion_tokens, 7);
    assert_eq!(usage.total_tokens, 18);
    assert_eq!(usage.prompt_tokens_details, reported().prompt_tokens_details);
    assert_eq!(usage.completion_tokens_details, reported().completion_tokens_details);
    assert_eq!(usage.cost, 0);
    assert_eq!(cache_used, Some(true));

    let cold = CompletionModelUsage { is_cache_used: false, ..reported() };
    assert_eq!(summarize_usage(Some(LLMFinishEvent { usage: Some(cold) })).1, Some(false));
}

#[test]
fn the_label_names_provider_and_model() {
    let known = Some(Model { name: "gpt-4o".to_string(), provider_name: "openai".to_string() });
    assert_eq!(model_label(&known, "fast"), "openai/gpt-4o");
    assert_eq!(model_label(&None, "fast"), "fast");
}

#[test]
fn a_response_has_one_choice() {
    let draft = ResponseDraft {
        model: "openai/gpt-4o".to_string(),
        message: message(Some("hello"), None),
        finish_reason: "stop".to_string(),
        usage: zero(),
        is_cache_used: Some(false),
    };
    let response = ChatCompletionResponse::assemble("id-1".to_string(), 1700000000, draft);
    assert_eq!(response.id, "id-1");
    assert_eq!(response.object, "chat.completion");
    assert_eq!(response.created, 1700000000);
    assert_eq!(response.model, "openai/gpt-4o");
    assert_eq!(response.choices.len(), 1);
    assert_eq!(response.choices[0].index, 0);
    assert_eq!(response.choices[0].message, message(Some("hello"), None));
    assert_eq!(response.choices[0].finish_reason, Some("stop".to_string()));
    assert_eq!(response.usage, zero());
    assert_eq!(response.is_cache_used, Some(false));
}

#[test]
fn an_issued_response_is_stamped() {
    let draft = ResponseDraft {
        model: "m".to_string(),
        message: message(Some("hello"), None),
        finish_reason: "stop".to_string(),
        usage: zero(),
        is_cache_used: None,
    };
    let first = ChatCompletionResponse::issue(draft.clone());
    let second = ChatCompletionResponse::issue(draft);
    assert_eq!(first.id.len(), 36);
    assert_eq!(first.id.matches('-').count(), 4);
    assert_ne!(first.id, second.id);
    assert!(first.created > 1_600_000_000);
    assert!(second.created >= first.created);
    assert_eq!(first.object, "chat.completion");
    assert_eq!(first.choices, second.choices);
    assert_eq!(first.model, "m");
}

#[test]
fn a_full_execution_echoes_joins_and_responds() {
    let pipeline = Pipeline::start(true, true, "openai/gpt-4o".to_string());
    assert_eq!(pipeline.final_message(), None);

    let (pipeline, action) = pipeline.step(PipelineEvent::Invoked(answer(Some("hello"), None)));
    assert_eq!(action, Some(PipelineAction::EchoResponse));
    assert_eq!(pipeline.final_message(), Some(&message(Some("hello"), None)));

    let (pipeline, action) = pipeline.step(PipelineEvent::Echoed);
    assert_eq!(action, Some(PipelineAction::JoinUsage));
    assert_eq!(pipeline.final_message(), Some(&message(Some("hello"), None)));

    let (pipeline, action) =
        pipeline.step(PipelineEvent::Joined(Some(LLMFinishEvent { usage: Some(reported()) })));
    assert_eq!(pipeline, Pipeline::Finished);
    let expected = ResponseDraft {
        model: "openai/gpt-4o".to_string(),
        message: message(Some("hello"), None),
        finish_reason: "stop".to_string(),
        usage: summarize_usage(Some(LLMFinishEvent { usage: Some(reported()) })).0,
        is_cache_used: Some(true),
    };
    assert_eq!(action, Some(PipelineAction::Respond(expected)));
}

#[test]
fn without_a_usage_task_the_response_shows_no_usage() {
    let pipeline = Pipeline::start(false, false, "fast".to_string());
    let (pipeline, action) =
        pipeline.step(PipelineEvent::Invoked(answer(Some("x"), Some(vec![call()]))));
    assert_eq!(pipeline, Pipeline::Finished);
    match action {
        Some(PipelineAction::Respond(draft)) => {
            assert_eq!(draft.usage, zero());
            assert_eq!(draft.is_cache_used, None);
            assert_eq!(draft.finish_reason, "tool_calls");
            assert_eq!(draft.model, "fast");
        }
        other => panic!("unexpected action {:?}", other),
    }
}

#[test]
fn a_joined_task_without_a_report_shows_no_usage() {
    let pipeline = Pipeline::start(false, true, "fast".to_string());
    let (pipeline, action) = pipeline.step(PipelineEvent::Invoked(answer(Some("x"), None)));
    assert_eq!(action, Some(PipelineAction::JoinUsage));
    let (_, action) = pipeline.step(PipelineEvent::Joined(None));
    match action {
        Some(PipelineAction::Respond(draft)) => {
            assert_eq!(draft.usage, zero());
            assert_eq!(draft.is_cache_used, None);
        }
        other => panic!("unexpected action {:?}", other),
    }
}

#[test]
fn an_empty_answer_is_echoed_and_then_fails() {
    let pipeline = Pipeline::start(true, true, "fast".to_string());
    let (pipeline, action) = pipeline.step(PipelineEvent::Invoked(answer(None, None)));
    assert_eq!(action, Some(PipelineAction::EchoResponse));
    let (pipeline, action) = pipeline.step(PipelineEvent::Echoed);
    assert_eq!(action, Some(PipelineAction::Fail(ExecutionError::EmptyResponse)));
    assert_eq!(pipeline, Pipeline::Finished);

    let (_, action) =
        Pipeline::start(false, true, "fast".to_string()).step(PipelineEvent::Invoked(answer(None, None)));
    assert_eq!(action, Some(PipelineAction::Fail(ExecutionError::EmptyResponse)));
}

#[test]
fn failures_outside_end_the_execution() {
    let (pipeline, action) = Pipeline::start(true, true, "fast".to_string())
        .step(PipelineEvent::InvocationFailed("rate limited".to_string()));
    assert_eq!(
        action,
        Some(PipelineAction::Fail(ExecutionError::Invocation("rate limited".to_string())))
    );
    assert_eq!(pipeline, Pipeline::Finished);

    let (pipeline, _) = Pipeline::start(true, true, "fast".to_string())
        .step(PipelineEvent::Invoked(answer(Some("x"), None)));
    let (pipeline, action) = pipeline.step(PipelineEvent::EchoFailed);
    assert_eq!(
        action,
        Some(PipelineAction::Fail(ExecutionError::SinkClosed(Sink::CacheResponse)))
    );
    assert_eq!(pipeline, Pipeline::Finished);

    let (pipeline, _) = Pipeline::start(false, true, "fast".to_string())
        .step(PipelineEvent::Invoked(answer(Some("x"), None)));
    let (pipeline, action) = pipeline.step(PipelineEvent::JoinFailed);
    assert_eq!(action, Some(PipelineAction::Fail(ExecutionError::JoinFailed)));
    assert_eq!(pipeline, Pipeline::Finished);
}

#[test]
fn events_out_of_turn_change_nothing() {
    let start = Pipeline::start(true, true, "fast".to_string());
    let (same, action) = start.clone().step(PipelineEvent::Echoed);
    assert_eq!(action, None);
    assert_eq!(same, start);
    let (same, action) = start.clone().step(PipelineEvent::Joined(None));
    assert_eq!(action, None);
    assert_eq!(same, start);

    let (echoing, _) = start.step(PipelineEvent::Invoked(answer(Some("x"), None)));
    let (same, action) = echoing.clone().step(PipelineEvent::JoinFailed);
    assert_eq!(action, None);
    assert_eq!(same, echoing);

    let (same, action) = Pipeline::Finished.step(PipelineEvent::Echoed);
    assert_eq!(action, None);
    assert_eq!(same, Pipeline::Finished);
}

#[test]
fn a_lost_event_outweighs_the_outcome() {
    let draft = ResponseDraft {
        model: "m".to_string(),
        message: message(Some("hello"), None),
        finish_reason: "stop".to_string(),
        usage: zero(),
        is_cache_used: None,
    };
    assert_eq!(settle(Ok(draft.clone()), None), Ok(draft.clone()));
    assert_eq!(
        settle(Ok(draft), Some(Sink::Outbound)),
        Err(ExecutionError::SinkClosed(Sink::Outbound))
    );
    assert_eq!(
        settle(Err(ExecutionError::EmptyResponse), None),
        Err(ExecutionError::EmptyResponse)
    );
    assert_eq!(
        settle(Err(ExecutionError::Invocation("x".to_string())), Some(Sink::CacheEvents)),
        Err(ExecutionError::SinkClosed(Sink::CacheEvents))
    );
}
