//! The token counters that a provider reports, and the summary of them that
//! goes out with a response.

use vstd::prelude::*;

verus! {

/// Where the tokens of a prompt came from.
#[derive(Debug, Clone, Copy, PartialEq, Eq)]
pub struct PromptTokensDetails {
    pub cached_tokens: u32,
    pub cache_creation_tokens: u32,
    pub audio_tokens: u32,
}

/// What the tokens of a completion were spent on.
#[derive(Debug, Clone, Copy, PartialEq, Eq)]
pub struct CompletionTokensDetails {
    pub accepted_prediction_tokens: u32,
    pub audio_tokens: u32,
    pub reasoning_tokens: u32,
    pub rejected_prediction_tokens: u32,
}

/// The usage that a provider reports for one invocation.
#[derive(Debug, Clone, Copy, PartialEq, Eq)]
pub struct CompletionModelUsage {
    pub input_tokens: u32,
    pub output_tokens: u32,
    pub total_tokens: u32,
    pub prompt_tokens_details: Option<PromptTokensDetails>,
    pub completion_tokens_details: Option<CompletionTokensDetails>,
    pub is_cache_used: bool,
}

/// What the task that watches an invocation reports when the model has
/// finished.
#[derive(Debug, Clone, Copy, PartialEq, Eq)]
pub struct LLMFinishEvent {
    pub usage: Option<CompletionModelUsage>,
}

/// The usage as a response shows it. The cost is counted in whole units of
/// the smallest amount that is billed; nothing is priced here, so it is zero.
#[derive(Debug, Clone, Copy, PartialEq, Eq)]
pub struct ChatCompletionUsage {
    pub prompt_tokens: u32,
    pub completion_tokens: u32,
    pub total_tokens: u32,
    pub prompt_tokens_details: Option<PromptTokensDetails>,
    pub completion_tokens_details: Option<CompletionTokensDetails>,
    pub cost: u64,
}

/// The usage of a response for which nothing was reported: every counter is
/// zero and there are no details.
pub open spec fn no_usage() -> ChatCompletionUsage {
    ChatCompletionUsage {
        prompt_tokens: 0,
        completion_tokens: 0,
        total_tokens: 0,
        prompt_tokens_details: None,
        completion_tokens_details: None,
        cost: 0,
    }
}

/// The usage record in what the watching task reported, if it reported one.
pub open spec fn reported_usage(finish: Option<LLMFinishEvent>) -> Option<CompletionModelUsage> {
    match finish {
        Some(event) => event.usage,
        None => None,
    }
}

/// The summary of a usage record, and whether the cache was used. Without a
/// record the summary is [`no_usage`] and nothing is known of the cache.
pub open spec fn usage_summary(usage: Option<CompletionModelUsage>) -> (
    ChatCompletionUsage,
    Option<bool>,
) {
    match usage {
        Some(usage) => (
            ChatCompletionUsage {
                prompt_tokens: usage.input_tokens,
                completion_tokens: usage.output_tokens,
                total_tokens: usage.total_tokens,
                prompt_tokens_details: usage.prompt_tokens_details,
                completion_tokens_details: usage.completion_tokens_details,
                cost: 0,
            },
            Some(usage.is_cache_used),
        ),
        None => (no_usage(), None),
    }
}

impl Default for ChatCompletionUsage {
    fn default() -> (usage: ChatCompletionUsage)
        ensures
            usage == no_usage(),
    {
        ChatCompletionUsage {
            prompt_tokens: 0,
            completion_tokens: 0,
            total_tokens: 0,
            prompt_tokens_details: None,
            completion_tokens_details: None,
            cost: 0,
        }
    }
}

/// Summarises the usage that the watching task reported: the summary for the
/// response, and whether the cache was used.
pub fn summarize_usage(finish: Option<LLMFinishEvent>) -> (summary: (
    ChatCompletionUsage,
    Option<bool>,
))
    ensures
        summary == usage_summary(reported_usage(finish)),
        finish is None ==> summary == (no_usage(), None::<bool>),
{
    let usage = match finish {
        Some(event) => event.usage,
        None => None,
    };
    match usage {
        Some(usage) => (
            ChatCompletionUsage {
                prompt_tokens: usage.input_tokens,
                completion_tokens: usage.output_tokens,
                total_tokens: usage.total_tokens,
                prompt_tokens_details: usage.prompt_tokens_details,
                completion_tokens_details: usage.completion_tokens_details,
                cost: 0,
            },
            Some(usage.is_cache_used),
        ),
        None => (ChatCompletionUsage::default(), None),
    }
}

} // verus!
