//! What a generation produces: the answer, its usage and timings, and the
//! events a streamed answer is sent as.
use vstd::prelude::*;

use crate::text::{chars_of, chars_trim, string_from_chars, trim};

verus! {

/// The largest number of tokens an answer may take when none is asked for.
pub const DEFAULT_MAX_TOKENS: u32 = 5096;

/// A generated answer and the model that wrote it.
#[derive(Clone, Debug)]
pub struct GeneratedAnswer {
    pub text: String,
    pub llm_model_id: String,
    pub llm_model_tag: String,
}

/// The tokens a generation used.
#[derive(Clone, Debug)]
pub struct QueryUsage {
    pub prompt_tokens: Option<u32>,
    pub completion_tokens: Option<u32>,
}

/// A finished generation with its timings.
#[derive(Clone, Debug)]
pub struct GenerationOutput {
    pub text: String,
    pub generation_ms: i64,
    pub generation_total_ms: i64,
    pub prompt_tokens: Option<u32>,
    pub completion_tokens: Option<u32>,
}

/// An event of a streamed answer.
#[derive(Clone, Debug)]
pub enum StreamEvent {
    Token { delta: String },
    Done {
        generation_ms: i64,
        generation_total_ms: i64,
        prompt_tokens: Option<u32>,
        completion_tokens: Option<u32>,
    },
}

/// The answer of a generation by the model `llm_model_id` (tagged
/// `llm_model_tag`).
pub fn build_answer(llm_model_id: &str, llm_model_tag: &str, output: &GenerationOutput) -> (r: GeneratedAnswer)
    ensures
        r.text@ == output.text@,
        r.llm_model_id@ == llm_model_id@,
        r.llm_model_tag@ == llm_model_tag@,
{
    GeneratedAnswer {
        text: output.text.clone(),
        llm_model_id: String::from_str(llm_model_id),
        llm_model_tag: String::from_str(llm_model_tag),
    }
}

/// The usage a query reports for a generation.
pub fn usage_of(output: &GenerationOutput) -> (r: QueryUsage)
    ensures
        r.prompt_tokens == output.prompt_tokens,
        r.completion_tokens == output.completion_tokens,
{
    QueryUsage { prompt_tokens: output.prompt_tokens, completion_tokens: output.completion_tokens }
}

/// The system prompt of a generation request: given and not blank, trimmed.
pub fn resolve_system_prompt(system_prompt: Option<&str>) -> (r: Result<String, String>)
    ensures
        match system_prompt {
            Some(p) => if trim(p@).len() > 0 {
                r matches Ok(x) && x@ == trim(p@)
            } else {
                r matches Err(m) && m@ == "generation.system_prompt is required"@
            },
            None => r matches Err(m) && m@ == "generation.system_prompt is required"@,
        },
{
    match system_prompt {
        Some(p) => {
            let t = chars_trim(&chars_of(p));
            if t.len() > 0 {
                Ok(string_from_chars(&t))
            } else {
                Err(String::from_str("generation.system_prompt is required"))
            }
        },
        None => Err(String::from_str("generation.system_prompt is required")),
    }
}

/// The model a generation uses: its tag, given and not blank, trimmed.
pub fn resolve_generation_tag(tag: Option<&str>) -> (r: Result<String, String>)
    ensures
        match tag {
            Some(t) => if trim(t@).len() > 0 {
                r matches Ok(x) && x@ == trim(t@)
            } else {
                r matches Err(m) && m@ == "generation.tag is required"@
            },
            None => r matches Err(m) && m@ == "generation.tag is required"@,
        },
{
    match tag {
        Some(t) => {
            let v = chars_trim(&chars_of(t));
            if v.len() > 0 {
                Ok(string_from_chars(&v))
            } else {
                Err(String::from_str("generation.tag is required"))
            }
        },
        None => Err(String::from_str("generation.tag is required")),
    }
}

/// The timings of a query, in milliseconds: the search's segments, the
/// generation's where one ran, and the total spent in the service.
#[derive(Clone, Copy, Debug)]
pub struct QueryLatency {
    pub upstream_ms: Option<i64>,
    pub embed_ms: i64,
    pub search_ms: i64,
    pub rerank_ms: Option<i64>,
    pub store_ms: i64,
    pub generation_ms: Option<i64>,
    pub generation_total_ms: Option<i64>,
    pub total_ragdoll_ms: i64,
}

/// What a query answers besides its retrieved passages (which the caller
/// holds): its id, its timings, and the generated answer with its usage
/// where one was asked for.
#[derive(Clone, Debug)]
pub struct QueryResult {
    pub query_id: String,
    pub latency: QueryLatency,
    pub usage: Option<QueryUsage>,
    pub answer: Option<GeneratedAnswer>,
}

/// Adds a generated answer to a query's result: the generation's timings
/// join the query's, its time counts into the total, and its usage is
/// reported.
pub fn attach_generation(result: QueryResult, answer: GeneratedAnswer, output: &GenerationOutput) -> (r: QueryResult)
    requires
        i64::MIN <= result.latency.total_ragdoll_ms + output.generation_total_ms <= i64::MAX,
    ensures
        r.query_id == result.query_id,
        r.latency == (QueryLatency {
            generation_ms: Some(output.generation_ms),
            generation_total_ms: Some(output.generation_total_ms),
            total_ragdoll_ms: (result.latency.total_ragdoll_ms + output.generation_total_ms) as i64,
            ..result.latency
        }),
        r.usage matches Some(u) && u.prompt_tokens == output.prompt_tokens && u.completion_tokens == output.completion_tokens,
        r.answer == Some(answer),
{
    let mut result = result;
    result.latency.generation_ms = Some(output.generation_ms);
    result.latency.generation_total_ms = Some(output.generation_total_ms);
    result.latency.total_ragdoll_ms = result.latency.total_ragdoll_ms + output.generation_total_ms;
    result.usage = Some(usage_of(output));
    result.answer = Some(answer);
    result
}

} // verus!
