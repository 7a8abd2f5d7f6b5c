//! The prompt a generation sends: the system prompt as it was resolved,
//! and the question with the retrieved sources set before it.
use vstd::prelude::*;

use crate::text::{chars_of, decimal, joined, push_decimal, push_joined, push_str};

verus! {

/// A retrieved passage as the prompt cites it.
#[derive(Clone, Debug)]
pub struct PromptSource {
    pub source_id: String,
    pub source_name: String,
    pub citation_id: String,
    pub content: String,
}

/// How the passage at position `idx` (from 0) is set in the context:
/// numbered from 1, with its source and citation, then its text on the
/// next line.
pub open spec fn context_part(idx: nat, m: PromptSource) -> Seq<char> {
    "[source "@ + decimal(idx + 1) + "] (source_id="@ + m.source_id@ + ", source_name="@ + m.source_name@
        + ", citation_id="@ + m.citation_id@ + ")\n"@ + m.content@
}

/// The context parts of the passages, in order.
pub open spec fn context_parts(sources: Seq<PromptSource>) -> Seq<Seq<char>>
    decreases sources.len(),
{
    if sources.len() == 0 {
        Seq::empty()
    } else {
        context_parts(sources.drop_last()).push(context_part((sources.len() - 1) as nat, sources.last()))
    }
}

/// The context: the parts, separated by a rule between blank lines.
pub open spec fn prompt_context(sources: Seq<PromptSource>) -> Seq<char> {
    joined(context_parts(sources), "\n\n---\n\n"@)
}

/// The user prompt: the question alone when the context is empty, else the
/// context, then the question.
pub open spec fn user_prompt(query_text: Seq<char>, sources: Seq<PromptSource>) -> Seq<char> {
    let context = prompt_context(sources);
    if context.len() == 0 {
        query_text
    } else {
        "Use the following context to answer the question.\n\nContext:\n"@ + context + "\n\nQuestion: "@ + query_text
    }
}

/// The system and user prompts of a generation.
pub fn build_prompt(system_prompt: &str, query_text: &str, sources: &Vec<PromptSource>) -> (r: (String, String))
    ensures
        r.0@ == system_prompt@,
        r.1@ == user_prompt(query_text@, sources@),
{
    let mut parts: Vec<String> = Vec::new();
    let mut idx: usize = 0;
    while idx < sources.len()
        invariant
            idx <= sources@.len(),
            parts@.map_values(|p: String| p@) == context_parts(sources@.subrange(0, idx as int)),
        decreases sources@.len() - idx,
    {
        let m = &sources[idx];
        let mut part = String::new();
        push_str(&mut part, "[source ");
        push_decimal(&mut part, idx as u64 + 1);
        push_str(&mut part, "] (source_id=");
        push_str(&mut part, m.source_id.as_str());
        push_str(&mut part, ", source_name=");
        push_str(&mut part, m.source_name.as_str());
        push_str(&mut part, ", citation_id=");
        push_str(&mut part, m.citation_id.as_str());
        push_str(&mut part, ")\n");
        push_str(&mut part, m.content.as_str());
        proof {
            let next = sources@.subrange(0, idx + 1);
            assert(next.drop_last() == sources@.subrange(0, idx as int));
            assert(next.last() == sources@[idx as int]);
            assert(part@ == context_part(idx as nat, sources@[idx as int]));
        }
        parts.push(part);
        proof {
            assert(parts@.map_values(|p: String| p@) == context_parts(sources@.subrange(0, idx as int)).push(
                context_part(idx as nat, sources@[idx as int]),
            ));
        }
        idx += 1;
    }
    assert(sources@.subrange(0, sources@.len() as int) == sources@);
    let mut context = String::new();
    push_joined(&mut context, &parts, "\n\n---\n\n");
    assert(context@ == prompt_context(sources@));
    let user = if chars_of(context.as_str()).len() == 0 {
        String::from_str(query_text)
    } else {
        let mut u = String::new();
        push_str(&mut u, "Use the following context to answer the question.\n\nContext:\n");
        push_str(&mut u, context.as_str());
        push_str(&mut u, "\n\nQuestion: ");
        push_str(&mut u, query_text);
        u
    };
    (String::from_str(system_prompt), user)
}

} // verus!
