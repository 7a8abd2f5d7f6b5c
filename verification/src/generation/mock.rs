//! A generator that answers without a model: the prefix and the start of
//! the prompt, streamed word by word. It stands in for a model in tests and
//! demos; its clock and delays are the caller's.
use vstd::prelude::*;

use crate::generation::types::{GenerationOutput, StreamEvent};
use crate::json::string_views;
use crate::text::{char_is_whitespace, chars_of, chars_slice, is_white_space, push_str, string_from_chars};

verus! {

/// The prompt tokens and completion tokens the mock reports.
pub const MOCK_PROMPT_TOKENS: u32 = 10;
pub const MOCK_COMPLETION_TOKENS: u32 = 20;

/// How many characters of the prompt the mock's answer repeats.
pub const MOCK_PROMPT_CHARS: usize = 120;

/// The mock generator: what its answers begin with, and how long it waits
/// before each streamed word.
#[derive(Clone, Debug)]
pub struct MockGenerator {
    pub response_prefix: String,
    pub stream_delay_ms: u64,
}

impl Default for MockGenerator {
    fn default() -> (r: Self)
        ensures
            r.response_prefix@ == "Mock answer: "@,
            r.stream_delay_ms == 0,
    {
        MockGenerator { response_prefix: String::from_str("Mock answer: "), stream_delay_ms: 0 }
    }
}

/// The mock's answer: the prefix, then the prompt's first 120 characters.
pub open spec fn mock_answer(prefix: Seq<char>, user_prompt: Seq<char>) -> Seq<char> {
    prefix + if user_prompt.len() <= MOCK_PROMPT_CHARS {
        user_prompt
    } else {
        user_prompt.subrange(0, MOCK_PROMPT_CHARS as int)
    }
}

/// The words of `s`, as `str::split_whitespace` hands them out: the
/// maximal runs of characters that are not white space.
pub open spec fn split_words(s: Seq<char>) -> Seq<Seq<char>>
    decreases s.len(),
{
    if s.len() == 0 {
        Seq::empty()
    } else {
        let w = split_words(s.drop_last());
        let c = s.last();
        if is_white_space(c) {
            w
        } else if s.len() >= 2 && !is_white_space(s[s.len() - 2]) {
            w.drop_last().push(w.last().push(c))
        } else {
            w.push(seq![c])
        }
    }
}

/// What a streamed word is sent as: the first as it is, each later one
/// after a space.
pub open spec fn word_delta(words: Seq<Seq<char>>, i: int) -> Seq<char> {
    if i == 0 {
        words[0]
    } else {
        " "@ + words[i]
    }
}

/// Splits `text` into its words, as `str::split_whitespace` does.
pub fn split_whitespace_words(text: &str) -> (r: Vec<String>)
    ensures
        string_views(r@) == split_words(text@),
{
    let v = chars_of(text);
    let mut done: Vec<String> = Vec::new();
    let mut cur: Vec<char> = Vec::new();
    let mut in_word = false;
    let mut i: usize = 0;
    assert(v@.take(0) == Seq::<char>::empty());
    while i < v.len()
        invariant
            i <= v@.len(),
            v@ == text@,
            in_word == (i > 0 && !is_white_space(v@[i - 1])),
            in_word ==> cur@.len() > 0 && split_words(v@.take(i as int)) == string_views(done@).push(cur@),
            !in_word ==> split_words(v@.take(i as int)) == string_views(done@),
        decreases v@.len() - i,
    {
        let c = v[i];
        let ghost s = v@.take(i + 1);
        assert(s.drop_last() == v@.take(i as int));
        assert(s.last() == c);
        if i > 0 {
            assert(s[s.len() - 2] == v@[i - 1]);
        }
        if char_is_whitespace(c) {
            if in_word {
                let w = string_from_chars(&cur);
                done.push(w);
                cur = Vec::new();
                assert(string_views(done@) == string_views(done@.drop_last()).push(w@));
            }
            in_word = false;
        } else {
            if in_word {
                let ghost before = string_views(done@).push(cur@);
                cur.push(c);
                assert(before.drop_last() == string_views(done@));
            } else {
                cur = Vec::new();
                cur.push(c);
                assert(cur@ == seq![c]);
            }
            in_word = true;
        }
        i += 1;
    }
    if in_word {
        let w = string_from_chars(&cur);
        done.push(w);
        assert(string_views(done@) == string_views(done@.drop_last()).push(w@));
    }
    assert(v@.take(v@.len() as int) == v@);
    done
}

/// The deltas a streamed answer is sent as, one per word.
pub fn stream_deltas(text: &str) -> (r: Vec<String>)
    ensures
        r@.len() == split_words(text@).len(),
        forall|i: int| 0 <= i < r@.len() ==> (#[trigger] r@[i])@ == word_delta(split_words(text@), i),
{
    let words = split_whitespace_words(text);
    let ghost ws = split_words(text@);
    let mut r: Vec<String> = Vec::new();
    let mut i: usize = 0;
    while i < words.len()
        invariant
            i <= words@.len(),
            string_views(words@) == ws,
            r@.len() == i,
            forall|k: int| 0 <= k < i ==> (#[trigger] r@[k])@ == word_delta(ws, k),
        decreases words@.len() - i,
    {
        assert(words@[i as int]@ == ws[i as int]);
        if i == 0 {
            r.push(words[i].clone());
        } else {
            let mut d = String::new();
            push_str(&mut d, " ");
            push_str(&mut d, words[i].as_str());
            r.push(d);
        }
        i += 1;
    }
    r
}

impl MockGenerator {
    /// The answer to a user prompt.
    pub fn answer_text(&self, user_prompt: &str) -> (r: String)
        ensures
            r@ == mock_answer(self.response_prefix@, user_prompt@),
    {
        let v = chars_of(user_prompt);
        let end = if v.len() <= MOCK_PROMPT_CHARS { v.len() } else { MOCK_PROMPT_CHARS };
        let head = string_from_chars(&chars_slice(&v, 0, end));
        let mut out = String::new();
        push_str(&mut out, self.response_prefix.as_str());
        push_str(&mut out, head.as_str());
        proof {
            if v@.len() <= MOCK_PROMPT_CHARS {
                assert(v@.subrange(0, end as int) == user_prompt@);
            }
        }
        out
    }

    /// The output of an answer that took `elapsed_ms`, with the mock's token
    /// counts.
    pub fn output(&self, user_prompt: &str, elapsed_ms: i64) -> (r: GenerationOutput)
        ensures
            r.text@ == mock_answer(self.response_prefix@, user_prompt@),
            r.generation_ms == elapsed_ms,
            r.generation_total_ms == elapsed_ms,
            r.prompt_tokens == Some(MOCK_PROMPT_TOKENS),
            r.completion_tokens == Some(MOCK_COMPLETION_TOKENS),
    {
        GenerationOutput {
            text: self.answer_text(user_prompt),
            generation_ms: elapsed_ms,
            generation_total_ms: elapsed_ms,
            prompt_tokens: Some(MOCK_PROMPT_TOKENS),
            completion_tokens: Some(MOCK_COMPLETION_TOKENS),
        }
    }

    /// The event that ends a stream that took `total_ms`: the generation
    /// time is the delay per word when there is one.
    pub fn done_event(&self, total_ms: i64) -> (r: StreamEvent)
        ensures
            r == (StreamEvent::Done {
                generation_ms: if self.stream_delay_ms > 0 { self.stream_delay_ms as i64 } else { total_ms },
                generation_total_ms: total_ms,
                prompt_tokens: Some(MOCK_PROMPT_TOKENS),
                completion_tokens: Some(MOCK_COMPLETION_TOKENS),
            }),
    {
        let generation_ms: i64 = if self.stream_delay_ms > 0 { self.stream_delay_ms as i64 } else { total_ms };
        StreamEvent::Done {
            generation_ms,
            generation_total_ms: total_ms,
            prompt_tokens: Some(MOCK_PROMPT_TOKENS),
            completion_tokens: Some(MOCK_COMPLETION_TOKENS),
        }
    }
}

} // verus!
