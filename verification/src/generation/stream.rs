//! How the events of a model's chat stream become the events of a streamed
//! answer: text chunks are passed on as tokens, the time to the first one
//! is kept, and the end of the stream (with or without usage) closes it.
use vstd::prelude::*;

use crate::generation::types::StreamEvent;

verus! {

/// An event of a model's chat stream, as far as the answer cares.
#[derive(Clone, Debug)]
pub enum ChatStreamStep {
    Start,
    Chunk(String),
    ReasoningChunk,
    ThoughtSignatureChunk,
    ToolCallChunk,
    /// The end, with the usage the model reported, if any.
    End { prompt_tokens: Option<u32>, completion_tokens: Option<u32> },
}

/// What to do after a chat stream event.
#[derive(Clone, Debug)]
pub enum StreamStep {
    /// Send this event on.
    Emit(StreamEvent),
    /// Nothing to send: read the next chat event.
    Skip,
    /// The answer's stream is over.
    Finished,
}

/// Where the translation of a chat stream stands.
#[derive(Clone, Copy, Debug)]
pub struct ChatStreamState {
    pub first_token_ms: Option<i64>,
    pub finished: bool,
}

/// The closing event: the generation time is the time to the first token
/// (the total when none came).
pub open spec fn closing_event(first_token_ms: Option<i64>, total_ms: i64, prompt_tokens: Option<u32>, completion_tokens: Option<u32>) -> StreamEvent {
    StreamEvent::Done {
        generation_ms: match first_token_ms {
            Some(t) => t,
            None => total_ms,
        },
        generation_total_ms: total_ms,
        prompt_tokens,
        completion_tokens,
    }
}

impl ChatStreamState {
    /// Before the first event.
    pub fn new() -> (r: Self)
        ensures
            r.first_token_ms is None,
            !r.finished,
    {
        ChatStreamState { first_token_ms: None, finished: false }
    }

    /// Takes in a chat event that arrived `elapsed_ms` after the start.
    pub fn on_event(&mut self, event: ChatStreamStep, elapsed_ms: i64) -> (r: StreamStep)
        ensures
            old(self).finished ==> (r is Finished && *final(self) == *old(self)),
            !old(self).finished ==> match event {
                ChatStreamStep::Chunk(text) => {
                    &&& r matches StreamStep::Emit(StreamEvent::Token { delta }) && delta@ == text@
                    &&& final(self).first_token_ms == match old(self).first_token_ms {
                        Some(t) => Some(t),
                        None => Some(elapsed_ms),
                    }
                    &&& !final(self).finished
                },
                ChatStreamStep::End { prompt_tokens, completion_tokens } => {
                    &&& r matches StreamStep::Emit(e) && e == closing_event(
                        old(self).first_token_ms,
                        elapsed_ms,
                        prompt_tokens,
                        completion_tokens,
                    )
                    &&& final(self).finished
                    &&& final(self).first_token_ms == old(self).first_token_ms
                },
                _ => r is Skip && *final(self) == *old(self),
            },
    {
        if self.finished {
            return StreamStep::Finished;
        }
        match event {
            ChatStreamStep::Chunk(text) => {
                if self.first_token_ms.is_none() {
                    self.first_token_ms = Some(elapsed_ms);
                }
                StreamStep::Emit(StreamEvent::Token { delta: text })
            },
            ChatStreamStep::End { prompt_tokens, completion_tokens } => {
                self.finished = true;
                let generation_ms = match self.first_token_ms {
                    Some(t) => t,
                    None => elapsed_ms,
                };
                StreamStep::Emit(
                    StreamEvent::Done { generation_ms, generation_total_ms: elapsed_ms, prompt_tokens, completion_tokens },
                )
            },
            _ => StreamStep::Skip,
        }
    }

    /// The chat stream ran out `elapsed_ms` after the start: the answer is
    /// closed without usage, unless it was closed already.
    pub fn on_exhausted(&mut self, elapsed_ms: i64) -> (r: StreamStep)
        ensures
            old(self).finished ==> (r is Finished && *final(self) == *old(self)),
            !old(self).finished ==> (r matches StreamStep::Emit(e) && e == closing_event(
                old(self).first_token_ms,
                elapsed_ms,
                None,
                None,
            ) && final(self).finished && final(self).first_token_ms == old(self).first_token_ms),
    {
        if self.finished {
            return StreamStep::Finished;
        }
        self.finished = true;
        let generation_ms = match self.first_token_ms {
            Some(t) => t,
            None => elapsed_ms,
        };
        StreamStep::Emit(
            StreamEvent::Done { generation_ms, generation_total_ms: elapsed_ms, prompt_tokens: None, completion_tokens: None },
        )
    }
}

} // verus!
