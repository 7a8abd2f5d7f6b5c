//! Running queries: how a batch of queries is run, what a streamed query
//! must hold, and the events its answer is sent as. The retrieved sources go first, then the search
//! timings, then each token of the answer, then a final event with the
//! answer, its timings and its usage. Sending is the caller's part.
use vstd::prelude::*;

use crate::api::batch::{is_api_error, ApiError};
use crate::generation::types::{QueryLatency, StreamEvent};
use crate::json::{json_members, json_string_literal, member_views, quote_json_string, write_json_members};
use crate::text::{chars_of, chars_trim, decimal, push_decimal, push_signed_decimal, push_str, signed_decimal, trim};

verus! {

/// Why a streamed query is refused before it runs, if it is.
pub open spec fn stream_request_problem(text: Seq<char>, stream: Option<bool>) -> Option<Seq<char>> {
    if trim(text).len() == 0 {
        Some("query text required"@)
    } else if stream is None {
        Some("generation object required for streaming"@)
    } else if stream == Some(false) {
        Some("generation.stream must be true"@)
    } else {
        None
    }
}

/// Checks a streamed query: its text must not be blank, and it must ask
/// for a streamed generation (`stream` is the request's `generation.stream`,
/// `None` when it has no generation).
pub fn check_stream_request(text: &str, stream: Option<bool>) -> (r: Result<(), ApiError>)
    ensures
        match stream_request_problem(text@, stream) {
            None => r is Ok,
            Some(d) => r matches Err(e) && is_api_error(e, 400, "Bad Request"@, d),
        },
{
    if chars_trim(&chars_of(text)).len() == 0 {
        return Err(ApiError::bad_request(String::from_str("query text required")));
    }
    match stream {
        None => Err(ApiError::bad_request(String::from_str("generation object required for streaming"))),
        Some(false) => Err(ApiError::bad_request(String::from_str("generation.stream must be true"))),
        Some(true) => Ok(()),
    }
}

/// `null`, or the number.
pub open spec fn opt_i64_json(n: Option<i64>) -> Seq<char> {
    match n {
        Some(v) => signed_decimal(v as int),
        None => "null"@,
    }
}

/// `null`, or the number.
pub open spec fn opt_u32_json(n: Option<u32>) -> Seq<char> {
    match n {
        Some(v) => decimal(v as nat),
        None => "null"@,
    }
}

fn member(key: &str, value: String) -> (r: (String, String))
    ensures
        r.0@ == key@,
        r.1@ == value@,
{
    (String::from_str(key), value)
}

fn int_text(n: i64) -> (r: String)
    ensures
        r@ == signed_decimal(n as int),
{
    let mut s = String::new();
    push_signed_decimal(&mut s, n);
    s
}

fn opt_i64_text(n: Option<i64>) -> (r: String)
    ensures
        r@ == opt_i64_json(n),
{
    match n {
        Some(v) => int_text(v),
        None => String::from_str("null"),
    }
}

fn opt_u32_text(n: Option<u32>) -> (r: String)
    ensures
        r@ == opt_u32_json(n),
{
    match n {
        Some(v) => {
            let mut s = String::new();
            push_decimal(&mut s, v as u64);
            s
        },
        None => String::from_str("null"),
    }
}

/// The search timings, one segment after the other: the upstream time (0
/// when unknown), embedding, search, reranking where it ran, storing.
pub open spec fn latency_segments(l: QueryLatency) -> Seq<(Seq<char>, i64)> {
    let head = seq![
        ("upstream_ms"@, match l.upstream_ms { Some(v) => v, None => 0i64 }),
        ("embed_ms"@, l.embed_ms),
        ("search_ms"@, l.search_ms),
    ];
    let with_rerank = match l.rerank_ms {
        Some(r) => head.push(("rerank_ms"@, r)),
        None => head,
    };
    with_rerank.push(("store_ms"@, l.store_ms))
}

/// The payload of one segment's event.
pub open spec fn segment_payload(name: Seq<char>, ms: i64) -> Option<Seq<char>> {
    json_members(seq![("segment"@, "\""@ + name + "\""@), ("ms"@, signed_decimal(ms as int)), ("final"@, "false"@)])
}

/// The payload of the event that sums up the search timings.
pub open spec fn latency_summary_payload(l: QueryLatency) -> Option<Seq<char>> {
    json_members(
        seq![
            ("final"@, "false"@),
            ("upstream_ms"@, opt_i64_json(l.upstream_ms)),
            ("embed_ms"@, signed_decimal(l.embed_ms as int)),
            ("search_ms"@, signed_decimal(l.search_ms as int)),
            ("rerank_ms"@, opt_i64_json(l.rerank_ms)),
            ("store_ms"@, signed_decimal(l.store_ms as int)),
            ("total_ragdoll_ms"@, signed_decimal(l.total_ragdoll_ms as int)),
        ],
    )
}

/// The payloads of the `latency` events: one per segment, then the sum-up.
pub open spec fn latency_payloads(l: QueryLatency) -> Seq<Option<Seq<char>>> {
    latency_segments(l).map_values(|s: (Seq<char>, i64)| segment_payload(s.0, s.1)).push(latency_summary_payload(l))
}

fn segment_event(name: &str, ms: i64) -> (r: Option<String>)
    ensures
        match segment_payload(name@, ms) {
            Some(t) => r matches Some(s) && s@ == t,
            None => r is None,
        },
{
    let mut seg = String::new();
    push_str(&mut seg, "\"");
    push_str(&mut seg, name);
    push_str(&mut seg, "\"");
    let mut m: Vec<(String, String)> = Vec::new();
    m.push(member("segment", seg));
    m.push(member("ms", int_text(ms)));
    m.push(member("final", String::from_str("false")));
    assert(member_views(m@) == seq![("segment"@, "\""@ + name@ + "\""@), ("ms"@, signed_decimal(ms as int)), ("final"@, "false"@)]);
    write_json_members(&m)
}

fn segment_list(l: &QueryLatency) -> (r: Vec<(&'static str, i64)>)
    ensures
        r@.len() == latency_segments(*l).len(),
        forall|i: int| 0 <= i < r@.len() ==> (#[trigger] r@[i]).0@ == latency_segments(*l)[i].0 && r@[i].1 == latency_segments(*l)[i].1,
{
    let mut r: Vec<(&'static str, i64)> = Vec::new();
    let upstream: i64 = match l.upstream_ms {
        Some(v) => v,
        None => 0,
    };
    r.push(("upstream_ms", upstream));
    r.push(("embed_ms", l.embed_ms));
    r.push(("search_ms", l.search_ms));
    match l.rerank_ms {
        Some(v) => r.push(("rerank_ms", v)),
        None => {},
    }
    r.push(("store_ms", l.store_ms));
    r
}

/// The payloads of the `latency` events, as `latency_payloads` says
/// (`None` where one cannot be written).
pub fn latency_event_payloads(l: &QueryLatency) -> (r: Option<Vec<String>>)
    ensures
        match r {
            Some(v) => v@.len() == latency_payloads(*l).len() && forall|i: int|
                0 <= i < v@.len() ==> latency_payloads(*l)[i] == Some((#[trigger] v@[i])@),
            None => exists|i: int| 0 <= i < latency_payloads(*l).len() && (#[trigger] latency_payloads(*l)[i]) is None,
        },
{
    let segments = segment_list(l);
    let ghost specs = latency_payloads(*l);
    let mut out: Vec<String> = Vec::new();
    let mut i: usize = 0;
    while i < segments.len()
        invariant
            i <= segments@.len(),
            segments@.len() == latency_segments(*l).len(),
            specs == latency_payloads(*l),
            specs.len() == segments@.len() + 1,
            forall|k: int| 0 <= k < segments@.len() ==> (#[trigger] segments@[k]).0@ == latency_segments(*l)[k].0 && segments@[k].1 == latency_segments(*l)[k].1,
            out@.len() == i,
            forall|k: int| 0 <= k < i ==> specs[k] == Some((#[trigger] out@[k])@),
        decreases segments@.len() - i,
    {
        let (name, ms) = segments[i];
        assert(specs[i as int] == segment_payload(latency_segments(*l)[i as int].0, latency_segments(*l)[i as int].1));
        match segment_event(name, ms) {
            Some(p) => out.push(p),
            None => {
                assert(specs[i as int] is None);
                return None;
            },
        }
        i += 1;
    }
    let mut m: Vec<(String, String)> = Vec::new();
    m.push(member("final", String::from_str("false")));
    m.push(member("upstream_ms", opt_i64_text(l.upstream_ms)));
    m.push(member("embed_ms", int_text(l.embed_ms)));
    m.push(member("search_ms", int_text(l.search_ms)));
    m.push(member("rerank_ms", opt_i64_text(l.rerank_ms)));
    m.push(member("store_ms", int_text(l.store_ms)));
    m.push(member("total_ragdoll_ms", int_text(l.total_ragdoll_ms)));
    assert(member_views(m@) == seq![
        ("final"@, "false"@),
        ("upstream_ms"@, opt_i64_json(l.upstream_ms)),
        ("embed_ms"@, signed_decimal(l.embed_ms as int)),
        ("search_ms"@, signed_decimal(l.search_ms as int)),
        ("rerank_ms"@, opt_i64_json(l.rerank_ms)),
        ("store_ms"@, signed_decimal(l.store_ms as int)),
        ("total_ragdoll_ms"@, signed_decimal(l.total_ragdoll_ms as int)),
    ]);
    let last = segments.len();
    match write_json_members(&m) {
        Some(p) => out.push(p),
        None => {
            assert(specs[last as int] is None);
            return None;
        },
    }
    Some(out)
}

/// The payload of a `token` event.
pub open spec fn token_payload(delta: Seq<char>) -> Option<Seq<char>> {
    match json_string_literal(delta) {
        Some(q) => json_members(seq![("delta"@, q)]),
        None => None,
    }
}

/// Writes the payload of a `token` event.
pub fn token_event_payload(delta: &str) -> (r: Option<String>)
    ensures
        match token_payload(delta@) {
            Some(t) => r matches Some(s) && s@ == t,
            None => r is None,
        },
{
    let q = match quote_json_string(delta) {
        Some(q) => q,
        None => return None,
    };
    let mut m: Vec<(String, String)> = Vec::new();
    m.push(member("delta", q));
    assert(member_views(m@) == seq![("delta"@, q@)]);
    write_json_members(&m)
}

/// What a stream of generation events has brought so far: the answer's
/// text, and the final timings and usage once they came.
pub struct StreamCollector {
    pub answer: String,
    pub done: Option<(i64, i64, Option<u32>, Option<u32>)>,
}

impl StreamCollector {
    /// Nothing received yet.
    pub fn new() -> (r: Self)
        ensures
            r.answer@ == Seq::<char>::empty(),
            r.done is None,
    {
        StreamCollector { answer: String::new(), done: None }
    }

    /// Takes in the next event: a token's text is appended to the answer
    /// and handed back to be sent on; the final event's timings and usage
    /// are kept (the last one counts) and nothing is sent for it.
    pub fn on_event(&mut self, event: StreamEvent) -> (r: Option<String>)
        ensures
            match event {
                StreamEvent::Token { delta } => {
                    &&& final(self).answer@ == old(self).answer@ + delta@
                    &&& final(self).done == old(self).done
                    &&& r matches Some(d) && d@ == delta@
                },
                StreamEvent::Done { generation_ms, generation_total_ms, prompt_tokens, completion_tokens } => {
                    &&& final(self).answer@ == old(self).answer@
                    &&& final(self).done == Some((generation_ms, generation_total_ms, prompt_tokens, completion_tokens))
                    &&& r is None
                },
            },
    {
        match event {
            StreamEvent::Token { delta } => {
                push_str(&mut self.answer, delta.as_str());
                Some(delta)
            },
            StreamEvent::Done { generation_ms, generation_total_ms, prompt_tokens, completion_tokens } => {
                self.done = Some((generation_ms, generation_total_ms, prompt_tokens, completion_tokens));
                None
            },
        }
    }
}

/// Where the sending of a streamed answer stands.
#[derive(Clone, Copy, Debug, PartialEq, Eq, Structural)]
pub enum StreamPhase {
    /// The retrieved sources go out first.
    Sources,
    /// The search timing event at this position goes out next.
    Latency(usize),
    /// The generation is to be started.
    Starting,
    /// The generation runs: its next item is awaited, or a token is being
    /// sent on.
    Generating,
    /// Nothing more goes out.
    Finished,
}

/// What the driver of a streamed answer does next.
#[derive(Debug)]
pub enum StreamAction {
    /// Send the `sources` event.
    SendSources,
    /// Send the search timing event at this position.
    SendLatency(usize),
    /// Start the generation.
    StartGeneration,
    /// Await the generation's next item.
    NextItem,
    /// Send a `token` event with this text.
    SendToken(String),
    /// Send an `error` event with this message; nothing follows it.
    SendError(String),
    /// Store the metrics and send the `done` event for the answer; nothing
    /// follows it.
    SendDone { answer: String, done: (i64, i64, Option<u32>, Option<u32>) },
    /// Stop: nothing more is sent.
    Stop,
}

/// What the driver reports back after doing what it was asked.
#[derive(Debug)]
pub enum StreamInput {
    /// The event went out.
    Sent,
    /// The event could not go out (the client is gone).
    SendFailed,
    /// The generation started.
    GenerationStarted,
    /// The generation could not start, for this reason.
    GenerationFailed(String),
    /// The generation's next item.
    Item(StreamEvent),
    /// The generation failed, for this reason.
    ItemFailed(String),
    /// The generation has no more items.
    Ended,
}

/// The order of the phases: each step moves forward or stays.
pub open spec fn phase_rank(phase: StreamPhase, latency_events: nat) -> nat {
    match phase {
        StreamPhase::Sources => 0,
        StreamPhase::Latency(i) => (i + 1) as nat,
        StreamPhase::Starting => latency_events + 1,
        StreamPhase::Generating => latency_events + 2,
        StreamPhase::Finished => latency_events + 3,
    }
}

/// The sending of a streamed answer: its phase, how many search timing
/// events go out, and what the generation has brought so far.
pub struct StreamMachine {
    pub phase: StreamPhase,
    pub latency_events: usize,
    pub collector: StreamCollector,
}

/// The final timings and usage of a generation: generation time, total
/// generation time, prompt tokens, completion tokens.
pub type StreamMetrics = (i64, i64, Option<u32>, Option<u32>);

/// `StreamMachine` with its answer taken by its view.
pub struct StreamState {
    pub phase: StreamPhase,
    pub latency_events: usize,
    pub answer: Seq<char>,
    pub done: Option<StreamMetrics>,
}

/// `StreamInput` with its texts taken by their views.
pub enum StreamInputView {
    Sent,
    SendFailed,
    GenerationStarted,
    GenerationFailed(Seq<char>),
    Token(Seq<char>),
    Done(StreamMetrics),
    ItemFailed(Seq<char>),
    Ended,
}

/// `StreamAction` with its texts taken by their views.
pub enum StreamActionView {
    SendSources,
    SendLatency(usize),
    StartGeneration,
    NextItem,
    SendToken(Seq<char>),
    SendError(Seq<char>),
    SendDone(Seq<char>, StreamMetrics),
    Stop,
}

impl View for StreamMachine {
    type V = StreamState;

    open spec fn view(&self) -> StreamState {
        StreamState {
            phase: self.phase,
            latency_events: self.latency_events,
            answer: self.collector.answer@,
            done: self.collector.done,
        }
    }
}

impl View for StreamInput {
    type V = StreamInputView;

    open spec fn view(&self) -> StreamInputView {
        match self {
            StreamInput::Sent => StreamInputView::Sent,
            StreamInput::SendFailed => StreamInputView::SendFailed,
            StreamInput::GenerationStarted => StreamInputView::GenerationStarted,
            StreamInput::GenerationFailed(m) => StreamInputView::GenerationFailed(m@),
            StreamInput::Item(StreamEvent::Token { delta }) => StreamInputView::Token(delta@),
            StreamInput::Item(StreamEvent::Done { generation_ms, generation_total_ms, prompt_tokens, completion_tokens }) => {
                StreamInputView::Done((*generation_ms, *generation_total_ms, *prompt_tokens, *completion_tokens))
            },
            StreamInput::ItemFailed(m) => StreamInputView::ItemFailed(m@),
            StreamInput::Ended => StreamInputView::Ended,
        }
    }
}

impl View for StreamAction {
    type V = StreamActionView;

    open spec fn view(&self) -> StreamActionView {
        match self {
            StreamAction::SendSources => StreamActionView::SendSources,
            StreamAction::SendLatency(i) => StreamActionView::SendLatency(*i),
            StreamAction::StartGeneration => StreamActionView::StartGeneration,
            StreamAction::NextItem => StreamActionView::NextItem,
            StreamAction::SendToken(d) => StreamActionView::SendToken(d@),
            StreamAction::SendError(m) => StreamActionView::SendError(m@),
            StreamAction::SendDone { answer, done } => StreamActionView::SendDone(answer@, *done),
            StreamAction::Stop => StreamActionView::Stop,
        }
    }
}

/// The state with another phase.
pub open spec fn in_phase(s: StreamState, phase: StreamPhase) -> StreamState {
    StreamState { phase, ..s }
}

/// The state a streamed answer begins in: the sources are next, nothing
/// has been generated.
pub open spec fn begin_state(latency_events: usize) -> StreamState {
    StreamState { phase: StreamPhase::Sources, latency_events, answer: Seq::empty(), done: None }
}

/// One step of a streamed answer: from the state and what the driver
/// reports, the next state and what to do next. The sources go out first,
/// then the search timing events in order, then the generation starts;
/// each token is sent on as it comes and added to the answer, the final
/// metrics are kept; the first failure to send stops everything, a failure
/// of the generation is sent as an `error` and ends it, and when the
/// generation ends the `done` event goes out only if the metrics came.
/// Anything else finishes it, and once finished nothing more is done.
pub open spec fn stream_next(s: StreamState, input: StreamInputView) -> (StreamState, StreamActionView) {
    match (s.phase, input) {
        (StreamPhase::Sources, StreamInputView::Sent) => if 0 < s.latency_events {
            (in_phase(s, StreamPhase::Latency(0)), StreamActionView::SendLatency(0))
        } else {
            (in_phase(s, StreamPhase::Starting), StreamActionView::StartGeneration)
        },
        (StreamPhase::Latency(i), StreamInputView::Sent) => if i + 1 < s.latency_events {
            (in_phase(s, StreamPhase::Latency((i + 1) as usize)), StreamActionView::SendLatency((i + 1) as usize))
        } else {
            (in_phase(s, StreamPhase::Starting), StreamActionView::StartGeneration)
        },
        (StreamPhase::Starting, StreamInputView::GenerationStarted) => (
            in_phase(s, StreamPhase::Generating),
            StreamActionView::NextItem,
        ),
        (StreamPhase::Starting, StreamInputView::GenerationFailed(m)) => (
            in_phase(s, StreamPhase::Finished),
            StreamActionView::SendError(m),
        ),
        (StreamPhase::Generating, StreamInputView::Sent) => (s, StreamActionView::NextItem),
        (StreamPhase::Generating, StreamInputView::Token(d)) => (
            StreamState { answer: s.answer + d, ..s },
            StreamActionView::SendToken(d),
        ),
        (StreamPhase::Generating, StreamInputView::Done(m)) => (StreamState { done: Some(m), ..s }, StreamActionView::NextItem),
        (StreamPhase::Generating, StreamInputView::ItemFailed(m)) => (
            in_phase(s, StreamPhase::Finished),
            StreamActionView::SendError(m),
        ),
        (StreamPhase::Generating, StreamInputView::Ended) => (
            in_phase(s, StreamPhase::Finished),
            match s.done {
                Some(d) => StreamActionView::SendDone(s.answer, d),
                None => StreamActionView::Stop,
            },
        ),
        _ => (in_phase(s, StreamPhase::Finished), StreamActionView::Stop),
    }
}

/// A latency position, if any, is below the number of latency events.
pub open spec fn state_well_formed(s: StreamState) -> bool {
    s.phase matches StreamPhase::Latency(i) ==> i < s.latency_events
}

impl StreamMachine {
    /// The phases hold a latency position only below the count.
    pub open spec fn well_formed(&self) -> bool {
        state_well_formed(self@)
    }

    /// Begins a streamed answer whose search timings make `latency_events`
    /// events: the sources go out first, and nothing has been generated.
    pub fn begin(latency_events: usize) -> (r: (Self, StreamAction))
        ensures
            r.0@ == begin_state(latency_events),
            r.1 is SendSources,
            r.0.well_formed(),
    {
        (StreamMachine { phase: StreamPhase::Sources, latency_events, collector: StreamCollector::new() }, StreamAction::SendSources)
    }

    /// Takes what the driver reports and says what to do next, as
    /// `stream_next` says.
    pub fn step(&mut self, input: StreamInput) -> (r: StreamAction)
        requires
            old(self).well_formed(),
        ensures
            final(self).well_formed(),
            (final(self)@, r@) == stream_next(old(self)@, input@),
    {
        let phase = self.phase;
        match (phase, input) {
            (StreamPhase::Sources, StreamInput::Sent) => {
                if 0 < self.latency_events {
                    self.phase = StreamPhase::Latency(0);
                    StreamAction::SendLatency(0)
                } else {
                    self.phase = StreamPhase::Starting;
                    StreamAction::StartGeneration
                }
            },
            (StreamPhase::Latency(i), StreamInput::Sent) => {
                if i + 1 < self.latency_events {
                    self.phase = StreamPhase::Latency(i + 1);
                    StreamAction::SendLatency(i + 1)
                } else {
                    self.phase = StreamPhase::Starting;
                    StreamAction::StartGeneration
                }
            },
            (StreamPhase::Starting, StreamInput::GenerationStarted) => {
                self.phase = StreamPhase::Generating;
                StreamAction::NextItem
            },
            (StreamPhase::Starting, StreamInput::GenerationFailed(m)) => {
                self.phase = StreamPhase::Finished;
                StreamAction::SendError(m)
            },
            (StreamPhase::Generating, StreamInput::Sent) => StreamAction::NextItem,
            (StreamPhase::Generating, StreamInput::Item(event)) => match self.collector.on_event(event) {
                Some(d) => StreamAction::SendToken(d),
                None => StreamAction::NextItem,
            },
            (StreamPhase::Generating, StreamInput::ItemFailed(m)) => {
                self.phase = StreamPhase::Finished;
                StreamAction::SendError(m)
            },
            (StreamPhase::Generating, StreamInput::Ended) => {
                self.phase = StreamPhase::Finished;
                match self.collector.done {
                    Some(d) => StreamAction::SendDone { answer: self.collector.answer.clone(), done: d },
                    None => StreamAction::Stop,
                }
            },
            _ => {
                self.phase = StreamPhase::Finished;
                StreamAction::Stop
            },
        }
    }
}

/// The states and actions of a streamed answer driven from `s` by the
/// driver's reports `inputs`, one step each: the final state and the
/// actions in order.
pub open spec fn stream_run(s: StreamState, inputs: Seq<StreamInputView>) -> (StreamState, Seq<StreamActionView>)
    decreases inputs.len(),
{
    if inputs.len() == 0 {
        (s, Seq::empty())
    } else {
        let first = stream_next(s, inputs[0]);
        let rest = stream_run(first.0, inputs.drop_first());
        (rest.0, seq![first.1] + rest.1)
    }
}

/// The place of an action in the order of a streamed answer: sources, the
/// latency events by position, the start, the tokens, the end.
pub open spec fn action_rank(a: StreamActionView, latency_events: nat) -> nat {
    match a {
        StreamActionView::SendSources => 0,
        StreamActionView::SendLatency(i) => (i + 1) as nat,
        StreamActionView::StartGeneration => latency_events + 1,
        StreamActionView::NextItem => latency_events + 2,
        StreamActionView::SendToken(_) => latency_events + 2,
        _ => latency_events + 3,
    }
}

/// An action after which nothing more is sent: an `error`, a `done`, or
/// stopping.
pub open spec fn ends_stream(a: StreamActionView) -> bool {
    a is SendError || a is SendDone || a is Stop
}

/// The text of the tokens sent by the actions, in order.
pub open spec fn tokens_text(acts: Seq<StreamActionView>) -> Seq<char>
    decreases acts.len(),
{
    if acts.len() == 0 {
        Seq::empty()
    } else {
        (match acts[0] {
            StreamActionView::SendToken(d) => d,
            _ => Seq::empty(),
        }) + tokens_text(acts.drop_first())
    }
}

proof fn lemma_stream_run(s: StreamState, inputs: Seq<StreamInputView>)
    requires
        state_well_formed(s),
    ensures
        stream_run(s, inputs).1.len() == inputs.len(),
        stream_run(s, inputs).0.answer == s.answer + tokens_text(stream_run(s, inputs).1),
        s.phase is Finished ==> forall|k: int| 0 <= k < inputs.len() ==> #[trigger] stream_run(s, inputs).1[k] is Stop,
        forall|k: int|
            0 <= k < inputs.len() ==> {
                &&& !(#[trigger] stream_run(s, inputs).1[k] is SendSources)
                &&& phase_rank(s.phase, s.latency_events as nat) <= action_rank(stream_run(s, inputs).1[k], s.latency_events as nat)
            },
        forall|j: int, k: int|
            0 <= j < k < inputs.len() ==> action_rank(#[trigger] stream_run(s, inputs).1[j], s.latency_events as nat)
                <= action_rank(#[trigger] stream_run(s, inputs).1[k], s.latency_events as nat),
        forall|j: int, k: int|
            0 <= j < k < inputs.len() && ends_stream(#[trigger] stream_run(s, inputs).1[j]) ==> #[trigger] stream_run(
                s,
                inputs,
            ).1[k] is Stop,
        forall|k: int|
            0 <= k < inputs.len() ==> (#[trigger] stream_run(s, inputs).1[k] matches StreamActionView::SendDone(ans, _)
                ==> ans == s.answer + tokens_text(stream_run(s, inputs).1.take(k))),
    decreases inputs.len(),
{
    if inputs.len() > 0 {
        let first = stream_next(s, inputs[0]);
        let s1 = first.0;
        let a = first.1;
        let rest_inputs = inputs.drop_first();
        lemma_stream_run(s1, rest_inputs);
        let rest = stream_run(s1, rest_inputs).1;
        let acts = stream_run(s, inputs).1;
        assert(acts == seq![a] + rest);
        assert(acts.drop_first() =~= rest);
        let tok = match a {
            StreamActionView::SendToken(d) => d,
            _ => Seq::<char>::empty(),
        };
        assert(s1.answer == s.answer + tok);
        assert(tokens_text(acts) == tok + tokens_text(rest));
        assert(s1.latency_events == s.latency_events);
        assert(action_rank(a, s.latency_events as nat) == phase_rank(s1.phase, s.latency_events as nat));
        assert(ends_stream(a) <==> s1.phase is Finished);
        assert(phase_rank(s.phase, s.latency_events as nat) <= phase_rank(s1.phase, s.latency_events as nat));
        assert forall|k: int| 0 <= k < inputs.len() implies (#[trigger] acts[k] matches StreamActionView::SendDone(ans, _)
            ==> ans == s.answer + tokens_text(acts.take(k))) by {
            if k > 0 {
                assert(acts[k] == rest[k - 1]);
                assert(acts.take(k).drop_first() =~= rest.take(k - 1));
                assert(tokens_text(acts.take(k)) == tok + tokens_text(rest.take(k - 1)));
                assert(s.answer + tok + tokens_text(rest.take(k - 1)) =~= s.answer + (tok + tokens_text(rest.take(k - 1))));
            } else {
                assert(acts.take(0) =~= Seq::<StreamActionView>::empty());
                assert(s.answer + Seq::<char>::empty() =~= s.answer);
            }
        }
        assert forall|k: int| 0 <= k < inputs.len() implies {
            &&& !(#[trigger] acts[k] is SendSources)
            &&& phase_rank(s.phase, s.latency_events as nat) <= action_rank(acts[k], s.latency_events as nat)
        } by {
            if k > 0 {
                assert(acts[k] == rest[k - 1]);
            }
        }
        assert forall|j: int, k: int| 0 <= j < k < inputs.len() implies action_rank(#[trigger] acts[j], s.latency_events as nat)
            <= action_rank(#[trigger] acts[k], s.latency_events as nat) && (ends_stream(acts[j]) ==> acts[k] is Stop) by {
            assert(acts[k] == rest[k - 1]);
            if j > 0 {
                assert(acts[j] == rest[j - 1]);
            }
        }
        assert(s.answer + tokens_text(acts) =~= s.answer + tok + tokens_text(rest));
    }
}

/// The whole trace of a streamed answer, whatever the driver reports: the
/// sources go out first and never again; every later action comes no
/// earlier in the order of sources, latency events, start, tokens, end than
/// the ones before it; after an `error`, a `done` or a stop nothing but
/// stopping follows, so at most one `error` or `done` is sent; and a `done`
/// event carries exactly the tokens sent before it, in order.
pub proof fn lemma_stream_trace(latency_events: usize, inputs: Seq<StreamInputView>)
    ensures
        ({
            let acts = seq![StreamActionView::SendSources] + stream_run(begin_state(latency_events), inputs).1;
            &&& acts.len() == inputs.len() + 1
            &&& acts[0] is SendSources
            &&& forall|k: int| 0 < k < acts.len() ==> !(#[trigger] acts[k] is SendSources)
            &&& forall|j: int, k: int|
                0 <= j < k < acts.len() ==> action_rank(#[trigger] acts[j], latency_events as nat) <= action_rank(
                    #[trigger] acts[k],
                    latency_events as nat,
                )
            &&& forall|j: int, k: int| 0 <= j < k < acts.len() && ends_stream(#[trigger] acts[j]) ==> #[trigger] acts[k] is Stop
            &&& forall|k: int|
                0 <= k < acts.len() ==> (#[trigger] acts[k] matches StreamActionView::SendDone(ans, _) ==> ans == tokens_text(
                    acts.take(k),
                ))
        }),
{
    let s = begin_state(latency_events);
    lemma_stream_run(s, inputs);
    let run = stream_run(s, inputs).1;
    let acts = seq![StreamActionView::SendSources] + run;
    assert forall|k: int| 0 < k < acts.len() implies acts[k] == run[k - 1] by {}
    assert forall|k: int| 0 < k < acts.len() implies tokens_text(#[trigger] acts.take(k)) == tokens_text(run.take(k - 1)) by {
        assert(acts.take(k).drop_first() =~= run.take(k - 1));
        assert(Seq::<char>::empty() + tokens_text(run.take(k - 1)) =~= tokens_text(run.take(k - 1)));
    }
    assert forall|k: int| 0 <= k < acts.len() implies (#[trigger] acts[k] matches StreamActionView::SendDone(ans, _) ==> ans
        == tokens_text(acts.take(k))) by {
        if k > 0 {
            assert(acts[k] == run[k - 1]);
            assert(tokens_text(acts.take(k)) == tokens_text(run.take(k - 1)));
            assert(Seq::<char>::empty() + tokens_text(run.take(k - 1)) =~= tokens_text(run.take(k - 1)));
        }
    }
    assert forall|j: int, k: int| 0 <= j < k < acts.len() implies action_rank(#[trigger] acts[j], latency_events as nat)
        <= action_rank(#[trigger] acts[k], latency_events as nat) && (ends_stream(acts[j]) ==> acts[k] is Stop) by {
        assert(acts[k] == run[k - 1]);
        if j > 0 {
            assert(acts[j] == run[j - 1]);
        }
    }
}

/// The payload of the `done` event that ends a streamed answer.
pub open spec fn done_payload(
    query_id: Seq<char>,
    text: Seq<char>,
    l: QueryLatency,
    done: (i64, i64, Option<u32>, Option<u32>),
    llm_model_id: Seq<char>,
    llm_model_tag: Seq<char>,
) -> Option<Seq<char>> {
    let latency = json_members(
        seq![
            ("upstream_ms"@, opt_i64_json(l.upstream_ms)),
            ("embed_ms"@, signed_decimal(l.embed_ms as int)),
            ("search_ms"@, signed_decimal(l.search_ms as int)),
            ("rerank_ms"@, opt_i64_json(l.rerank_ms)),
            ("store_ms"@, signed_decimal(l.store_ms as int)),
            ("generation_ms"@, signed_decimal(done.0 as int)),
            ("generation_total_ms"@, signed_decimal(done.1 as int)),
            ("total_ragdoll_ms"@, signed_decimal(l.total_ragdoll_ms + done.1)),
        ],
    );
    let usage = json_members(seq![("prompt_tokens"@, opt_u32_json(done.2)), ("completion_tokens"@, opt_u32_json(done.3))]);
    match (
        json_string_literal(query_id),
        json_string_literal(text),
        latency,
        usage,
        json_string_literal(llm_model_id),
        json_string_literal(llm_model_tag),
    ) {
        (Some(q), Some(t), Some(lat), Some(u), Some(id), Some(tag)) => json_members(
            seq![
                ("query_id"@, q),
                ("text"@, t),
                ("final"@, "true"@),
                ("latency"@, lat),
                ("usage"@, u),
                ("llm_model_id"@, id),
                ("llm_model_tag"@, tag),
            ],
        ),
        _ => None,
    }
}

/// Writes the payload of the `done` event; the total time is the search's
/// and the generation's together.
pub fn done_event_payload(
    query_id: &str,
    text: &str,
    l: &QueryLatency,
    done: (i64, i64, Option<u32>, Option<u32>),
    llm_model_id: &str,
    llm_model_tag: &str,
) -> (r: Option<String>)
    requires
        i64::MIN <= l.total_ragdoll_ms + done.1 <= i64::MAX,
    ensures
        match done_payload(query_id@, text@, *l, done, llm_model_id@, llm_model_tag@) {
            Some(t) => r matches Some(s) && s@ == t,
            None => r is None,
        },
{
    let (generation_ms, generation_total_ms, prompt_tokens, completion_tokens) = done;
    let mut lm: Vec<(String, String)> = Vec::new();
    lm.push(member("upstream_ms", opt_i64_text(l.upstream_ms)));
    lm.push(member("embed_ms", int_text(l.embed_ms)));
    lm.push(member("search_ms", int_text(l.search_ms)));
    lm.push(member("rerank_ms", opt_i64_text(l.rerank_ms)));
    lm.push(member("store_ms", int_text(l.store_ms)));
    lm.push(member("generation_ms", int_text(generation_ms)));
    lm.push(member("generation_total_ms", int_text(generation_total_ms)));
    lm.push(member("total_ragdoll_ms", int_text(l.total_ragdoll_ms + generation_total_ms)));
    assert(member_views(lm@) == seq![
        ("upstream_ms"@, opt_i64_json(l.upstream_ms)),
        ("embed_ms"@, signed_decimal(l.embed_ms as int)),
        ("search_ms"@, signed_decimal(l.search_ms as int)),
        ("rerank_ms"@, opt_i64_json(l.rerank_ms)),
        ("store_ms"@, signed_decimal(l.store_ms as int)),
        ("generation_ms"@, signed_decimal(done.0 as int)),
        ("generation_total_ms"@, signed_decimal(done.1 as int)),
        ("total_ragdoll_ms"@, signed_decimal(l.total_ragdoll_ms + done.1)),
    ]);
    let latency = match write_json_members(&lm) {
        Some(t) => t,
        None => return None,
    };
    let mut um: Vec<(String, String)> = Vec::new();
    um.push(member("prompt_tokens", opt_u32_text(prompt_tokens)));
    um.push(member("completion_tokens", opt_u32_text(completion_tokens)));
    assert(member_views(um@) == seq![("prompt_tokens"@, opt_u32_json(done.2)), ("completion_tokens"@, opt_u32_json(done.3))]);
    let usage = match write_json_members(&um) {
        Some(t) => t,
        None => return None,
    };
    let q = match quote_json_string(query_id) {
        Some(v) => v,
        None => return None,
    };
    let t = match quote_json_string(text) {
        Some(v) => v,
        None => return None,
    };
    let id = match quote_json_string(llm_model_id) {
        Some(v) => v,
        None => return None,
    };
    let tag = match quote_json_string(llm_model_tag) {
        Some(v) => v,
        None => return None,
    };
    let mut m: Vec<(String, String)> = Vec::new();
    m.push(member("query_id", q));
    m.push(member("text", t));
    m.push(member("final", String::from_str("true")));
    m.push(member("latency", latency));
    m.push(member("usage", usage));
    m.push(member("llm_model_id", id));
    m.push(member("llm_model_tag", tag));
    assert(member_views(m@) == seq![
        ("query_id"@, q@),
        ("text"@, t@),
        ("final"@, "true"@),
        ("latency"@, latency@),
        ("usage"@, usage@),
        ("llm_model_id"@, id@),
        ("llm_model_tag"@, tag@),
    ]);
    write_json_members(&m)
}

/// How a batch of queries runs.
#[derive(Clone, Copy, Debug, PartialEq, Eq, Structural)]
pub enum QueryBatchMode {
    /// One query whose answer is streamed.
    Streaming,
    /// Each query searched and answered, several at a time.
    Generating,
    /// Each query searched, one after the other.
    Searching,
}

/// Some query of the batch asks for a streamed answer.
pub open spec fn asks_streaming(generations: Seq<Option<bool>>) -> bool {
    exists|i: int| 0 <= i < generations.len() && generations[i] == Some(true)
}

/// Some query of the batch asks for an answer.
pub open spec fn asks_generation(generations: Seq<Option<bool>>) -> bool {
    exists|i: int| 0 <= i < generations.len() && (#[trigger] generations[i]) is Some
}

/// How a batch runs, or why it is refused. `generations` holds, per query,
/// whether its answer is streamed (`None` when it asks for no answer); the
/// size is compared as a `u32`, as the batch limit is.
pub fn query_batch_mode(generations: &Vec<Option<bool>>, max_batch_size: u32) -> (r: Result<QueryBatchMode, ApiError>)
    ensures
        (generations@.len() as u32) > max_batch_size ==> (r matches Err(e) && is_api_error(e, 400, "Bad Request"@, "batch too large"@)),
        (generations@.len() as u32) <= max_batch_size ==> if asks_streaming(generations@) {
            if generations@.len() != 1 {
                r matches Err(e) && is_api_error(e, 400, "Bad Request"@, "streaming generation requires exactly one query item"@)
            } else {
                r == Ok::<QueryBatchMode, ApiError>(QueryBatchMode::Streaming)
            }
        } else if asks_generation(generations@) {
            r == Ok::<QueryBatchMode, ApiError>(QueryBatchMode::Generating)
        } else {
            r == Ok::<QueryBatchMode, ApiError>(QueryBatchMode::Searching)
        },
{
    let n = generations.len();
    if (n as u32) > max_batch_size {
        return Err(ApiError::bad_request(String::from_str("batch too large")));
    }
    let mut streaming = false;
    let mut generating = false;
    let mut i: usize = 0;
    while i < n
        invariant
            i <= n,
            n == generations@.len(),
            streaming == exists|k: int| 0 <= k < i && generations@[k] == Some(true),
            generating == exists|k: int| 0 <= k < i && (#[trigger] generations@[k]) is Some,
        decreases n - i,
    {
        match generations[i] {
            Some(stream) => {
                generating = true;
                if stream {
                    streaming = true;
                }
            },
            None => {},
        }
        proof {
            if generations@[i as int] == Some(true) {
                assert(exists|k: int| 0 <= k < i + 1 && generations@[k] == Some(true));
            }
            if generations@[i as int] is Some {
                assert(exists|k: int| 0 <= k < i + 1 && (#[trigger] generations@[k]) is Some);
            }
        }
        i += 1;
    }
    if streaming {
        if n != 1 {
            return Err(ApiError::bad_request(String::from_str("streaming generation requires exactly one query item")));
        }
        Ok(QueryBatchMode::Streaming)
    } else if generating {
        Ok(QueryBatchMode::Generating)
    } else {
        Ok(QueryBatchMode::Searching)
    }
}

/// A query of a batch is answered only when its text is not blank.
pub fn check_query_text(text: &str) -> (r: Result<(), String>)
    ensures
        trim(text@).len() > 0 ==> r is Ok,
        trim(text@).len() == 0 ==> (r matches Err(m) && m@ == "query text required"@),
{
    if chars_trim(&chars_of(text)).len() == 0 {
        Err(String::from_str("query text required"))
    } else {
        Ok(())
    }
}

} // verus!
