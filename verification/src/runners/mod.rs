/// Llamacpp Open AI-compatible API communication logic
pub mod llamacpp;

/// Ollama Open AI-compatible API communication logic
pub mod ollama;

use vstd::prelude::*;
use std::io::Write;

use crate::configuration::ApiConfig;
use crate::errors::{
    prefixed, AppError, ConnectionError, IOError, ResponseError, RunnerApiError,
    RunnerApiErrorKind, RunnerStreamError, UnexpectedError,
};
use crate::net::url_with_path;
use crate::openai_api::{
    opt_text, FinalStreamChunk, OpenAIAPIClient, StreamChunk, StreamChunkView, Timings,
    COMPLETIONS_PATH,
};
use crate::ui::{call_text, is_stdout_io_error, styled, written, SinkCall, StdoutWriter, TextStyle, DEFAULT_TEXT_STYLE, REASONING_TEXT_STYLE};

verus! {

/// Whether `a` and `b` are the same text: the same characters in the same order.
pub(crate) fn same_text(a: &str, b: &str) -> (res: bool)
    ensures
        res == (a@ == b@),
{
    broadcast use vstd::string::axiom_spec_iter;
    let mut expected: Vec<char> = Vec::new();
    for c in it: b.chars()
        invariant
            it.seq() == b@,
            expected@ == b@.take(it.index() as int),
    {
        proof {
            assert(b@.take(it.index() + 1) =~= b@.take(it.index() as int).push(c));
        }
        expected.push(c);
    }
    proof {
        assert(b@.take(b@.len() as int) =~= b@);
    }
    let mut i: usize = 0;
    for c in it: a.chars()
        invariant
            it.seq() == a@,
            i == it.index(),
            expected@ == b@,
            i <= b@.len(),
            a@.take(i as int) =~= b@.take(i as int),
    {
        if i >= expected.len() || expected[i] != c {
            proof {
                if i >= expected.len() {
                    assert(a@.len() != b@.len());
                } else {
                    assert(a@[i as int] != b@[i as int]);
                }
            }
            return false;
        }
        proof {
            assert(a@.take(i + 1) =~= a@.take(i as int).push(c));
            assert(b@.take(i + 1) =~= b@.take(i as int).push(c));
        }
        i = i + 1;
    }
    proof {
        assert(a@.take(a@.len() as int) =~= a@);
        if i == expected.len() {
            assert(b@.take(b@.len() as int) =~= b@);
        } else {
            assert(a@.len() != b@.len());
        }
    }
    i == expected.len()
}

/// View of an optional borrowed text.
pub open spec fn opt_str(s: Option<&str>) -> Option<Seq<char>> {
    match s {
        Some(t) => Some(t@),
        None => None,
    }
}

/// View of an optional stream chunk.
pub open spec fn opt_chunk(c: Option<StreamChunk>) -> Option<StreamChunkView> {
    match c {
        Some(v) => Some(v@),
        None => None,
    }
}

/// Trait providing specialised chunk choice manipulation implementations for Llamacpp and Ollama runners
pub trait OpenAiCompatibleStreamChunkChoice {
    /// Model of the finish reason
    spec fn spec_finish_reason(&self) -> Option<Seq<char>>;

    ///  OpenAI API-compatible response stream chunk finished marker
    fn finish_reason(&self) -> (res: Option<&str>)
        ensures
            opt_str(res) == self.spec_finish_reason(),
    ;
}

/// Trait providing specialised chunk object manipulation implementations for Llamacpp and Ollama runners
pub trait OpenAiCompatibleStreamChunkObject {
    /// Model of the model name
    spec fn spec_model(&self) -> Seq<char>;

    /// Model of the token usage
    spec fn spec_timings(&self) -> Option<Timings>;

    /// Lllamacpp runner model name or alias
    fn model(&self) -> (res: &str)
        ensures
            res@ == self.spec_model(),
    ;

    /// Lllamacpp runner model token usage
    fn timings(&self) -> (res: Option<Timings>)
        ensures
            res == self.spec_timings(),
    ;
}

/// Metadata of a final chunk: the model and token usage when the choice finished with "stop",
/// none otherwise.
pub open spec fn spec_final_metadata(
    finish_reason: Option<Seq<char>>,
    model: Seq<char>,
    timings: Option<Timings>,
) -> (Option<Seq<char>>, Option<Timings>) {
    if finish_reason == Some("stop"@) {
        (Some(model), timings)
    } else {
        (None, None)
    }
}

/// Metadata of a final chunk, as `spec_final_metadata` states.
pub fn extract_final_metadata<C: OpenAiCompatibleStreamChunkChoice, K: OpenAiCompatibleStreamChunkObject>(
    choice: &C,
    chunk_object: &K,
) -> (res: (Option<String>, Option<Timings>))
    ensures
        (opt_text(res.0), res.1) == spec_final_metadata(
            choice.spec_finish_reason(),
            chunk_object.spec_model(),
            chunk_object.spec_timings(),
        ),
{
    let stop = match choice.finish_reason() {
        Some(reason) => same_text(reason, "stop"),
        None => false,
    };
    if stop {
        (Some(String::from_str(chunk_object.model())), chunk_object.timings())
    } else {
        (None, None)
    }
}

/// What a chunk that does not decode as JSON gives: the final chunk for the "[DONE]" message
/// that ends a stream, nothing otherwise.
pub open spec fn spec_undecoded_chunk(chunk: Seq<char>) -> Option<StreamChunkView> {
    if chunk == "[DONE]"@ {
        Some(StreamChunkView::Final(None, None))
    } else {
        None
    }
}

/// Map 'error' encountered while parsing runner response stream chunk.
///
/// Parsing logic assumes chunks are JSON, though the final chunk will be a string message.  This
/// function converts that message into a chunk.
///
/// # Returns
/// - `None` for non-JSON chunks (error can be handled by caller); and
/// - `Some[StreamChunk])` containing the "[DONE]" message for valid termination messages.
pub fn map_stream_chunk_json_parse_error(chunk: &str, name: &str, err: serde_json::Error) -> (res:
    Option<StreamChunk>)
    ensures
        opt_chunk(res) == spec_undecoded_chunk(chunk@),
{
    if same_text(chunk, "[DONE]") {
        Some(StreamChunk::Final(FinalStreamChunk { model: None, timings: None }))
    } else {
        None
    }
}

/// OpenAI API-compatible response stream chunk message
#[derive(Debug)]
pub struct OpenAiCompatibleStreamChunkChoiceDeltaContent {
    /// Message body
    pub content: String,
}

/// OpenAI API-compatible response stream chunk reasoning message
#[derive(Debug)]
pub struct OpenAiCompatibleStreamChunkChoiceDeltaReasoningContent {
    /// Message body
    pub reasoning: String,
}

/// What a chunk that decodes as a JSON string gives: the final chunk for "DONE", an empty
/// chunk otherwise.
pub open spec fn spec_string_chunk(chunk: Seq<char>) -> StreamChunkView {
    if chunk == "DONE"@ {
        StreamChunkView::Final(None, None)
    } else {
        StreamChunkView::Empty
    }
}

/// Helper function used in From `LlamacppStreamChunk` and `OllamaStreamChunk` for
/// [`StreamChunk`] implementation
pub fn parse_open_ai_compatible_stream_chunk_string(chunk: String) -> (res: StreamChunk)
    ensures
        res@ == spec_string_chunk(chunk@),
{
    if same_text(chunk.as_str(), "DONE") {
        StreamChunk::Final(FinalStreamChunk { model: None, timings: None })
    } else {
        StreamChunk::Empty
    }
}

/// Runner stream response chunk
#[derive(Debug)]
pub struct RunnerResponse {
    /// Content body
    pub content: String,
    /// Runner model
    pub model: String,
    /// Runner model response tokens
    pub tokens_predicted: u32,
    /// Runner model prompt tokens
    pub tokens_evaluated: u32,
}

/// Metadata of a final chunk: model name, prompt tokens and response tokens.
pub open spec fn spec_stream_metadata(chunk: StreamChunkView) -> (
    Option<Seq<char>>,
    Option<u32>,
    Option<u32>,
) {
    match chunk {
        StreamChunkView::Final(model, timings) => (
            model,
            match timings {
                Some(t) => Some(t.prompt_n),
                None => None,
            },
            match timings {
                Some(t) => Some(t.predicted_n),
                None => None,
            },
        ),
        _ => (None, None, None),
    }
}

/// Metadata of a final chunk, as `spec_stream_metadata` states.
pub fn update_stream_metadata(chunk: StreamChunk) -> (res: (Option<String>, Option<u32>, Option<u32>))
    ensures
        (opt_text(res.0), res.1, res.2) == spec_stream_metadata(chunk@),
{
    if let StreamChunk::Final(FinalStreamChunk { model, timings }) = chunk {
        let prompt_n = match timings {
            Some(t) => Some(t.prompt_n),
            None => None,
        };
        let predicted_n = match timings {
            Some(t) => Some(t.predicted_n),
            None => None,
        };
        (model, prompt_n, predicted_n)
    } else {
        (None, None, None)
    }
}

/// Heading displayed when reasoning output starts
pub const REASONING_STARTED_HEADING: &'static str = "\nReasoning...\n\n";

/// Heading displayed when reasoning output ends
pub const REASONING_COMPLETED_HEADING: &'static str = "\n\n...reasoning completed.\n\n\n";

/// The heading that displaying `chunk` adds while reasoning output is (or is not) in progress:
/// the completed heading when content ends reasoning output, the started heading when reasoning
/// output starts, none otherwise.
pub open spec fn step_heading(reasoning: bool, chunk: StreamChunkView) -> Seq<char> {
    match chunk {
        StreamChunkView::Content(_) => if reasoning {
            REASONING_COMPLETED_HEADING@
        } else {
            Seq::empty()
        },
        StreamChunkView::Reasoning(_) => if reasoning {
            Seq::empty()
        } else {
            REASONING_STARTED_HEADING@
        },
        _ => Seq::empty(),
    }
}

/// Displaying `chunk` while reasoning output is (or is not) in progress: whether reasoning
/// output is in progress afterwards, the text added to the response, and the calls handed to
/// the output sink.
///
/// Content ends reasoning output and reasoning starts it; a heading in the reasoning style marks
/// each change. The chunk's text follows, in the default style for content and in the reasoning
/// style for reasoning, then one flush. Empty and final chunks display nothing.
pub open spec fn display_step(reasoning: bool, chunk: StreamChunkView) -> (bool, Seq<char>, Seq<
    SinkCall,
>) {
    match chunk {
        StreamChunkView::Content(c) => if reasoning {
            (
                false,
                REASONING_COMPLETED_HEADING@ + c,
                seq![
                    SinkCall::Write(styled(REASONING_COMPLETED_HEADING@, TextStyle::Reasoning)),
                    SinkCall::Write(styled(c, TextStyle::Default)),
                    SinkCall::Flush,
                ],
            )
        } else {
            (false, c, seq![SinkCall::Write(styled(c, TextStyle::Default)), SinkCall::Flush])
        },
        StreamChunkView::Reasoning(c) => if !reasoning {
            (
                true,
                REASONING_STARTED_HEADING@ + c,
                seq![
                    SinkCall::Write(styled(REASONING_STARTED_HEADING@, TextStyle::Reasoning)),
                    SinkCall::Write(styled(c, TextStyle::Reasoning)),
                    SinkCall::Flush,
                ],
            )
        } else {
            (true, c, seq![SinkCall::Write(styled(c, TextStyle::Reasoning)), SinkCall::Flush])
        },
        _ => (reasoning, Seq::empty(), Seq::empty()),
    }
}

/// The sink was handed the first `k` of `calls`, for some `k` above 0, and the last of them
/// failed: the calls went from `before` to `after`, and the accepted text from `before_text` to
/// `after_text`, which adds the text of the writes before the failed call.
pub open spec fn interrupted(
    before: Seq<SinkCall>,
    after: Seq<SinkCall>,
    before_text: Seq<char>,
    after_text: Seq<char>,
    calls: Seq<SinkCall>,
) -> bool {
    exists|k: int|
        0 < k <= calls.len() && after == before + #[trigger] calls.take(k) && after_text
            == before_text + written(calls.take(k - 1))
}

/// One more of `calls` was handed to the sink: `done` of them had been, with the calls and
/// accepted text `before + done` and `before_text + written(done)`, and the next one succeeded
/// when `ok` holds.
proof fn lemma_call_made(
    before: Seq<SinkCall>,
    before_text: Seq<char>,
    calls: Seq<SinkCall>,
    done: Seq<SinkCall>,
    now: Seq<SinkCall>,
    now_text: Seq<char>,
    ok: bool,
)
    requires
        done.len() < calls.len(),
        done == calls.take(done.len() as int),
        now == (before + done).push(calls[done.len() as int]),
        ok ==> now_text == before_text + written(done) + call_text(calls[done.len() as int]),
        !ok ==> now_text == before_text + written(done),
    ensures
        ok ==> now == before + calls.take(done.len() as int + 1) && now_text == before_text + written(
            calls.take(done.len() as int + 1),
        ),
        !ok ==> interrupted(before, now, before_text, now_text, calls),
{
    let next = calls.take(done.len() as int + 1);
    assert(next =~= done.push(calls[done.len() as int]));
    assert(next.drop_last() =~= done);
    assert(now =~= before + next);
    if ok {
        assert(now_text =~= before_text + written(next));
    } else {
        assert(calls.take(next.len() - 1) =~= done);
    }
}

/// Struct for displaying response stream chunks to user interface for immediate display and also pushing chunks into a buffer, for potential use elsewhere.
pub struct ResponseStreamDisplayer<'a, W> {
    reasoning: bool,
    complete_content: String,
    writer: StdoutWriter<'a, W>,
}

impl<'a, W> ResponseStreamDisplayer<'a, W> {
    /// Whether reasoning output is in progress.
    pub closed spec fn is_reasoning(&self) -> bool {
        self.reasoning
    }

    /// Styled text the output sink has accepted so far.
    pub closed spec fn accepted(&self) -> Seq<char> {
        self.writer.accepted()
    }

    /// Calls handed to the output sink so far.
    pub closed spec fn calls(&self) -> Seq<SinkCall> {
        self.writer.calls()
    }

    /// Complete response so far.
    pub closed spec fn content(&self) -> Seq<char> {
        self.complete_content@
    }

    /// `after` is this displayer after displaying `chunk`, which succeeded when `ok` holds.
    ///
    /// Either way the reasoning mode is the one `display_step` gives. On success the response,
    /// the sink calls and the accepted text grow as `display_step` states. On failure the sink
    /// was handed a first part of the step's calls, the last of which failed, and the response
    /// is unchanged or has only the step's heading added: the chunk's own text is recorded only
    /// once it was written and flushed.
    pub open spec fn displayed(&self, after: Self, chunk: StreamChunkView, ok: bool) -> bool {
        let (reasoning, text, calls) = display_step(self.is_reasoning(), chunk);
        &&& after.is_reasoning() == reasoning
        &&& if ok {
            &&& after.content() == self.content() + text
            &&& after.calls() == self.calls() + calls
            &&& after.accepted() == self.accepted() + written(calls)
        } else {
            &&& (after.content() == self.content() || after.content() == self.content()
                + step_heading(self.is_reasoning(), chunk))
            &&& interrupted(self.calls(), after.calls(), self.accepted(), after.accepted(), calls)
        }
    }

    /// Complete response so far
    pub fn complete_content(&self) -> (res: &str)
        ensures
            res@ == self.content(),
    {
        self.complete_content.as_str()
    }

    /// Create a ['ResponseStreamDisplayer']
    pub fn new(stdout_handle: &'a mut W) -> (res: Self)
        ensures
            !res.is_reasoning(),
            res.content() == Seq::<char>::empty(),
            res.accepted() == Seq::<char>::empty(),
            res.calls() == Seq::<SinkCall>::empty(),
    {
        ResponseStreamDisplayer {
            reasoning: false,
            complete_content: String::new(),
            writer: StdoutWriter::new(stdout_handle),
        }
    }

    /// Display a stream chunk to a buffer, as `displayed` states, flushing after each text.
    ///
    /// Currently just used to display to stdout.
    pub fn display_stream_chunk(&mut self, chunk: &StreamChunk) -> (res: Result<(), IOError>)
        where W: Write,
        ensures
            old(self).displayed(*final(self), chunk@, res is Ok),
            (chunk@ is Empty || chunk@ is Final) ==> res is Ok,
            res matches Err(e) ==> is_stdout_io_error(e),
    {
        let ghost before = self.writer.calls();
        let ghost before_text = self.writer.accepted();
        let ghost calls = display_step(self.reasoning, chunk@).2;
        let ghost mut done: Seq<SinkCall> = Seq::empty();
        proof {
            assert(done =~= calls.take(0));
            assert(before + done =~= before);
            assert(before_text + written(done) =~= before_text);
        }
        match chunk {
            StreamChunk::Content(content) => {
                if self.reasoning {
                    self.reasoning = false;
                    let heading = REASONING_COMPLETED_HEADING;
                    let r = self.writer.write_chunk(heading, Some(REASONING_TEXT_STYLE));
                    proof {
                        lemma_call_made(
                            before,
                            before_text,
                            calls,
                            done,
                            self.writer.calls(),
                            self.writer.accepted(),
                            r is Ok,
                        );
                    }
                    if let Err(e) = r {
                        return Err(e);
                    }
                    proof {
                        done = calls.take(done.len() as int + 1);
                    }
                    self.complete_content.append(heading);
                }
                let r = self.writer.write_chunk(content.as_str(), None);
                proof {
                    lemma_call_made(
                        before,
                        before_text,
                        calls,
                        done,
                        self.writer.calls(),
                        self.writer.accepted(),
                        r is Ok,
                    );
                }
                if let Err(e) = r {
                    return Err(e);
                }
                proof {
                    done = calls.take(done.len() as int + 1);
                }
                let r = self.writer.flush();
                proof {
                    assert(self.writer.accepted() =~= before_text + written(done) + call_text(
                        SinkCall::Flush,
                    ));
                    lemma_call_made(
                        before,
                        before_text,
                        calls,
                        done,
                        self.writer.calls(),
                        self.writer.accepted(),
                        r is Ok,
                    );
                }
                if let Err(e) = r {
                    return Err(e);
                }
                proof {
                    done = calls.take(done.len() as int + 1);
                    assert(done =~= calls);
                }
                self.complete_content.append(content.as_str());
                proof {
                    assert(self.complete_content@ =~= old(self).complete_content@ + display_step(
                        old(self).reasoning,
                        chunk@,
                    ).1);
                }
            },
            StreamChunk::Reasoning(content) => {
                if !self.reasoning {
                    self.reasoning = true;
                    let heading = REASONING_STARTED_HEADING;
                    let r = self.writer.write_chunk(heading, Some(REASONING_TEXT_STYLE));
                    proof {
                        lemma_call_made(
                            before,
                            before_text,
                            calls,
                            done,
                            self.writer.calls(),
                            self.writer.accepted(),
                            r is Ok,
                        );
                    }
                    if let Err(e) = r {
                        return Err(e);
                    }
                    proof {
                        done = calls.take(done.len() as int + 1);
                    }
                    self.complete_content.append(heading);
                }
                let r = self.writer.write_chunk(content.as_str(), Some(REASONING_TEXT_STYLE));
                proof {
                    lemma_call_made(
                        before,
                        before_text,
                        calls,
                        done,
                        self.writer.calls(),
                        self.writer.accepted(),
                        r is Ok,
                    );
                }
                if let Err(e) = r {
                    return Err(e);
                }
                proof {
                    done = calls.take(done.len() as int + 1);
                }
                let r = self.writer.flush();
                proof {
                    assert(self.writer.accepted() =~= before_text + written(done) + call_text(
                        SinkCall::Flush,
                    ));
                    lemma_call_made(
                        before,
                        before_text,
                        calls,
                        done,
                        self.writer.calls(),
                        self.writer.accepted(),
                        r is Ok,
                    );
                }
                if let Err(e) = r {
                    return Err(e);
                }
                proof {
                    done = calls.take(done.len() as int + 1);
                    assert(done =~= calls);
                }
                self.complete_content.append(content.as_str());
                proof {
                    assert(self.complete_content@ =~= old(self).complete_content@ + display_step(
                        old(self).reasoning,
                        chunk@,
                    ).1);
                }
            },
            StreamChunk::Empty => {
                proof {
                    assert(self.complete_content@ =~= old(self).complete_content@ + Seq::empty());
                    assert(calls =~= Seq::<SinkCall>::empty());
                }
            },
            StreamChunk::Final(_final_stream_chunk) => {
                proof {
                    assert(self.complete_content@ =~= old(self).complete_content@ + Seq::empty());
                    assert(calls =~= Seq::<SinkCall>::empty());
                }
            },
        }
        Ok(())
    }
}

/// The text of a content or reasoning chunk; nothing for other chunks.
pub open spec fn chunk_text(chunk: StreamChunkView) -> Seq<char> {
    match chunk {
        StreamChunkView::Content(c) => c,
        StreamChunkView::Reasoning(c) => c,
        _ => Seq::empty(),
    }
}

/// Whether reasoning output is in progress once `chunks` have been displayed from the start:
/// whether the last content or reasoning chunk among them is a reasoning chunk.
pub open spec fn mode_after(chunks: Seq<StreamChunkView>) -> bool
    decreases chunks.len(),
{
    if chunks.len() == 0 {
        false
    } else {
        match chunks.last() {
            StreamChunkView::Content(_) => false,
            StreamChunkView::Reasoning(_) => true,
            _ => mode_after(chunks.drop_last()),
        }
    }
}

/// The response recorded for `chunks` displayed from the start: the text of each content and
/// reasoning chunk in order, each after the heading that marks a change into or out of
/// reasoning output at that chunk.
pub open spec fn shown_text(chunks: Seq<StreamChunkView>) -> Seq<char>
    decreases chunks.len(),
{
    if chunks.len() == 0 {
        Seq::empty()
    } else {
        shown_text(chunks.drop_last()) + step_heading(mode_after(chunks.drop_last()), chunks.last())
            + chunk_text(chunks.last())
    }
}

/// After the first `n` displays of `chunks`, the displayer holds `shown_text` and the mode
/// `mode_after` of those chunks.
proof fn lemma_display_prefix<'a, W>(
    states: Seq<ResponseStreamDisplayer<'a, W>>,
    chunks: Seq<StreamChunkView>,
    n: int,
)
    requires
        states.len() == chunks.len() + 1,
        !states[0].is_reasoning(),
        states[0].content() == Seq::<char>::empty(),
        forall|i: int|
            #![trigger chunks[i]]
            0 <= i < chunks.len() ==> states[i].displayed(states[i + 1], chunks[i], true),
        0 <= n <= chunks.len(),
    ensures
        states[n].content() == shown_text(chunks.take(n)),
        states[n].is_reasoning() == mode_after(chunks.take(n)),
    decreases n,
{
    if n == 0 {
        assert(chunks.take(0) =~= Seq::<StreamChunkView>::empty());
    } else {
        lemma_display_prefix(states, chunks, n - 1);
        let p = chunks.take(n);
        assert(p.drop_last() =~= chunks.take(n - 1));
        assert(p.last() == chunks[n - 1]);
        assert(states[n - 1].displayed(states[n], chunks[n - 1], true));
        let r = states[n - 1].is_reasoning();
        assert(display_step(r, chunks[n - 1]).1 =~= step_heading(r, chunks[n - 1]) + chunk_text(
            chunks[n - 1],
        ));
        assert(states[n].content() =~= shown_text(p));
    }
}

/// Law: chunks displayed one after another from a new displayer, each display succeeding,
/// record the text of every content and reasoning chunk in order, each after the heading that
/// marks a change into or out of reasoning output (`shown_text`); reasoning output is then in
/// progress exactly when the last content or reasoning chunk was a reasoning chunk.
///
/// `states` are the displayer's successive states and `chunks` the chunks displayed.
pub proof fn law_display_sequence<'a, W>(
    states: Seq<ResponseStreamDisplayer<'a, W>>,
    chunks: Seq<StreamChunkView>,
)
    requires
        states.len() == chunks.len() + 1,
        !states[0].is_reasoning(),
        states[0].content() == Seq::<char>::empty(),
        forall|i: int|
            #![trigger chunks[i]]
            0 <= i < chunks.len() ==> states[i].displayed(states[i + 1], chunks[i], true),
    ensures
        states.last().content() == shown_text(chunks),
        states.last().is_reasoning() == mode_after(chunks),
{
    lemma_display_prefix(states, chunks, chunks.len() as int);
    assert(chunks.take(chunks.len() as int) =~= chunks);
}

/// What the response stream loop does after an item of the stream.
#[derive(Debug, Clone, Copy, PartialEq, Eq, Structural)]
pub enum StreamProgress {
    /// Await the next item of the stream
    Continue,
    /// The final chunk has been consumed: finalise the output
    Complete,
}

/// Consumes response stream chunks: displays them and records the final chunk's metadata.
pub struct StreamConsumer<'a, W> {
    displayer: ResponseStreamDisplayer<'a, W>,
    received_first_chunk: bool,
    spinner_active: bool,
    complete: bool,
    model: Option<String>,
    tokens_evaluated: Option<u32>,
    tokens_predicted: Option<u32>,
}

impl<'a, W> StreamConsumer<'a, W> {
    /// The displayer of the chunks.
    pub closed spec fn displayer(&self) -> &ResponseStreamDisplayer<'a, W> {
        &self.displayer
    }

    /// Whether a chunk has been received.
    pub closed spec fn spec_received_first_chunk(&self) -> bool {
        self.received_first_chunk
    }

    /// Whether the waiting spinner is shown.
    pub closed spec fn spec_spinner_active(&self) -> bool {
        self.spinner_active
    }

    /// Whether the final chunk has been received.
    pub closed spec fn spec_complete(&self) -> bool {
        self.complete
    }

    /// Once a chunk has been received, the waiting spinner is no longer shown.
    pub open spec fn spinner_consistent(&self) -> bool {
        self.spec_received_first_chunk() ==> !self.spec_spinner_active()
    }

    /// Model name, prompt tokens and response tokens from the final chunk.
    pub closed spec fn metadata(&self) -> (Option<Seq<char>>, Option<u32>, Option<u32>) {
        (opt_text(self.model), self.tokens_evaluated, self.tokens_predicted)
    }

    /// Create a consumer that writes to `writer`; the waiting spinner is shown until the first
    /// chunk arrives.
    pub fn new(writer: &'a mut W) -> (res: Self)
        ensures
            !res.displayer().is_reasoning(),
            res.displayer().content() == Seq::<char>::empty(),
            res.displayer().accepted() == Seq::<char>::empty(),
            res.displayer().calls() == Seq::<SinkCall>::empty(),
            !res.spec_received_first_chunk(),
            res.spec_spinner_active(),
            res.spinner_consistent(),
            !res.spec_complete(),
            res.metadata() == (None::<Seq<char>>, None::<u32>, None::<u32>),
    {
        let displayer = ResponseStreamDisplayer::new(writer);
        StreamConsumer {
            displayer,
            received_first_chunk: false,
            spinner_active: true,
            complete: false,
            model: None,
            tokens_evaluated: None,
            tokens_predicted: None,
        }
    }

    /// Whether the waiting spinner is shown.
    pub fn spinner_active(&self) -> (res: bool)
        ensures
            res == self.spec_spinner_active(),
    {
        self.spinner_active
    }

    /// Whether the final chunk has been received.
    pub fn is_complete(&self) -> (res: bool)
        ensures
            res == self.spec_complete(),
    {
        self.complete
    }

    /// Stops the waiting spinner; returns whether it was shown.
    pub fn stop_spinner(&mut self) -> (res: bool)
        ensures
            res == old(self).spec_spinner_active(),
            !final(self).spec_spinner_active(),
            final(self).displayer() == old(self).displayer(),
            final(self).spec_received_first_chunk() == old(self).spec_received_first_chunk(),
            final(self).spec_complete() == old(self).spec_complete(),
            final(self).metadata() == old(self).metadata(),
            final(self).spinner_consistent(),
    {
        if self.spinner_active {
            self.spinner_active = false;
            true
        } else {
            false
        }
    }

    /// Records that a chunk has been received, which stops the spinner.
    pub fn handle_received_first_chunk(&mut self)
        ensures
            final(self).spec_received_first_chunk(),
            !final(self).spec_spinner_active(),
            final(self).spinner_consistent(),
            final(self).displayer() == old(self).displayer(),
            final(self).spec_complete() == old(self).spec_complete(),
            final(self).metadata() == old(self).metadata(),
    {
        self.stop_spinner();
        self.received_first_chunk = true;
    }

    /// `after` is this consumer after consuming `chunk`, which succeeded when `ok` holds: a
    /// chunk has been received, the spinner is shown only if it was and a chunk had already
    /// been received, the displayer went through the display of `chunk`, and a final chunk,
    /// when displayed, completes the stream and gives its metadata; otherwise completion and
    /// metadata are kept.
    pub open spec fn consumed(&self, after: Self, chunk: StreamChunkView, ok: bool) -> bool {
        &&& after.spec_received_first_chunk()
        &&& after.spec_spinner_active() == (self.spec_spinner_active()
            && self.spec_received_first_chunk())
        &&& self.displayer().displayed(*after.displayer(), chunk, ok)
        &&& if ok && chunk is Final {
            &&& after.spec_complete()
            &&& after.metadata() == spec_stream_metadata(chunk)
        } else {
            &&& after.spec_complete() == self.spec_complete()
            &&& after.metadata() == self.metadata()
        }
    }

    /// Displays `chunk` and, for the final chunk, records its metadata and marks the stream
    /// complete, as `consumed` states.
    ///
    /// The first chunk stops the waiting spinner, whether or not displaying it succeeds. The
    /// call fails exactly when displaying the chunk fails, with that output error; empty and
    /// final chunks are always displayed.
    pub fn consume_chunk(&mut self, chunk: StreamChunk) -> (res: Result<(), AppError>)
        where W: Write,
        ensures
            old(self).consumed(*final(self), chunk@, res is Ok),
            old(self).spinner_consistent() ==> !final(self).spec_spinner_active(),
            (chunk@ is Empty || chunk@ is Final) ==> res is Ok,
            res matches Err(e) ==> (e matches AppError::IO(io) && is_stdout_io_error(io)),
    {
        if !self.received_first_chunk {
            self.handle_received_first_chunk();
        }
        match self.displayer.display_stream_chunk(&chunk) {
            Ok(()) => {},
            Err(err) => {
                return Err(AppError::IO(err));
            },
        }
        if let StreamChunk::Final(_) = chunk {
            let (model, tokens_evaluated, tokens_predicted) = update_stream_metadata(chunk);
            self.model = model;
            self.tokens_evaluated = tokens_evaluated;
            self.tokens_predicted = tokens_predicted;
            self.complete = true;
        }
        Ok(())
    }

    /// One step of the response stream loop: handles the next item of the stream.
    ///
    /// A stream error ends the loop with that error, and an item without a chunk changes
    /// nothing. A chunk is consumed, as `consume_chunk` states; the loop then ends once the
    /// stream is complete, or with the error of consuming the chunk.
    pub fn handle_stream_item(&mut self, item: Result<Option<StreamChunk>, RunnerStreamError>) -> (res:
        Result<StreamProgress, AppError>)
        where W: Write,
        ensures
            match item {
                Err(e) => res == Err::<StreamProgress, AppError>(AppError::RunnerStream(e))
                    && *final(self) == *old(self),
                Ok(None) => res == Ok::<StreamProgress, AppError>(StreamProgress::Continue)
                    && *final(self) == *old(self),
                Ok(Some(chunk)) => {
                    &&& old(self).consumed(*final(self), chunk@, res is Ok)
                    &&& res matches Err(e) ==> (e matches AppError::IO(io) && is_stdout_io_error(
                        io,
                    ))
                    &&& res matches Ok(p) ==> (p == StreamProgress::Complete
                        <==> final(self).spec_complete())
                },
            },
    {
        match item {
            Err(err) => Err(AppError::RunnerStream(err)),
            Ok(None) => Ok(StreamProgress::Continue),
            Ok(Some(chunk)) => match self.consume_chunk(chunk) {
                Ok(()) => {
                    if self.complete {
                        Ok(StreamProgress::Complete)
                    } else {
                        Ok(StreamProgress::Continue)
                    }
                },
                Err(err) => Err(err),
            },
        }
    }

    /// Ends the displayed response with a newline and flushes the output: one write of the
    /// newline in the default style, then one flush.
    pub fn finalise(&mut self) -> (res: Result<(), AppError>)
        where W: Write,
        ensures
            final(self).displayer().is_reasoning() == old(self).displayer().is_reasoning(),
            final(self).displayer().content() == old(self).displayer().content(),
            final(self).spec_received_first_chunk() == old(self).spec_received_first_chunk(),
            final(self).spec_spinner_active() == old(self).spec_spinner_active(),
            final(self).spec_complete() == old(self).spec_complete(),
            final(self).metadata() == old(self).metadata(),
            res is Ok ==> final(self).displayer().calls() == old(self).displayer().calls() + seq![
                SinkCall::Write(styled("\n"@, TextStyle::Default)),
                SinkCall::Flush,
            ] && final(self).displayer().accepted() == old(self).displayer().accepted() + styled(
                "\n"@,
                TextStyle::Default,
            ),
            res is Err ==> interrupted(
                old(self).displayer().calls(),
                final(self).displayer().calls(),
                old(self).displayer().accepted(),
                final(self).displayer().accepted(),
                seq![SinkCall::Write(styled("\n"@, TextStyle::Default)), SinkCall::Flush],
            ),
            res matches Err(e) ==> (e matches AppError::IO(io) && is_stdout_io_error(io)),
    {
        let ghost before = self.displayer.writer.calls();
        let ghost before_text = self.displayer.writer.accepted();
        let ghost calls = seq![SinkCall::Write(styled("\n"@, TextStyle::Default)), SinkCall::Flush];
        let ghost mut done: Seq<SinkCall> = Seq::empty();
        proof {
            assert(done =~= calls.take(0));
            assert(before + done =~= before);
            assert(before_text + written(done) =~= before_text);
        }
        let r = self.displayer.writer.write_chunk("\n", None);
        proof {
            lemma_call_made(
                before,
                before_text,
                calls,
                done,
                self.displayer.writer.calls(),
                self.displayer.writer.accepted(),
                r is Ok,
            );
        }
        match r {
            Ok(()) => {},
            Err(err) => {
                return Err(AppError::IO(err));
            },
        }
        proof {
            done = calls.take(done.len() as int + 1);
        }
        let r = self.displayer.writer.flush();
        proof {
            assert(self.displayer.writer.accepted() =~= before_text + written(done) + call_text(
                SinkCall::Flush,
            ));
            lemma_call_made(
                before,
                before_text,
                calls,
                done,
                self.displayer.writer.calls(),
                self.displayer.writer.accepted(),
                r is Ok,
            );
        }
        match r {
            Ok(()) => {
                proof {
                    assert(calls.take(2) =~= calls);
                    assert(written(calls) =~= styled("\n"@, TextStyle::Default)) by {
                        assert(calls.drop_last() =~= seq![SinkCall::Write(styled("\n"@, TextStyle::Default))]);
                        assert(calls.drop_last().drop_last() =~= Seq::<SinkCall>::empty());
                    }
                }
                Ok(())
            },
            Err(err) => Err(AppError::IO(err)),
        }
    }
}

impl RunnerResponse {
    /// The response a consumer has collected: its content, the model (or "Unknown model") and
    /// the token counts (or 0).
    pub fn from<'a, W>(value: StreamConsumer<'a, W>) -> (res: RunnerResponse)
        ensures
            res.content@ == value.displayer().content(),
            res.model@ == match value.metadata().0 {
                Some(m) => m,
                None => "Unknown model"@,
            },
            res.tokens_evaluated == match value.metadata().1 {
                Some(n) => n,
                None => 0,
            },
            res.tokens_predicted == match value.metadata().2 {
                Some(n) => n,
                None => 0,
            },
    {
        let StreamConsumer { displayer, model, tokens_evaluated, tokens_predicted, .. } = value;
        RunnerResponse {
            content: displayer.complete_content,
            model: match model {
                Some(m) => m,
                None => String::from_str("Unknown model"),
            },
            tokens_predicted: match tokens_predicted {
                Some(n) => n,
                None => 0,
            },
            tokens_evaluated: match tokens_evaluated {
                Some(n) => n,
                None => 0,
            },
        }
    }
}

/// Trait providing specialised parser implementations for Llamacpp and Ollama runners
pub trait LlmRunnerParser {
    /// The runner's response stream chunk, as decoded from JSON.
    type Chunk;

    /// Model of the runner's name
    spec fn spec_name(&self) -> Seq<char>;

    /// The stream chunk that a decoded runner chunk stands for
    spec fn spec_chunk(&self, chunk: Self::Chunk) -> StreamChunkView;

    /// Turns a runner response stream chunk into a [`StreamChunk`]: `decoded` is the result of
    /// decoding `chunk` as JSON. A decoded chunk gives the stream chunk it stands for; a chunk
    /// that does not decode gives what `spec_undecoded_chunk` states.
    fn parse_stream_chunk(&self, chunk: &str, decoded: Result<Self::Chunk, serde_json::Error>) -> (res:
        Option<StreamChunk>)
        ensures
            match decoded {
                Ok(v) => opt_chunk(res) == Some(self.spec_chunk(v)),
                Err(_) => opt_chunk(res) == spec_undecoded_chunk(chunk@),
            },
    ;

    /// Human-readable runner name for logging and UI messages
    fn name(&self) -> (res: &'static str)
        ensures
            res@ == self.spec_name(),
    ;
}

/// An event of a runner's Server-Sent Event stream.
#[derive(Debug)]
pub enum ServerEvent<C> {
    /// The connection to the server is open
    Connected,
    /// A message event
    Event {
        /// The event's data
        data: String,
        /// The event's data decoded as a runner response stream chunk
        decoded: Result<C, serde_json::Error>,
    },
    /// A comment line
    Comment(String),
}

/// Context given in errors from a runner's stream.
pub open spec fn request_context(name: Seq<char>) -> Seq<char> {
    "sending request to "@ + name + " server"@
}

/// Advice given when a runner's server cannot be reached.
pub open spec fn connection_advice(name: Seq<char>) -> Seq<char> {
    "Check the "@ + name
        + " server is running or try increasing read timeout by passing `--timeout 600`, for a 600-second timeout, for example."@
}

/// Advice given when a runner's server does not know the requested model.
pub open spec fn missing_model_advice(name: Seq<char>) -> Seq<char> {
    "Check the requested model is available on the "@ + name + " server"@
}

/// The error that a stream client failure of runner `name` is reported as: a connection error
/// for a transport failure, a response error for a 404 response, an unexpected error for
/// failures other than the end of the stream and unexpected responses, and the stream client's
/// own error otherwise.
pub open spec fn spec_stream_error(name: Seq<char>, err: RunnerApiError, res: RunnerStreamError) -> bool {
    match err.kind {
        RunnerApiErrorKind::Transport => res matches RunnerStreamError::Connection(e) && e.advice@
            == connection_advice(name) && e.context@ == request_context(name),
        RunnerApiErrorKind::UnexpectedResponse { status } => if status == 404 {
            res matches RunnerStreamError::Response(e) && e.advice@ == missing_model_advice(name)
                && e.context@ == request_context(name)
        } else {
            res == RunnerStreamError::Runner(err)
        },
        RunnerApiErrorKind::Eof => res == RunnerStreamError::Runner(err),
        RunnerApiErrorKind::Other => res matches RunnerStreamError::Unexpected(e) && e.advice@
            == "contact support"@ && e.context@ == request_context(name) && e.cause@
            == "Error streaming "@ + name + " response: "@ + err.details@,
    }
}

/// `"sending request to {name} server"`
fn request_context_text(name: &str) -> (res: String)
    ensures
        res@ == request_context(name@),
{
    let mut context = prefixed("sending request to ", name);
    context.append(" server");
    context
}

/// LLM Runner core logic.
///
/// Acts as base.  LLamacpp and Ollama have implement parsers used in this runner implementation.
pub struct Runner<'a, P: LlmRunnerParser> {
    client: OpenAIAPIClient<'a>,
    parser: P,
}

impl<'a, P: LlmRunnerParser> Runner<'a, P> {
    /// The runner's parser.
    pub closed spec fn spec_parser(&self) -> P {
        self.parser
    }

    /// The runner's API client.
    pub closed spec fn spec_client(&self) -> &OpenAIAPIClient<'a> {
        &self.client
    }

    /// Create a new runner, whose client talks to the configured server.
    pub fn new(parser: P, api_config: &'a ApiConfig) -> (res: Result<Self, AppError>)
        ensures
            res matches Ok(runner) && runner.spec_parser() == parser
                && runner.spec_client().spec_api_key() == api_config.spec_api_key()
                && runner.spec_client().spec_url() == url_with_path(
                api_config.spec_base_url(),
                COMPLETIONS_PATH@,
            ) && runner.spec_client().spec_read_timeout_secs() == api_config.spec_timeout_secs(),
    {
        match OpenAIAPIClient::new(api_config) {
            Ok(client) => Ok(Runner { client, parser }),
            Err(err) => Err(err),
        }
    }

    /// The runner's API client
    pub fn get_openai_api_client(&self) -> (res: &OpenAIAPIClient<'a>)
        ensures
            res == self.spec_client(),
    {
        &self.client
    }

    /// The runner's parser
    pub fn parser(&self) -> (res: &P)
        ensures
            *res == self.spec_parser(),
    {
        &self.parser
    }

    /// The stream chunk, if any, that a server event gives: a message event is parsed by the
    /// runner's parser; connection notices and comments give none.
    pub fn parse_event(&self, event: ServerEvent<P::Chunk>) -> (res: Option<StreamChunk>)
        ensures
            match event {
                ServerEvent::Event { data, decoded } => match decoded {
                    Ok(v) => opt_chunk(res) == Some(self.spec_parser().spec_chunk(v)),
                    Err(_) => opt_chunk(res) == spec_undecoded_chunk(data@),
                },
                _ => res is None,
            },
    {
        match event {
            ServerEvent::Event { data, decoded } => self.parser.parse_stream_chunk(data.as_str(), decoded),
            ServerEvent::Connected => None,
            ServerEvent::Comment(_comment) => None,
        }
    }

    /// The error that a stream client failure is reported as, as `spec_stream_error` states.
    pub fn map_stream_error(&self, err: RunnerApiError) -> (res: RunnerStreamError)
        ensures
            spec_stream_error(self.spec_parser().spec_name(), err, res),
    {
        let name = self.parser.name();
        match err.kind {
            RunnerApiErrorKind::Eof => RunnerStreamError::Runner(err),
            RunnerApiErrorKind::Transport => {
                let mut advice = prefixed("Check the ", name);
                advice.append(
                    " server is running or try increasing read timeout by passing `--timeout 600`, for a 600-second timeout, for example.",
                );
                RunnerStreamError::Connection(
                    ConnectionError { advice, context: request_context_text(name) },
                )
            },
            RunnerApiErrorKind::UnexpectedResponse { status } => {
                if status == 404 {
                    let mut advice = prefixed(
                        "Check the requested model is available on the ",
                        name,
                    );
                    advice.append(" server");
                    RunnerStreamError::Response(
                        ResponseError { advice, context: request_context_text(name) },
                    )
                } else {
                    RunnerStreamError::Runner(err)
                }
            },
            RunnerApiErrorKind::Other => {
                let mut cause = prefixed("Error streaming ", name);
                cause.append(" response: ");
                cause.append(err.details.as_str());
                RunnerStreamError::Unexpected(
                    UnexpectedError {
                        advice: String::from_str("contact support"),
                        context: request_context_text(name),
                        cause,
                    },
                )
            },
        }
    }
}

} // verus!


